use sse_chat::delta::{
    delta_from_lookup, deltas_of_payloads, extract_chars, fragment_text, is_sentinel,
    lookup_content,
};
use sse_chat::{extract, Delta, Lookup};

fn chars(text: &str) -> Vec<char> {
    text.chars().collect()
}

fn fragment(text: &str) -> Delta {
    Delta::Fragment(text.to_string())
}

#[test]
fn extract_knows_the_sentinel() {
    assert_eq!(extract("[DONE]"), Delta::Sentinel);
    assert_eq!(extract("  [DONE]\t"), Delta::Sentinel);
    assert_eq!(extract("[DONE]\r"), Delta::Sentinel);
    assert_eq!(extract("\u{a0}[DONE]\u{2003}"), Delta::Sentinel);
}

#[test]
fn extract_takes_nothing_else_for_the_sentinel() {
    assert_eq!(extract("[DONE"), Delta::ParseWarning);
    assert_eq!(extract("[ DONE ]"), Delta::ParseWarning);
    assert_eq!(extract("[done]"), Delta::ParseWarning);
    assert_eq!(extract("\"[DONE]\""), Delta::Empty);
    assert_eq!(extract("[DONE] [DONE]"), Delta::ParseWarning);
}

#[test]
fn is_sentinel_trims_both_ends() {
    assert!(is_sentinel(&chars("[DONE]")));
    assert!(is_sentinel(&chars(" \n[DONE] \r\n")));
    assert!(!is_sentinel(&chars("")));
    assert!(!is_sentinel(&chars("   ")));
    assert!(!is_sentinel(&chars("[DONE]x")));
    assert!(!is_sentinel(&chars("x[DONE]")));
    assert!(!is_sentinel(&chars("[D ONE]")));
}

#[test]
fn extract_gives_the_fragment_as_it_stands() {
    let payload = "{\"choices\":[{\"delta\":{\"content\":\"Hi\"}}]}";
    assert_eq!(extract(payload), fragment("Hi"));
    let payload = "{\"choices\":[{\"delta\":{\"content\":\"  two  spaces \\n\"}}]}";
    assert_eq!(extract(payload), fragment("  two  spaces \n"));
    let payload = "{\"choices\":[{\"delta\":{\"content\":\"\"}}]}";
    assert_eq!(extract(payload), fragment(""));
    let payload = " {\"choices\":[{\"delta\":{\"content\":\"\\u00e9\\\"\"}},{\"delta\":{\"content\":\"no\"}}]} ";
    assert_eq!(extract(payload), fragment("\u{e9}\""));
}

#[test]
fn extract_gives_empty_without_a_text_at_the_path() {
    assert_eq!(extract("{\"choices\":[]}"), Delta::Empty);
    assert_eq!(extract("{}"), Delta::Empty);
    assert_eq!(extract("{\"choices\":[{\"delta\":{\"role\":\"assistant\"}}]}"), Delta::Empty);
    assert_eq!(extract("{\"choices\":[{\"delta\":{\"content\":null}}]}"), Delta::Empty);
    assert_eq!(extract("{\"choices\":[{\"delta\":{\"content\":7}}]}"), Delta::Empty);
    assert_eq!(extract("{\"choices\":[{\"finish_reason\":\"stop\"}]}"), Delta::Empty);
    assert_eq!(extract("{\"choices\":{\"0\":{\"delta\":{\"content\":\"x\"}}}}"), fragment("x"));
    assert_eq!(extract("[1,2]"), Delta::Empty);
    assert_eq!(extract("null"), Delta::Empty);
}

#[test]
fn extract_warns_of_malformed_json() {
    assert_eq!(extract("{\"choices\":"), Delta::ParseWarning);
    assert_eq!(extract(""), Delta::ParseWarning);
    assert_eq!(extract("not json"), Delta::ParseWarning);
    assert_eq!(extract("{} {}"), Delta::ParseWarning);
}

#[test]
fn extract_chars_agrees_with_extract() {
    for payload in ["[DONE]", "{}", "{", "{\"choices\":[{\"delta\":{\"content\":\"a b\"}}]}"] {
        assert_eq!(extract_chars(&chars(payload)), extract(payload));
    }
}

#[test]
fn lookup_content_tells_the_three_cases_apart() {
    assert_eq!(lookup_content(&chars("{")), Lookup::Malformed);
    assert_eq!(lookup_content(&chars("{\"choices\":[]}")), Lookup::Absent);
    assert_eq!(
        lookup_content(&chars("{\"choices\":[{\"delta\":{\"content\":\"t\"}}]}")),
        Lookup::Text("t".to_string())
    );
    assert_eq!(lookup_content(&chars("\"/choices/0/delta/content\"")), Lookup::Absent);
}

#[test]
fn delta_from_lookup_maps_each_case() {
    assert_eq!(delta_from_lookup(Lookup::Malformed), Delta::ParseWarning);
    assert_eq!(delta_from_lookup(Lookup::Absent), Delta::Empty);
    assert_eq!(delta_from_lookup(Lookup::Text(" x ".to_string())), fragment(" x "));
    assert_eq!(delta_from_lookup(Lookup::Text(String::new())), fragment(""));
}

#[test]
fn deltas_of_payloads_stops_at_the_sentinel() {
    let payloads = vec![
        chars("{\"choices\":[{\"delta\":{\"content\":\"a\"}}]}"),
        chars("[DONE]"),
        chars("{\"choices\":[{\"delta\":{\"content\":\"late\"}}]}"),
        chars("[DONE]"),
    ];
    assert_eq!(deltas_of_payloads(&payloads), vec![fragment("a"), Delta::Sentinel]);
}

#[test]
fn deltas_of_payloads_goes_on_after_a_warning() {
    let payloads = vec![
        chars("{\"choices\":[{\"delta\":{\"content\":\"a\"}}]}"),
        chars("{broken"),
        chars("{\"choices\":[]}"),
        chars("{\"choices\":[{\"delta\":{\"content\":\"b\"}}]}"),
    ];
    assert_eq!(
        deltas_of_payloads(&payloads),
        vec![fragment("a"), Delta::ParseWarning, Delta::Empty, fragment("b")]
    );
    assert!(deltas_of_payloads(&Vec::new()).is_empty());
}

#[test]
fn fragment_text_joins_fragments_only() {
    let deltas = vec![
        fragment("Hi"),
        Delta::Empty,
        fragment(" "),
        Delta::ParseWarning,
        fragment("there"),
        Delta::Sentinel,
    ];
    assert_eq!(fragment_text(&deltas), "Hi there");
    assert_eq!(fragment_text(&Vec::new()), "");
}

#[test]
fn white_space_is_the_unicode_property() {
    for code in 0..=0x10FFFFu32 {
        if let Some(c) = char::from_u32(code) {
            assert_eq!(sse_chat::delta::is_white_space(c), c.is_whitespace(), "U+{:04X}", code);
        }
    }
}

#[test]
fn chars_of_gives_every_character() {
    assert_eq!(sse_chat::text::chars_of("a\u{e9}\u{1f600}\n"), vec!['a', '\u{e9}', '\u{1f600}', '\n']);
    assert!(sse_chat::text::chars_of("").is_empty());
}
