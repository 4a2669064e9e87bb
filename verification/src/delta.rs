//! From one data payload to what it means for the turn.

use vstd::prelude::*;
use vstd::string::*;
use crate::text::{chars_of, views};

verus! {

/// `serde_json::Value`, a parsed JSON document. It is carried from the parser
/// to the lookup; nothing of its inside is read here.
#[verifier::external_type_specification]
#[verifier::external_body]
pub struct ExJsonValue(serde_json::Value);

/// `serde_json::Error`, with which the parser rejects a text. Only that
/// there is one is read here.
#[verifier::external_type_specification]
#[verifier::external_body]
pub struct ExJsonError(serde_json::Error);

/// The strings inside a JSON document, each under the JSON Pointer with
/// which `Value::pointer` finds it. Pointers that lead to nothing, or to
/// anything but a string, are no keys.
pub uninterp spec fn json_strings(document: serde_json::Value) -> Map<Seq<char>, Seq<char>>;

/// What `serde_json::from_str` makes of `text`: nothing where it rejects the
/// text, else the strings inside the document that it returns, by pointer.
pub uninterp spec fn json_text_strings(text: Seq<char>) -> Option<Map<Seq<char>, Seq<char>>>;

/// Whether `c` is white space: a character with the Unicode property
/// White_Space, which are U+0009 to U+000D, U+0020, U+0085, U+00A0, U+1680,
/// U+2000 to U+200A, U+2028, U+2029, U+202F, U+205F and U+3000.
pub open spec fn white_space(c: char) -> bool {
    let u = c as u32;
    ||| 0x09 <= u <= 0x0D
    ||| u == 0x20
    ||| u == 0x85
    ||| u == 0xA0
    ||| u == 0x1680
    ||| 0x2000 <= u <= 0x200A
    ||| u == 0x2028
    ||| u == 0x2029
    ||| u == 0x202F
    ||| u == 0x205F
    ||| u == 0x3000
}

/// The payload that ends a stream.
pub open spec fn sentinel() -> Seq<char> {
    seq!['[', 'D', 'O', 'N', 'E', ']']
}

/// The pointer to the incremental text inside an event.
pub open spec fn content_pointer() -> Seq<char> {
    "/choices/0/delta/content"@
}

/// The position of the first character at or after `from` that is no white space.
pub open spec fn skip_space(text: Seq<char>, from: int) -> int
    decreases text.len() - from,
{
    if from < 0 || from >= text.len() {
        text.len() as int
    } else if white_space(text[from]) {
        skip_space(text, from + 1)
    } else {
        from
    }
}

/// The end of `text` once the white space before `end` is taken off, but not
/// before `start`.
pub open spec fn drop_space(text: Seq<char>, start: int, end: int) -> int
    decreases end,
{
    if end <= start || end > text.len() || start < 0 {
        start
    } else if white_space(text[end - 1]) {
        drop_space(text, start, end - 1)
    } else {
        end
    }
}

/// `text` without the white space at its two ends.
pub open spec fn trimmed(text: Seq<char>) -> Seq<char> {
    let start = skip_space(text, 0);
    text.subrange(start, drop_space(text, start, text.len() as int))
}

/// What a JSON lookup of the incremental text found.
#[derive(Clone, Debug, PartialEq, Eq)]
pub enum Lookup {
    /// The payload is no JSON document.
    Malformed,
    /// The document holds no string at the pointer.
    Absent,
    /// The string at the pointer.
    Text(String),
}

/// A `Lookup` with its text as a sequence of characters.
pub ghost enum LookupView {
    Malformed,
    Absent,
    Text(Seq<char>),
}

impl View for Lookup {
    type V = LookupView;

    open spec fn view(&self) -> LookupView {
        match self {
            Lookup::Malformed => LookupView::Malformed,
            Lookup::Absent => LookupView::Absent,
            Lookup::Text(s) => LookupView::Text(s@),
        }
    }
}

/// What one data payload means for the turn.
#[derive(Clone, Debug, PartialEq, Eq)]
pub enum Delta {
    /// The stream is complete.
    Sentinel,
    /// A piece of the answer, as it stands in the event.
    Fragment(String),
    /// An event without a piece of the answer.
    Empty,
    /// A payload that is no JSON document.
    ParseWarning,
}

/// A `Delta` with its text as a sequence of characters.
pub ghost enum DeltaView {
    Sentinel,
    Fragment(Seq<char>),
    Empty,
    ParseWarning,
}

impl View for Delta {
    type V = DeltaView;

    open spec fn view(&self) -> DeltaView {
        match self {
            Delta::Sentinel => DeltaView::Sentinel,
            Delta::Fragment(s) => DeltaView::Fragment(s@),
            Delta::Empty => DeltaView::Empty,
            Delta::ParseWarning => DeltaView::ParseWarning,
        }
    }
}

/// What the lookup of the incremental text finds in `payload`.
pub open spec fn lookup_of(payload: Seq<char>) -> LookupView {
    match json_text_strings(payload) {
        None => LookupView::Malformed,
        Some(strings) => if strings.contains_key(content_pointer()) {
            LookupView::Text(strings[content_pointer()])
        } else {
            LookupView::Absent
        },
    }
}

/// What a lookup means for the turn.
pub open spec fn delta_of_lookup(lookup: LookupView) -> DeltaView {
    match lookup {
        LookupView::Malformed => DeltaView::ParseWarning,
        LookupView::Absent => DeltaView::Empty,
        LookupView::Text(s) => DeltaView::Fragment(s),
    }
}

/// What `payload` means for the turn: the sentinel where its trimmed text is
/// `[DONE]`, else what the lookup of the incremental text gives.
pub open spec fn delta_of(payload: Seq<char>) -> DeltaView {
    if trimmed(payload) == sentinel() {
        DeltaView::Sentinel
    } else {
        delta_of_lookup(lookup_of(payload))
    }
}

/// Whether a run of deltas ends with the sentinel.
pub open spec fn ends_with_sentinel(deltas: Seq<DeltaView>) -> bool {
    deltas.len() > 0 && deltas.last() is Sentinel
}

/// The deltas of `payloads` in order, up to and including the first sentinel.
pub open spec fn deltas_until_done(payloads: Seq<Seq<char>>) -> Seq<DeltaView>
    decreases payloads.len(),
{
    if payloads.len() == 0 {
        Seq::empty()
    } else {
        let before = deltas_until_done(payloads.drop_last());
        if ends_with_sentinel(before) {
            before
        } else {
            before.push(delta_of(payloads.last()))
        }
    }
}

/// The text that one delta adds to the answer.
pub open spec fn fragment_of(delta: DeltaView) -> Seq<char> {
    match delta {
        DeltaView::Fragment(s) => s,
        _ => Seq::empty(),
    }
}

/// The fragments among `deltas`, joined in order.
pub open spec fn text_of(deltas: Seq<DeltaView>) -> Seq<char>
    decreases deltas.len(),
{
    if deltas.len() == 0 {
        Seq::empty()
    } else {
        text_of(deltas.drop_last()) + fragment_of(deltas.last())
    }
}

/// Whether `c` is white space.
pub fn is_white_space(c: char) -> (white: bool)
    ensures
        white == white_space(c),
{
    let u: u32 = c as u32;
    (0x09 <= u && u <= 0x0D) || u == 0x20 || u == 0x85 || u == 0xA0 || u == 0x1680 || (0x2000 <= u
        && u <= 0x200A) || u == 0x2028 || u == 0x2029 || u == 0x202F || u == 0x205F || u == 0x3000
}

/// Calls `serde_json::from_str` for a `Value` on the text that `payload`
/// spells. Whether it accepts the text as a JSON document, and the strings
/// inside the document that it returns, depend on the text alone.
#[verifier::external_body]
fn parse_json(payload: &[char]) -> (parsed: Result<serde_json::Value, serde_json::Error>)
    ensures
        match parsed {
            Ok(document) => json_text_strings(payload@) == Some(json_strings(document)),
            Err(_) => json_text_strings(payload@) is None,
        },
{
    let text: String = payload.iter().collect();
    serde_json::from_str::<serde_json::Value>(&text)
}

/// Calls `Value::pointer` and then `Value::as_str` on what it found: the
/// string that stands in `document` at `pointer`, if one stands there.
#[verifier::external_body]
fn string_at(document: &serde_json::Value, pointer: &str) -> (found: Option<String>)
    ensures
        match found {
            Some(s) => json_strings(*document).contains_key(pointer@) && json_strings(
                *document,
            )[pointer@] == s@,
            None => !json_strings(*document).contains_key(pointer@),
        },
{
    document.pointer(pointer).and_then(serde_json::Value::as_str).map(|s| s.to_string())
}

/// Whether `payload`, trimmed, is `[DONE]`.
pub fn is_sentinel(payload: &[char]) -> (done: bool)
    ensures
        done == (trimmed(payload@) == sentinel()),
{
    let n: usize = payload.len();
    let mut start: usize = 0;
    while start < n && is_white_space(payload[start])
        invariant
            n == payload@.len(),
            start <= n,
            skip_space(payload@, start as int) == skip_space(payload@, 0),
        decreases n - start,
    {
        start += 1;
    }
    let mut end: usize = n;
    while end > start && is_white_space(payload[end - 1])
        invariant
            n == payload@.len(),
            start <= end <= n,
            drop_space(payload@, start as int, end as int) == drop_space(
                payload@,
                start as int,
                n as int,
            ),
        decreases end,
    {
        end -= 1;
    }
    let ghost core = payload@.subrange(start as int, end as int);
    assert(core == trimmed(payload@));
    if end - start == 6 && payload[start] == '[' && payload[start + 1] == 'D' && payload[start
        + 2] == 'O' && payload[start + 3] == 'N' && payload[start + 4] == 'E' && payload[start
        + 5] == ']' {
        assert(core =~= sentinel());
        true
    } else {
        assert(core.len() == 6 ==> core[0] == payload@[start as int] && core[1] == payload@[start
            + 1] && core[2] == payload@[start + 2] && core[3] == payload@[start + 3] && core[4]
            == payload@[start + 4] && core[5] == payload@[start + 5]);
        false
    }
}

/// Parses `payload` as JSON and looks for the incremental text in it.
pub fn lookup_content(payload: &[char]) -> (lookup: Lookup)
    ensures
        lookup@ == lookup_of(payload@),
{
    match parse_json(payload) {
        Err(_) => Lookup::Malformed,
        Ok(document) => match string_at(&document, "/choices/0/delta/content") {
            Some(s) => Lookup::Text(s),
            None => Lookup::Absent,
        },
    }
}

/// What a lookup means for the turn: a malformed payload is a warning, a
/// document without the text is empty, and the text is a fragment, unchanged.
pub fn delta_from_lookup(lookup: Lookup) -> (delta: Delta)
    ensures
        delta@ == delta_of_lookup(lookup@),
{
    match lookup {
        Lookup::Malformed => Delta::ParseWarning,
        Lookup::Absent => Delta::Empty,
        Lookup::Text(s) => Delta::Fragment(s),
    }
}

/// What the payload `payload` means for the turn.
pub fn extract_chars(payload: &[char]) -> (delta: Delta)
    ensures
        delta@ == delta_of(payload@),
{
    if is_sentinel(payload) {
        Delta::Sentinel
    } else {
        delta_from_lookup(lookup_content(payload))
    }
}

/// What the payload `payload` means for the turn: the sentinel, a fragment
/// of the answer, an event without one, or a warning.
pub fn extract(payload: &str) -> (delta: Delta)
    ensures
        delta@ == delta_of(payload@),
{
    let chars = chars_of(payload);
    extract_chars(chars.as_slice())
}

/// The deltas of `payloads` in order, up to and including the first sentinel.
/// A payload that is no JSON document gives a warning and the next is read.
pub fn deltas_of_payloads(payloads: &Vec<Vec<char>>) -> (deltas: Vec<Delta>)
    ensures
        views(deltas@) == deltas_until_done(views(payloads@)),
{
    let mut deltas: Vec<Delta> = Vec::new();
    let mut done: bool = false;
    let mut i: usize = 0;
    assert(views(payloads@).take(0) =~= Seq::<Seq<char>>::empty());
    assert(views(deltas@) =~= Seq::<DeltaView>::empty());
    while i < payloads.len()
        invariant
            i <= payloads@.len(),
            views(deltas@) == deltas_until_done(views(payloads@).take(i as int)),
            done == ends_with_sentinel(views(deltas@)),
        decreases payloads@.len() - i,
    {
        let ghost before = views(deltas@);
        assert(views(payloads@).take(i + 1).drop_last() =~= views(payloads@).take(i as int));
        assert(views(payloads@).take(i + 1).last() == payloads@[i as int]@);
        if !done {
            let delta = extract_chars(payloads[i].as_slice());
            if let Delta::Sentinel = delta {
                done = true;
            }
            deltas.push(delta);
            assert(views(deltas@) =~= before.push(delta@));
        }
        i += 1;
    }
    assert(views(payloads@).take(i as int) =~= views(payloads@));
    deltas
}

/// The fragments among `deltas`, joined in order.
pub fn fragment_text(deltas: &Vec<Delta>) -> (text: String)
    ensures
        text@ == text_of(views(deltas@)),
{
    let mut text = String::new();
    let mut i: usize = 0;
    assert(views(deltas@).take(0) =~= Seq::<DeltaView>::empty());
    while i < deltas.len()
        invariant
            i <= deltas@.len(),
            text@ == text_of(views(deltas@).take(i as int)),
        decreases deltas@.len() - i,
    {
        assert(views(deltas@).take(i + 1).drop_last() =~= views(deltas@).take(i as int));
        assert(views(deltas@).take(i + 1).last() == deltas@[i as int]@);
        match &deltas[i] {
            Delta::Fragment(s) => {
                text.append(s.as_str());
            },
            _ => {
                assert(text@ + Seq::<char>::empty() =~= text@);
            },
        }
        i += 1;
    }
    assert(views(deltas@).take(i as int) =~= views(deltas@));
    text
}

} // verus!
