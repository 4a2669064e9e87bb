use sse_chat::delta::fragment_text;
use sse_chat::{
    anomaly_notice, is_success, label, render, review_skipped_notice, Anomaly, Delta, Next,
    Output, Phase, Turn, TurnKind, TurnResult,
};

const TRANSCRIPT: &str = "data: {\"choices\":[{\"delta\":{\"content\":\"Hi\"}}]}\n\ndata: {\"choices\":[{\"delta\":{\"content\":\" there\"}}]}\n\ndata: [DONE]\n\n";

fn fragment(text: &str) -> Delta {
    Delta::Fragment(text.to_string())
}

fn streaming(capture: bool) -> Turn {
    let mut turn = Turn::new(capture);
    assert_eq!(turn.on_status(200), Next::ReadChunk);
    turn
}

fn run(capture: bool, chunks: &[&[u8]]) -> (Vec<Delta>, Turn) {
    let mut turn = streaming(capture);
    let mut all = Vec::new();
    for chunk in chunks {
        all.extend(turn.feed(chunk));
    }
    (all, turn)
}

#[test]
fn is_success_is_the_two_hundreds() {
    assert!(is_success(200));
    assert!(is_success(204));
    assert!(is_success(299));
    assert!(!is_success(199));
    assert!(!is_success(300));
    assert!(!is_success(404));
    assert!(!is_success(503));
    assert!(!is_success(0));
    assert!(!is_success(u16::MAX));
}

#[test]
fn new_turn_is_starting() {
    let turn = Turn::new(true);
    assert_eq!(turn.phase(), Phase::Starting);
    assert!(turn.captures());
    assert!(!Turn::new(false).captures());
    assert_eq!(turn.into_result(), None);
}

#[test]
fn two_chunks_split_between_events() {
    let first: &[u8] = b"data: {\"choices\":[{\"delta\":{\"content\":\"Hi\"}}]}\n\n";
    let second: &[u8] =
        b"data: {\"choices\":[{\"delta\":{\"content\":\" there\"}}]}\n\ndata: [DONE]\n\n";
    let mut turn = streaming(true);
    assert_eq!(turn.feed(first), vec![fragment("Hi")]);
    assert_eq!(turn.phase(), Phase::Streaming);
    assert_eq!(turn.feed(second), vec![fragment(" there"), Delta::Sentinel]);
    assert_eq!(turn.phase(), Phase::Done);
    assert_eq!(turn.on_end(), None);
    assert_eq!(turn.into_result(), Some(TurnResult { captured: Some("Hi there".to_string()) }));
}

#[test]
fn without_capture_the_result_holds_no_text() {
    let (deltas, turn) = run(false, &[TRANSCRIPT.as_bytes()]);
    assert_eq!(fragment_text(&deltas), "Hi there");
    assert_eq!(turn.into_result(), Some(TurnResult { captured: None }));
}

#[test]
fn every_split_in_two_gives_the_same_deltas() {
    let bytes = TRANSCRIPT.as_bytes();
    let expected = vec![fragment("Hi"), fragment(" there"), Delta::Sentinel];
    for cut in 0..=bytes.len() {
        let (deltas, turn) = run(true, &[&bytes[..cut], &bytes[cut..]]);
        assert_eq!(deltas, expected);
        assert_eq!(turn.phase(), Phase::Done);
        assert_eq!(turn.into_result(), Some(TurnResult { captured: Some("Hi there".to_string()) }));
    }
}

#[test]
fn byte_by_byte_gives_the_same_deltas() {
    let bytes = TRANSCRIPT.as_bytes();
    let chunks: Vec<&[u8]> = bytes.chunks(1).collect();
    let (deltas, turn) = run(true, &chunks);
    assert_eq!(deltas, vec![fragment("Hi"), fragment(" there"), Delta::Sentinel]);
    assert_eq!(turn.into_result(), Some(TurnResult { captured: Some("Hi there".to_string()) }));
    let chunks: Vec<&[u8]> = bytes.chunks(7).collect();
    let (deltas, _) = run(true, &chunks);
    assert_eq!(deltas, vec![fragment("Hi"), fragment(" there"), Delta::Sentinel]);
}

#[test]
fn captured_text_is_the_emitted_fragments() {
    let text = "data: {\"choices\":[{\"delta\":{\"content\":\"a \"}}]}\n\ndata: {oops\n\ndata: {\"choices\":[{\"delta\":{\"content\":\"\\n b\"}}]}\n\n";
    let chunks: Vec<&[u8]> = text.as_bytes().chunks(5).collect();
    let (deltas, mut turn) = run(true, &chunks);
    assert_eq!(turn.on_end(), Some(Anomaly::MissingSentinel));
    let result = turn.into_result();
    assert_eq!(result, Some(TurnResult { captured: Some(fragment_text(&deltas)) }));
    assert_eq!(result, Some(TurnResult { captured: Some("a \n b".to_string()) }));
}

#[test]
fn sentinel_ends_the_turn_whatever_follows() {
    let mut turn = streaming(true);
    let deltas = turn.feed(
        b"data: {\"choices\":[{\"delta\":{\"content\":\"x\"}}]}\n\ndata: [DONE]\n\ndata: {\"choices\":[{\"delta\":{\"content\":\"y\"}}]}\n\n",
    );
    assert_eq!(deltas, vec![fragment("x"), Delta::Sentinel]);
    assert_eq!(turn.phase(), Phase::Done);
    assert!(turn.feed(b"data: {\"choices\":[{\"delta\":{\"content\":\"z\"}}]}\n\n").is_empty());
    assert_eq!(turn.phase(), Phase::Done);
    assert_eq!(turn.on_end(), None);
    assert_eq!(turn.into_result(), Some(TurnResult { captured: Some("x".to_string()) }));
}

#[test]
fn sentinel_ends_the_turn_inside_a_frame() {
    let mut turn = streaming(true);
    let deltas = turn.feed(
        b"data: {\"choices\":[{\"delta\":{\"content\":\"x\"}}]}\ndata:  [DONE] \ndata: {\"choices\":[{\"delta\":{\"content\":\"y\"}}]}\n\n",
    );
    assert_eq!(deltas, vec![fragment("x"), Delta::Sentinel]);
    assert_eq!(turn.phase(), Phase::Done);
}

#[test]
fn rejected_status_fails_the_turn_and_emits_nothing() {
    let mut turn = Turn::new(true);
    assert_eq!(turn.on_status(503), Next::ReadErrorBody);
    assert_eq!(turn.phase(), Phase::Failed);
    assert!(turn.feed(TRANSCRIPT.as_bytes()).is_empty());
    assert_eq!(turn.phase(), Phase::Failed);
    assert_eq!(turn.on_end(), None);
    assert_eq!(turn.into_result(), None);
}

#[test]
fn status_counts_only_at_the_start() {
    let mut turn = streaming(false);
    assert_eq!(turn.on_status(503), Next::Stop);
    assert_eq!(turn.phase(), Phase::Streaming);
    let mut turn = Turn::new(false);
    assert_eq!(turn.on_status(404), Next::ReadErrorBody);
    assert_eq!(turn.on_status(200), Next::Stop);
    assert_eq!(turn.phase(), Phase::Failed);
}

#[test]
fn chunk_before_the_status_is_not_taken() {
    let mut turn = Turn::new(true);
    assert!(turn.feed(TRANSCRIPT.as_bytes()).is_empty());
    assert_eq!(turn.phase(), Phase::Starting);
}

#[test]
fn malformed_event_does_not_stop_the_stream() {
    let (deltas, turn) = run(
        true,
        &[
            b"data: {\"choices\":[{\"delta\":{\"content\":\"a\"}}]}\n\ndata: {\"choices\": oops\n\n",
            b"data: {\"choices\":[{\"delta\":{\"content\":\"b\"}}]}\n\ndata: [DONE]\n\n",
        ],
    );
    assert_eq!(
        deltas,
        vec![fragment("a"), Delta::ParseWarning, fragment("b"), Delta::Sentinel]
    );
    assert_eq!(turn.into_result(), Some(TurnResult { captured: Some("ab".to_string()) }));
}

#[test]
fn events_without_text_are_empty() {
    let (deltas, _) = run(
        false,
        &[b"data: {\"choices\":[{\"delta\":{\"role\":\"assistant\"}}]}\n\n: ping\n\n\n\ndata: {\"choices\":[]}\n\n"],
    );
    assert_eq!(deltas, vec![Delta::Empty, Delta::Empty]);
}

#[test]
fn end_inside_a_frame_is_a_truncated_frame() {
    let mut turn = streaming(true);
    assert_eq!(
        turn.feed(b"data: {\"choices\":[{\"delta\":{\"content\":\"a\"}}]}\n\ndata: {\"cho"),
        vec![fragment("a")]
    );
    assert_eq!(turn.on_end(), Some(Anomaly::TruncatedFrame(11)));
    assert_eq!(turn.phase(), Phase::Done);
    assert_eq!(turn.on_end(), None);
    assert_eq!(turn.into_result(), Some(TurnResult { captured: Some("a".to_string()) }));
}

#[test]
fn end_between_frames_is_a_missing_sentinel() {
    let mut turn = streaming(true);
    assert_eq!(turn.on_end(), Some(Anomaly::MissingSentinel));
    assert_eq!(turn.phase(), Phase::Done);
    assert_eq!(turn.into_result(), Some(TurnResult { captured: Some(String::new()) }));
}

#[test]
fn failure_ends_a_running_turn_only() {
    let mut turn = streaming(true);
    assert_eq!(turn.feed(b"data: {\"choices\":[{\"delta\":{\"content\":\"a\"}}]}\n\n"), vec![fragment("a")]);
    turn.fail();
    assert_eq!(turn.phase(), Phase::Failed);
    assert!(turn.feed(b"data: [DONE]\n\n").is_empty());
    assert_eq!(turn.into_result(), None);
    let mut turn = Turn::new(true);
    turn.fail();
    assert_eq!(turn.phase(), Phase::Failed);
    let (_, mut turn) = run(true, &[TRANSCRIPT.as_bytes()]);
    turn.fail();
    assert_eq!(turn.phase(), Phase::Done);
}

#[test]
fn character_split_between_chunks_is_whole_again() {
    let text = "data: {\"choices\":[{\"delta\":{\"content\":\"caf\u{e9} \u{1f600}\"}}]}\n\ndata: [DONE]\n\n";
    let bytes = text.as_bytes();
    for cut in 0..=bytes.len() {
        let (deltas, _) = run(true, &[&bytes[..cut], &bytes[cut..]]);
        assert_eq!(deltas, vec![fragment("caf\u{e9} \u{1f600}"), Delta::Sentinel]);
    }
}

#[test]
fn carriage_returns_end_lines_but_not_frames() {
    let (deltas, mut turn) = run(true, &[b"data: [DONE]\r\n\r\n"]);
    assert!(deltas.is_empty());
    assert_eq!(turn.on_end(), Some(Anomaly::TruncatedFrame(16)));
    let (deltas, _) = run(
        true,
        &[b"data: {\"choices\":[{\"delta\":{\"content\":\"a\"}}]}\r\ndata: [DONE]\r\n\n"],
    );
    assert_eq!(deltas, vec![fragment("a"), Delta::Sentinel]);
}

#[test]
fn io_failure_fails_the_turn_and_names_the_cause() {
    let mut turn = streaming(true);
    let error = turn.on_io_failure("connection reset");
    assert_eq!(error, sse_chat::TransportError::Io("connection reset".to_string()));
    assert_eq!(error.message(), "transport failed: connection reset");
    assert_eq!(turn.phase(), Phase::Failed);
    assert!(turn.feed(TRANSCRIPT.as_bytes()).is_empty());
    assert_eq!(turn.into_result(), None);
    let (_, mut turn) = run(false, &[TRANSCRIPT.as_bytes()]);
    let error = turn.on_io_failure("late");
    assert_eq!(error, sse_chat::TransportError::Io("late".to_string()));
    assert_eq!(turn.phase(), Phase::Done);
}

#[test]
fn render_sends_the_answer_out_and_diagnostics_elsewhere() {
    assert_eq!(render(&fragment(" Hi\n")), Output::Answer(" Hi\n".to_string()));
    assert_eq!(render(&fragment("")), Output::Answer(String::new()));
    assert_eq!(render(&Delta::Sentinel), Output::Answer("\n".to_string()));
    assert_eq!(render(&Delta::Empty), Output::Nothing);
    assert_eq!(
        render(&Delta::ParseWarning),
        Output::Diagnostic("an event held no valid JSON and was passed over".to_string())
    );
}

#[test]
fn rendered_answer_of_two_chunks_is_the_text_and_the_mark() {
    let first: &[u8] = b"data: {\"choices\":[{\"delta\":{\"content\":\"Hi\"}}]}\n\n";
    let second: &[u8] =
        b"data: {\"choices\":[{\"delta\":{\"content\":\" there\"}}]}\n\ndata: [DONE]\n\n";
    let (deltas, _) = run(true, &[first, second]);
    let mut stdout = String::new();
    for delta in &deltas {
        if let Output::Answer(text) = render(delta) {
            stdout.push_str(&text);
        }
    }
    assert_eq!(stdout, "Hi there\n");
}

#[test]
fn notices_and_labels_are_fixed_texts() {
    assert_eq!(anomaly_notice(Anomaly::MissingSentinel), "the stream ended without its end mark");
    assert_eq!(
        anomaly_notice(Anomaly::TruncatedFrame(11)),
        "the stream ended inside an event; bytes dropped: 11"
    );
    assert_eq!(label(TurnKind::Answer), "Answer:\n");
    assert_eq!(label(TurnKind::Review), "Review:\n");
    assert_eq!(review_skipped_notice(), "No response captured for review step.");
}
