use sse_chat::transport::decimal;
use sse_chat::{
    build_request_content, check_status, encode_with_extension, mime_for_extension, plan_review, review_prompt,
    turn_request, ChatMessage, ChatRequest, ContentPart, DataUrlEncoder, ReviewPlan, Role,
    TransportError, Turn, TurnResult,
};

fn text_part(text: &str) -> ContentPart {
    ContentPart::Text { text: text.to_string() }
}

fn image_part(url: &str) -> ContentPart {
    ContentPart::ImageRef { url: url.to_string() }
}

#[test]
fn content_is_the_prompt_then_the_image() {
    assert_eq!(build_request_content("What is this?", None), vec![text_part("What is this?")]);
    assert_eq!(
        build_request_content(" spaced\n", Some("data:image/png;base64,AAAA".to_string())),
        vec![text_part(" spaced\n"), image_part("data:image/png;base64,AAAA")]
    );
    assert_eq!(build_request_content("", None), vec![text_part("")]);
}

#[test]
fn message_and_request_builders_keep_what_they_are_given() {
    let message = ChatMessage::new(Role::User, vec![text_part("a")]);
    assert_eq!(message.role, Role::User);
    assert_eq!(message.content, vec![text_part("a")]);
    assert_eq!(ChatMessage::user(vec![text_part("a")]), message);
    assert_eq!(Role::User.name(), "user");
    let request = ChatRequest::new();
    assert!(!request.stream);
    assert!(request.messages.is_empty());
    let request = request.stream(true).with_messages(vec![message.clone()]);
    assert!(request.stream);
    assert_eq!(request.messages, vec![message.clone()]);
    let request = request.stream(false);
    assert!(!request.stream);
    assert_eq!(request.messages, vec![message]);
}

#[test]
fn turn_request_is_one_streamed_user_message() {
    let request = turn_request("Hello", Some("u".to_string()));
    assert!(request.stream);
    assert_eq!(request.messages, vec![ChatMessage::user(vec![text_part("Hello"), image_part("u")])]);
}

#[test]
fn mime_goes_by_extension() {
    assert_eq!(mime_for_extension(Some("png")), "image/png");
    assert_eq!(mime_for_extension(Some("jpg")), "image/jpeg");
    assert_eq!(mime_for_extension(Some("jpeg")), "image/jpeg");
    assert_eq!(mime_for_extension(Some("webp")), "image/webp");
    assert_eq!(mime_for_extension(Some("gif")), "image/gif");
    assert_eq!(mime_for_extension(Some("xyz")), "application/octet-stream");
    assert_eq!(mime_for_extension(Some("PNG")), "application/octet-stream");
    assert_eq!(mime_for_extension(Some("")), "application/octet-stream");
    assert_eq!(mime_for_extension(None), "application/octet-stream");
}

#[test]
fn data_url_holds_mime_and_base64() {
    assert_eq!(encode_with_extension(Some("gif"), b"hello"), "data:image/gif;base64,aGVsbG8=");
    assert_eq!(encode_with_extension(None, b""), "data:application/octet-stream;base64,");
    assert_eq!(
        encode_with_extension(Some("webp"), &[0xfb, 0xff, 0xfe]),
        "data:image/webp;base64,+//+"
    );
}

#[test]
fn png_path_gives_png_data_url() {
    let url = DataUrlEncoder.encode_path("photo.png", &[0x89, b'P', b'N', b'G']);
    assert!(url.starts_with("data:image/png;base64,"));
    assert_eq!(url, "data:image/png;base64,iVBORw==");
}

#[test]
fn unknown_extension_gives_octet_stream_data_url() {
    let url = DataUrlEncoder.encode_path("photo.xyz", b"abc");
    assert!(url.starts_with("data:application/octet-stream;base64,"));
    assert_eq!(url, "data:application/octet-stream;base64,YWJj");
}

#[test]
fn extension_is_read_off_the_file_name() {
    assert!(DataUrlEncoder.encode_path("dir.png/photo", b"a").starts_with("data:application/octet-stream;"));
    assert!(DataUrlEncoder.encode_path(".png", b"a").starts_with("data:application/octet-stream;"));
    assert!(DataUrlEncoder.encode_path("a/b.tar.jpeg", b"a").starts_with("data:image/jpeg;base64,"));
    assert!(DataUrlEncoder.encode_path("a/b.jpg", b"a").starts_with("data:image/jpeg;base64,"));
}

#[test]
fn review_prompt_quotes_prompt_and_answer() {
    let prompt = review_prompt("Capital of France?", "Paris");
    assert!(prompt.contains("Capital of France?"));
    assert!(prompt.contains("Paris"));
    assert_eq!(
        prompt,
        "Original prompt: \"Capital of France?\"\n\nFirst response: \"Paris\"\n\nPlease review and revise."
    );
}

#[test]
fn review_runs_on_a_captured_answer() {
    let first = Some(TurnResult { captured: Some("Paris".to_string()) });
    assert_eq!(
        plan_review(true, "Capital of France?", &first),
        ReviewPlan::Review(review_prompt("Capital of France?", "Paris"))
    );
    assert_eq!(plan_review(false, "Capital of France?", &first), ReviewPlan::NotRequested);
}

#[test]
fn review_is_skipped_without_a_captured_answer() {
    let empty = Some(TurnResult { captured: Some(String::new()) });
    assert_eq!(plan_review(true, "p", &empty), ReviewPlan::Skipped);
    let none = Some(TurnResult { captured: None });
    assert_eq!(plan_review(true, "p", &none), ReviewPlan::Skipped);
    assert_eq!(plan_review(true, "p", &None), ReviewPlan::Skipped);
    assert_eq!(plan_review(false, "p", &None), ReviewPlan::NotRequested);
}

#[test]
fn failed_first_turn_leaves_nothing_to_review() {
    let mut turn = Turn::new(true);
    turn.fail();
    let first = turn.into_result();
    assert_eq!(first, None);
    assert_eq!(plan_review(true, "p", &first), ReviewPlan::Skipped);
}

#[test]
fn rejection_message_holds_status_and_body() {
    let error = TransportError::ServerRejected { status: 503, body: "overloaded".to_string() };
    let message = error.message();
    assert!(message.contains("503"));
    assert!(message.contains("overloaded"));
    assert_eq!(message, "server rejected the request with status 503: overloaded");
}

#[test]
fn io_message_holds_the_detail() {
    let error = TransportError::Io("connection reset".to_string());
    assert_eq!(error.message(), "transport failed: connection reset");
}

#[test]
fn decimal_writes_every_digit() {
    assert_eq!(decimal(0), "0");
    assert_eq!(decimal(7), "7");
    assert_eq!(decimal(10), "10");
    assert_eq!(decimal(404), "404");
    assert_eq!(decimal(12345), "12345");
    assert_eq!(decimal(60789), "60789");
    assert_eq!(decimal(65535), "65535");
    assert_eq!(decimal(u64::MAX), "18446744073709551615");
}

#[test]
fn data_url_joins_mime_and_text() {
    assert_eq!(sse_chat::image::data_url("image/png", "QUJD"), "data:image/png;base64,QUJD");
    assert_eq!(sse_chat::image::data_url("", ""), "data:;base64,");
}

#[test]
fn status_outside_the_success_class_is_a_rejection() {
    assert_eq!(check_status(200, "fine"), Ok(()));
    assert_eq!(check_status(299, ""), Ok(()));
    assert_eq!(
        check_status(503, "overloaded"),
        Err(TransportError::ServerRejected { status: 503, body: "overloaded".to_string() })
    );
    assert_eq!(
        check_status(199, ""),
        Err(TransportError::ServerRejected { status: 199, body: String::new() })
    );
    assert_eq!(
        check_status(300, "moved"),
        Err(TransportError::ServerRejected { status: 300, body: "moved".to_string() })
    );
}

#[test]
fn rejected_response_reports_status_and_body() {
    let mut turn = Turn::new(false);
    assert_eq!(turn.on_status(503), sse_chat::Next::ReadErrorBody);
    let error = check_status(503, "overloaded").unwrap_err();
    let message = error.message();
    assert!(message.contains("503"));
    assert!(message.contains("overloaded"));
    assert!(turn.feed(b"data: {\"choices\":[{\"delta\":{\"content\":\"x\"}}]}\n\n").is_empty());
    assert_eq!(turn.into_result(), None);
}
