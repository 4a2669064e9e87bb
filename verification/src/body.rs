//! The request as the JSON text that is posted to the endpoint.

use vstd::prelude::*;
use vstd::string::*;
use crate::message::{
    message_views, part_views, ChatMessage, ChatMessageView, ChatRequest, ChatRequestView,
    ContentPart, ContentPartView, Role,
};

verus! {

/// `text` as a JSON string, as serde_json writes it: between double quotes,
/// with what JSON does not take as it stands escaped.
pub uninterp spec fn json_quoted(text: Seq<char>) -> Seq<char>;

/// A text part around its quoted text.
pub open spec fn text_part_json_of(quoted: Seq<char>) -> Seq<char> {
    "{\"type\":\"text\",\"text\":"@ + quoted + "}"@
}

/// An image part around its quoted URL.
pub open spec fn image_part_json_of(quoted: Seq<char>) -> Seq<char> {
    "{\"type\":\"image_url\",\"image_url\":{\"url\":"@ + quoted + "}}"@
}

/// One content part as JSON: an object that names its type and holds its
/// text, or its URL inside an object of its own.
pub open spec fn part_json_of(part: ContentPartView) -> Seq<char> {
    match part {
        ContentPartView::Text { text } => text_part_json_of(json_quoted(text)),
        ContentPartView::ImageRef { url } => image_part_json_of(json_quoted(url)),
    }
}

/// Content parts as JSON, in order, with a comma between two of them.
pub open spec fn parts_json_of(parts: Seq<ContentPartView>) -> Seq<char>
    decreases parts.len(),
{
    if parts.len() == 0 {
        Seq::empty()
    } else if parts.len() == 1 {
        part_json_of(parts[0])
    } else {
        parts_json_of(parts.drop_last()) + ","@ + part_json_of(parts.last())
    }
}

/// One message as JSON: its role and the array of its content parts.
pub open spec fn message_json_of(message: ChatMessageView) -> Seq<char> {
    match message.role {
        Role::User => "{\"role\":\"user\",\"content\":["@ + parts_json_of(message.content) + "]}"@,
    }
}

/// Messages as JSON, in order, with a comma between two of them.
pub open spec fn messages_json_of(messages: Seq<ChatMessageView>) -> Seq<char>
    decreases messages.len(),
{
    if messages.len() == 0 {
        Seq::empty()
    } else if messages.len() == 1 {
        message_json_of(messages[0])
    } else {
        messages_json_of(messages.drop_last()) + ","@ + message_json_of(messages.last())
    }
}

/// A request as JSON: whether the answer is to be streamed, and the array
/// of its messages.
pub open spec fn request_json_of(request: ChatRequestView) -> Seq<char> {
    if request.stream {
        "{\"stream\":true,\"messages\":["@ + messages_json_of(request.messages) + "]}"@
    } else {
        "{\"stream\":false,\"messages\":["@ + messages_json_of(request.messages) + "]}"@
    }
}

/// Makes a `serde_json::Value` that is the string `text` and has serde_json
/// write it in its compact form, through `Display`. What is written depends
/// on the text alone.
#[verifier::external_body]
fn quote_json(text: &str) -> (quoted: String)
    ensures
        quoted@ == json_quoted(text@),
{
    serde_json::Value::String(text.to_owned()).to_string()
}

/// A text part around its quoted text.
pub fn text_part_json(quoted: &str) -> (json: String)
    ensures
        json@ == text_part_json_of(quoted@),
{
    let mut json = String::from_str("{\"type\":\"text\",\"text\":");
    json.append(quoted);
    json.append("}");
    json
}

/// An image part around its quoted URL.
pub fn image_part_json(quoted: &str) -> (json: String)
    ensures
        json@ == image_part_json_of(quoted@),
{
    let mut json = String::from_str("{\"type\":\"image_url\",\"image_url\":{\"url\":");
    json.append(quoted);
    json.append("}}");
    json
}

/// One content part as JSON.
pub fn part_json(part: &ContentPart) -> (json: String)
    ensures
        json@ == part_json_of(part@),
{
    match part {
        ContentPart::Text { text } => text_part_json(quote_json(text.as_str()).as_str()),
        ContentPart::ImageRef { url } => image_part_json(quote_json(url.as_str()).as_str()),
    }
}

/// Content parts as JSON, in order, with a comma between two of them.
pub fn parts_json(parts: &Vec<ContentPart>) -> (json: String)
    ensures
        json@ == parts_json_of(part_views(parts@)),
{
    let mut json = String::new();
    let mut i: usize = 0;
    let ghost all = part_views(parts@);
    assert(all.take(0) =~= Seq::<ContentPartView>::empty());
    while i < parts.len()
        invariant
            i <= parts@.len(),
            all == part_views(parts@),
            json@ == parts_json_of(all.take(i as int)),
        decreases parts@.len() - i,
    {
        assert(all.take(i + 1).drop_last() =~= all.take(i as int));
        assert(all.take(i + 1).last() == parts@[i as int]@);
        let ghost before = json@;
        if i > 0 {
            json.append(",");
        }
        let one = part_json(&parts[i]);
        json.append(one.as_str());
        assert(i == 0 ==> json@ =~= part_json_of(all.take(1)[0]));
        i += 1;
    }
    assert(all.take(i as int) =~= all);
    json
}

/// One message as JSON.
pub fn message_json(message: &ChatMessage) -> (json: String)
    ensures
        json@ == message_json_of(message@),
{
    let parts = parts_json(&message.content);
    match message.role {
        Role::User => {
            let mut json = String::from_str("{\"role\":\"user\",\"content\":[");
            json.append(parts.as_str());
            json.append("]}");
            json
        },
    }
}

/// Messages as JSON, in order, with a comma between two of them.
pub fn messages_json(messages: &Vec<ChatMessage>) -> (json: String)
    ensures
        json@ == messages_json_of(message_views(messages@)),
{
    let mut json = String::new();
    let mut i: usize = 0;
    let ghost all = message_views(messages@);
    assert(all.take(0) =~= Seq::<ChatMessageView>::empty());
    while i < messages.len()
        invariant
            i <= messages@.len(),
            all == message_views(messages@),
            json@ == messages_json_of(all.take(i as int)),
        decreases messages@.len() - i,
    {
        assert(all.take(i + 1).drop_last() =~= all.take(i as int));
        assert(all.take(i + 1).last() == messages@[i as int]@);
        if i > 0 {
            json.append(",");
        }
        let one = message_json(&messages[i]);
        json.append(one.as_str());
        assert(i == 0 ==> json@ =~= message_json_of(all.take(1)[0]));
        i += 1;
    }
    assert(all.take(i as int) =~= all);
    json
}

/// The body of the request: a JSON object that says whether the answer is
/// to be streamed and holds the messages, each with its role and its content
/// parts in order.
pub fn request_body(request: &ChatRequest) -> (json: String)
    ensures
        json@ == request_json_of(request@),
{
    let messages = messages_json(&request.messages);
    let mut json = if request.stream {
        String::from_str("{\"stream\":true,\"messages\":[")
    } else {
        String::from_str("{\"stream\":false,\"messages\":[")
    };
    json.append(messages.as_str());
    json.append("]}");
    json
}

} // verus!
