//! The request of one turn: content parts, messages, and the review prompt.

use vstd::prelude::*;
use vstd::string::*;
use crate::turn::{TurnResult, TurnResultView};

verus! {

/// Who speaks in a message.
#[derive(Clone, Copy, Debug, PartialEq, Eq, Structural)]
pub enum Role {
    User,
}

impl Role {
    /// The name of the role as the endpoint expects it.
    pub fn name(&self) -> (name: &'static str)
        ensures
            name@ == "user"@,
    {
        "user"
    }
}

/// One part of a message's content.
#[derive(Clone, Debug, PartialEq, Eq)]
pub enum ContentPart {
    /// Text, verbatim.
    Text { text: String },
    /// An image, by data URL or remote URL.
    ImageRef { url: String },
}

/// A `ContentPart` with its text as a sequence of characters.
pub ghost enum ContentPartView {
    Text { text: Seq<char> },
    ImageRef { url: Seq<char> },
}

impl View for ContentPart {
    type V = ContentPartView;

    open spec fn view(&self) -> ContentPartView {
        match self {
            ContentPart::Text { text } => ContentPartView::Text { text: text@ },
            ContentPart::ImageRef { url } => ContentPartView::ImageRef { url: url@ },
        }
    }
}

/// The views of a run of content parts, in order.
pub open spec fn part_views(parts: Seq<ContentPart>) -> Seq<ContentPartView> {
    Seq::new(parts.len(), |i: int| parts[i]@)
}

/// One message of a request.
#[derive(Clone, Debug, PartialEq, Eq)]
pub struct ChatMessage {
    pub role: Role,
    pub content: Vec<ContentPart>,
}

/// A `ChatMessage` as the contracts see it.
pub ghost struct ChatMessageView {
    pub role: Role,
    pub content: Seq<ContentPartView>,
}

impl View for ChatMessage {
    type V = ChatMessageView;

    open spec fn view(&self) -> ChatMessageView {
        ChatMessageView { role: self.role, content: part_views(self.content@) }
    }
}

/// The views of a run of messages, in order.
pub open spec fn message_views(messages: Seq<ChatMessage>) -> Seq<ChatMessageView> {
    Seq::new(messages.len(), |i: int| messages[i]@)
}

impl ChatMessage {
    /// A message of `role` with `content`.
    pub fn new(role: Role, content: Vec<ContentPart>) -> (message: ChatMessage)
        ensures
            message.role == role,
            message.content == content,
    {
        ChatMessage { role, content }
    }

    /// A message of the user with `content`.
    pub fn user(content: Vec<ContentPart>) -> (message: ChatMessage)
        ensures
            message.role == Role::User,
            message.content == content,
    {
        ChatMessage::new(Role::User, content)
    }
}

/// The request of one turn.
#[derive(Clone, Debug, PartialEq, Eq)]
pub struct ChatRequest {
    pub stream: bool,
    pub messages: Vec<ChatMessage>,
}

/// A `ChatRequest` as the contracts see it.
pub ghost struct ChatRequestView {
    pub stream: bool,
    pub messages: Seq<ChatMessageView>,
}

impl View for ChatRequest {
    type V = ChatRequestView;

    open spec fn view(&self) -> ChatRequestView {
        ChatRequestView { stream: self.stream, messages: message_views(self.messages@) }
    }
}

impl ChatRequest {
    /// A request without messages that asks for no stream.
    pub fn new() -> (request: ChatRequest)
        ensures
            !request.stream,
            request.messages@.len() == 0,
    {
        ChatRequest { stream: false, messages: Vec::new() }
    }

    /// The same request, asking for a stream or not.
    pub fn stream(self, s: bool) -> (request: ChatRequest)
        ensures
            request.stream == s,
            request.messages == self.messages,
    {
        let mut request = self;
        request.stream = s;
        request
    }

    /// The same request with `msgs` in place of its messages.
    pub fn with_messages(self, msgs: Vec<ChatMessage>) -> (request: ChatRequest)
        ensures
            request.stream == self.stream,
            request.messages == msgs,
    {
        let mut request = self;
        request.messages = msgs;
        request
    }
}

/// The content of a message for `prompt` and an image that may come with it.
pub open spec fn content_of(prompt: Seq<char>, image: Option<Seq<char>>) -> Seq<ContentPartView> {
    match image {
        Some(url) => seq![ContentPartView::Text { text: prompt }, ContentPartView::ImageRef { url }],
        None => seq![ContentPartView::Text { text: prompt }],
    }
}

/// The text of an optional string.
pub open spec fn text_view(text: Option<String>) -> Option<Seq<char>> {
    match text {
        Some(t) => Some(t@),
        None => None,
    }
}

/// The content of a message: the prompt as one text part, verbatim, and
/// after it the image, where one is given, as one image part with the URL
/// as it was handed in.
pub fn build_request_content(prompt: &str, image: Option<String>) -> (parts: Vec<ContentPart>)
    ensures
        part_views(parts@) == content_of(prompt@, text_view(image)),
{
    let mut parts: Vec<ContentPart> = Vec::new();
    parts.push(ContentPart::Text { text: String::from_str(prompt) });
    match image {
        Some(url) => {
            parts.push(ContentPart::ImageRef { url });
        },
        None => {},
    }
    assert(part_views(parts@) =~= content_of(prompt@, text_view(image)));
    parts
}

/// The request of a turn for `prompt`, with the image where one is given.
pub open spec fn turn_request_of(prompt: Seq<char>, image: Option<Seq<char>>) -> ChatRequestView {
    ChatRequestView {
        stream: true,
        messages: seq![ChatMessageView { role: Role::User, content: content_of(prompt, image) }],
    }
}

/// The request of a turn: a streamed answer to one message of the user.
pub fn turn_request(prompt: &str, image: Option<String>) -> (request: ChatRequest)
    ensures
        request@ == turn_request_of(prompt@, text_view(image)),
{
    let parts = build_request_content(prompt, image);
    let mut messages: Vec<ChatMessage> = Vec::new();
    messages.push(ChatMessage::user(parts));
    let request = ChatRequest::new().stream(true).with_messages(messages);
    assert(request@.messages =~= turn_request_of(prompt@, text_view(image)).messages);
    request
}

/// The prompt of the review turn for the first `prompt` and its `answer`.
pub open spec fn review_prompt_of(prompt: Seq<char>, answer: Seq<char>) -> Seq<char> {
    "Original prompt: \""@ + prompt + "\"\n\nFirst response: \""@ + answer
        + "\"\n\nPlease review and revise."@
}

/// The prompt of the review turn: the first prompt and its answer, each
/// verbatim between double quotes, and the request to review and revise.
pub fn review_prompt(prompt: &str, answer: &str) -> (text: String)
    ensures
        text@ == review_prompt_of(prompt@, answer@),
{
    let mut text = String::from_str("Original prompt: \"");
    text.append(prompt);
    text.append("\"\n\nFirst response: \"");
    text.append(answer);
    text.append("\"\n\nPlease review and revise.");
    text
}

/// What follows the first turn.
#[derive(Clone, Debug, PartialEq, Eq)]
pub enum ReviewPlan {
    /// No review was asked for.
    NotRequested,
    /// A review was asked for, but the first turn left no text to review.
    Skipped,
    /// The review turn runs with this prompt.
    Review(String),
}

/// A `ReviewPlan` with its prompt as a sequence of characters.
pub ghost enum ReviewPlanView {
    NotRequested,
    Skipped,
    Review(Seq<char>),
}

impl View for ReviewPlan {
    type V = ReviewPlanView;

    open spec fn view(&self) -> ReviewPlanView {
        match self {
            ReviewPlan::NotRequested => ReviewPlanView::NotRequested,
            ReviewPlan::Skipped => ReviewPlanView::Skipped,
            ReviewPlan::Review(prompt) => ReviewPlanView::Review(prompt@),
        }
    }
}

/// What follows a first turn that left `first` behind, or nothing where it
/// did not get done.
pub open spec fn review_plan_of(
    review: bool,
    prompt: Seq<char>,
    first: Option<TurnResultView>,
) -> ReviewPlanView {
    if !review {
        ReviewPlanView::NotRequested
    } else {
        match first {
            Some(TurnResultView { captured: Some(answer) }) => if answer.len() > 0 {
                ReviewPlanView::Review(review_prompt_of(prompt, answer))
            } else {
                ReviewPlanView::Skipped
            },
            _ => ReviewPlanView::Skipped,
        }
    }
}

/// The view of what a first turn left behind.
pub open spec fn result_view(first: Option<TurnResult>) -> Option<TurnResultView> {
    match first {
        Some(r) => Some(r@),
        None => None,
    }
}

/// Decides what follows the first turn. The review turn runs only where a
/// review was asked for and the first turn got done with a captured answer
/// that is not empty; its prompt holds the first prompt and that answer.
pub fn plan_review(review: bool, prompt: &str, first: &Option<TurnResult>) -> (plan: ReviewPlan)
    ensures
        plan@ == review_plan_of(review, prompt@, result_view(*first)),
{
    if !review {
        return ReviewPlan::NotRequested;
    }
    match first {
        Some(TurnResult { captured: Some(answer) }) => {
            if answer.as_str().unicode_len() > 0 {
                ReviewPlan::Review(review_prompt(prompt, answer.as_str()))
            } else {
                ReviewPlan::Skipped
            }
        },
        _ => ReviewPlan::Skipped,
    }
}

} // verus!
