//! Client-side logic for a streamed chat-completions conversation.
//!
//! The network hands over bytes in chunks of arbitrary size. This crate
//! reassembles them into blank-line delimited event frames, pulls the
//! `data: ` payloads out of each frame, reads the incremental text out of each
//! payload, and keeps the state of one turn of the conversation. It also
//! builds the request of a turn and its JSON body, the data URL of an image,
//! and the prompt of the review turn. Every function carries a contract over
//! sequences of bytes and characters; `laws` holds what follows from them for
//! a whole turn.

pub mod body;
pub mod delta;
pub mod frame;
pub mod image;
pub mod laws;
pub mod message;
pub mod payload;
pub mod render;
pub mod text;
pub mod transport;
pub mod turn;

pub use body::request_body;
pub use delta::{extract, Delta, Lookup};
pub use frame::StreamBuffer;
pub use image::{encode_with_extension, mime_for_extension, DataUrlEncoder};
pub use message::{
    build_request_content, plan_review, review_prompt, turn_request, ChatMessage, ChatRequest,
    ContentPart, ReviewPlan, Role,
};
pub use render::{anomaly_notice, label, render, review_skipped_notice, Output, TurnKind};
pub use transport::{check_status, is_success, TransportError};
pub use turn::{Anomaly, Next, Phase, Turn, TurnResult};
