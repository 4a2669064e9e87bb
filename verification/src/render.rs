//! What the driver of a turn writes, and where: the answer goes to standard
//! output, diagnostics go elsewhere.

use vstd::prelude::*;
use vstd::string::*;
use crate::delta::{Delta, DeltaView};
use crate::transport::{decimal, decimal_of};
use crate::turn::Anomaly;

verus! {

/// Which of the two turns of a conversation is running.
#[derive(Clone, Copy, Debug, PartialEq, Eq, Structural)]
pub enum TurnKind {
    /// The turn that answers the prompt.
    Answer,
    /// The turn that reviews the first answer.
    Review,
}

/// What is written for one delta.
#[derive(Clone, Debug, PartialEq, Eq)]
pub enum Output {
    /// Nothing is written.
    Nothing,
    /// Text for standard output.
    Answer(String),
    /// A diagnostic, which is kept off standard output.
    Diagnostic(String),
}

/// An `Output` with its text as a sequence of characters.
pub ghost enum OutputView {
    Nothing,
    Answer(Seq<char>),
    Diagnostic(Seq<char>),
}

impl View for Output {
    type V = OutputView;

    open spec fn view(&self) -> OutputView {
        match self {
            Output::Nothing => OutputView::Nothing,
            Output::Answer(text) => OutputView::Answer(text@),
            Output::Diagnostic(text) => OutputView::Diagnostic(text@),
        }
    }
}

/// What is written for a delta: a fragment as it stands, a line feed as the
/// mark of the sentinel, a diagnostic for a malformed event, nothing for
/// an event without text.
pub open spec fn output_of(delta: DeltaView) -> OutputView {
    match delta {
        DeltaView::Fragment(text) => OutputView::Answer(text),
        DeltaView::Sentinel => OutputView::Answer("\n"@),
        DeltaView::ParseWarning => OutputView::Diagnostic(
            "an event held no valid JSON and was passed over"@,
        ),
        DeltaView::Empty => OutputView::Nothing,
    }
}

/// What is said of a stream that ended without the sentinel.
pub open spec fn anomaly_notice_of(anomaly: Anomaly) -> Seq<char> {
    match anomaly {
        Anomaly::MissingSentinel => "the stream ended without its end mark"@,
        Anomaly::TruncatedFrame(left) => "the stream ended inside an event; bytes dropped: "@
            + decimal_of(left as nat),
    }
}

/// The label that stands before the output of a turn.
pub fn label(kind: TurnKind) -> (text: &'static str)
    ensures
        text@ == match kind {
            TurnKind::Answer => "Answer:\n"@,
            TurnKind::Review => "Review:\n"@,
        },
{
    match kind {
        TurnKind::Answer => "Answer:\n",
        TurnKind::Review => "Review:\n",
    }
}

/// What is written for a delta, and where.
pub fn render(delta: &Delta) -> (output: Output)
    ensures
        output@ == output_of(delta@),
{
    match delta {
        Delta::Fragment(text) => Output::Answer(text.clone()),
        Delta::Sentinel => Output::Answer(String::from_str("\n")),
        Delta::ParseWarning => Output::Diagnostic(
            String::from_str("an event held no valid JSON and was passed over"),
        ),
        Delta::Empty => Output::Nothing,
    }
}

/// What is said of a stream that ended without the sentinel.
pub fn anomaly_notice(anomaly: Anomaly) -> (text: String)
    ensures
        text@ == anomaly_notice_of(anomaly),
{
    match anomaly {
        Anomaly::MissingSentinel => String::from_str("the stream ended without its end mark"),
        Anomaly::TruncatedFrame(left) => {
            let mut text = String::from_str("the stream ended inside an event; bytes dropped: ");
            let number = decimal(left as u64);
            text.append(number.as_str());
            text
        },
    }
}

/// What is said where a review was asked for and the first turn left no
/// text to review.
pub fn review_skipped_notice() -> (text: &'static str)
    ensures
        text@ == "No response captured for review step."@,
{
    "No response captured for review step."
}

} // verus!
