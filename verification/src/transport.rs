//! How the transport can fail: which status is a rejection, and what an
//! error says.

use vstd::prelude::*;
use vstd::string::*;

verus! {

/// The lowest status of the success class.
pub const SUCCESS_FIRST: u16 = 200;

/// The highest status of the success class.
pub const SUCCESS_LAST: u16 = 299;

/// A failure of the transport. It ends the turn.
#[derive(Clone, Debug, PartialEq, Eq)]
pub enum TransportError {
    /// The server answered with a status outside the success class; `body`
    /// is the whole text of its answer.
    ServerRejected { status: u16, body: String },
    /// The network failed while the request was sent or the answer read.
    Io(String),
}

/// A `TransportError` with its text as a sequence of characters.
pub ghost enum TransportErrorView {
    ServerRejected { status: u16, body: Seq<char> },
    Io(Seq<char>),
}

impl View for TransportError {
    type V = TransportErrorView;

    open spec fn view(&self) -> TransportErrorView {
        match self {
            TransportError::ServerRejected { status, body } => TransportErrorView::ServerRejected {
                status: *status,
                body: body@,
            },
            TransportError::Io(detail) => TransportErrorView::Io(detail@),
        }
    }
}

/// Whether `status` is of the success class.
pub open spec fn status_is_success(status: u16) -> bool {
    SUCCESS_FIRST <= status <= SUCCESS_LAST
}

/// What the status of a response and its body mean for the turn: nothing
/// is wrong with a status of the success class, and any other is a rejection
/// that holds the status and the body.
pub open spec fn status_outcome(status: u16, body: Seq<char>) -> Result<(), TransportErrorView> {
    if status_is_success(status) {
        Ok(())
    } else {
        Err(TransportErrorView::ServerRejected { status, body })
    }
}

/// The character of the digit `d`.
pub open spec fn digit_of(d: nat) -> char {
    seq!['0', '1', '2', '3', '4', '5', '6', '7', '8', '9'][d as int]
}

/// `n` in decimal, without leading zeros.
pub open spec fn decimal_of(n: nat) -> Seq<char>
    decreases n,
{
    if n < 10 {
        seq![digit_of(n)]
    } else {
        decimal_of(n / 10).push(digit_of(n % 10))
    }
}

/// What an error says.
pub open spec fn message_of(error: TransportErrorView) -> Seq<char> {
    match error {
        TransportErrorView::ServerRejected { status, body } =>
            "server rejected the request with status "@ + decimal_of(status as nat) + ": "@ + body,
        TransportErrorView::Io(detail) => "transport failed: "@ + detail,
    }
}

/// The digit `d` as text.
fn digit_text(d: u64) -> (text: &'static str)
    requires
        d < 10,
    ensures
        text@ == seq![digit_of(d as nat)],
{
    proof {
        reveal_strlit("0");
        reveal_strlit("1");
        reveal_strlit("2");
        reveal_strlit("3");
        reveal_strlit("4");
        reveal_strlit("5");
        reveal_strlit("6");
        reveal_strlit("7");
        reveal_strlit("8");
        reveal_strlit("9");
    }
    let text = match d {
        0 => "0",
        1 => "1",
        2 => "2",
        3 => "3",
        4 => "4",
        5 => "5",
        6 => "6",
        7 => "7",
        8 => "8",
        _ => "9",
    };
    assert(text@ =~= seq![digit_of(d as nat)]);
    text
}

/// `n` in decimal, without leading zeros.
pub fn decimal(n: u64) -> (text: String)
    ensures
        text@ == decimal_of(n as nat),
    decreases n,
{
    if n < 10 {
        String::from_str(digit_text(n))
    } else {
        let mut text = decimal(n / 10);
        text.append(digit_text(n % 10));
        assert(text@ =~= decimal_of(n as nat));
        text
    }
}

/// Whether `status` is of the success class, 200 to 299.
pub fn is_success(status: u16) -> (success: bool)
    ensures
        success == status_is_success(status),
{
    SUCCESS_FIRST <= status && status <= SUCCESS_LAST
}

/// Classifies the status of a response: a status outside the success class
/// is a rejection, which holds the status and the whole body of the response.
pub fn check_status(status: u16, body: &str) -> (outcome: Result<(), TransportError>)
    ensures
        match outcome {
            Ok(_) => status_outcome(status, body@) == Ok::<(), TransportErrorView>(()),
            Err(e) => status_outcome(status, body@) == Err::<(), TransportErrorView>(e@),
        },
{
    if is_success(status) {
        Ok(())
    } else {
        Err(TransportError::ServerRejected { status, body: String::from_str(body) })
    }
}

impl TransportError {
    /// What the error says: for a rejection the status in decimal and the
    /// body, verbatim; for a failure of the network its detail.
    pub fn message(&self) -> (text: String)
        ensures
            text@ == message_of(self@),
    {
        match self {
            TransportError::ServerRejected { status, body } => {
                let mut text = String::from_str("server rejected the request with status ");
                let number = decimal(*status as u64);
                text.append(number.as_str());
                text.append(": ");
                text.append(body.as_str());
                text
            },
            TransportError::Io(detail) => {
                let mut text = String::from_str("transport failed: ");
                text.append(detail.as_str());
                text
            },
        }
    }
}

} // verus!
