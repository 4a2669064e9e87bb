//! The state of one turn of the conversation, and how events move it on.

use vstd::prelude::*;
use vstd::string::*;
use crate::delta::{
    deltas_of_payloads, deltas_until_done, ends_with_sentinel, fragment_text, text_of, Delta,
    DeltaView,
};
use crate::frame::{delimiter_from, frames_of, rest_of, StreamBuffer};
use crate::payload::{all_payloads, payloads_of_frames};
use crate::text::views;
use crate::transport::{is_success, status_is_success, TransportError, TransportErrorView};

verus! {

/// Where a turn stands.
#[derive(Clone, Copy, Debug, PartialEq, Eq, Structural)]
pub enum Phase {
    /// The request is built; no response has been seen.
    Starting,
    /// The response is being read.
    Streaming,
    /// The stream is complete, by the sentinel or by its end.
    Done,
    /// The transport failed.
    Failed,
}

/// What the driver of a turn does next.
#[derive(Clone, Copy, Debug, PartialEq, Eq, Structural)]
pub enum Next {
    /// Wait for the next chunk of the response body.
    ReadChunk,
    /// Read the whole response body as the text of the rejection.
    ReadErrorBody,
    /// Nothing is left to read.
    Stop,
}

/// What was amiss when a stream ended without the sentinel.
#[derive(Clone, Copy, Debug, PartialEq, Eq, Structural)]
pub enum Anomaly {
    /// The stream ended between frames.
    MissingSentinel,
    /// The stream ended inside a frame of which so many bytes had arrived.
    TruncatedFrame(usize),
}

/// A turn as the contracts see it.
#[verifier::ext_equal]
pub ghost struct TurnView {
    pub phase: Phase,
    pub buffer: Seq<u8>,
    pub capture: bool,
    pub captured: Seq<char>,
    pub emitted: Seq<DeltaView>,
}

impl TurnView {
    /// The buffer holds no complete frame, and none at all outside streaming;
    /// nothing is emitted before streaming; the captured text is the text of
    /// what was emitted.
    pub open spec fn wf(self) -> bool {
        &&& delimiter_from(self.buffer, 0) is None
        &&& self.phase != Phase::Streaming ==> self.buffer.len() == 0
        &&& self.phase == Phase::Starting ==> self.emitted.len() == 0
        &&& self.captured == if self.capture {
            text_of(self.emitted)
        } else {
            Seq::<char>::empty()
        }
    }
}

/// A fresh turn.
pub open spec fn started(capture: bool) -> TurnView {
    TurnView {
        phase: Phase::Starting,
        buffer: Seq::empty(),
        capture,
        captured: Seq::empty(),
        emitted: Seq::empty(),
    }
}

/// The turn after the status of the response was seen.
pub open spec fn answered(turn: TurnView, status: u16) -> TurnView {
    if turn.phase != Phase::Starting {
        turn
    } else if status_is_success(status) {
        TurnView { phase: Phase::Streaming, ..turn }
    } else {
        TurnView { phase: Phase::Failed, ..turn }
    }
}

/// The deltas that a chunk brings out of a turn.
pub open spec fn fed_output(turn: TurnView, chunk: Seq<u8>) -> Seq<DeltaView> {
    if turn.phase == Phase::Streaming {
        deltas_until_done(all_payloads(frames_of(turn.buffer + chunk)))
    } else {
        Seq::empty()
    }
}

/// The turn after a chunk. Outside streaming a chunk changes nothing.
pub open spec fn fed(turn: TurnView, chunk: Seq<u8>) -> TurnView {
    if turn.phase == Phase::Streaming {
        let deltas = fed_output(turn, chunk);
        let done = ends_with_sentinel(deltas);
        TurnView {
            phase: if done {
                Phase::Done
            } else {
                Phase::Streaming
            },
            buffer: if done {
                Seq::empty()
            } else {
                rest_of(turn.buffer + chunk)
            },
            capture: turn.capture,
            captured: if turn.capture {
                turn.captured + text_of(deltas)
            } else {
                turn.captured
            },
            emitted: turn.emitted + deltas,
        }
    } else {
        turn
    }
}

/// The turn after the stream ended.
pub open spec fn ended(turn: TurnView) -> TurnView {
    if turn.phase == Phase::Streaming {
        TurnView { phase: Phase::Done, buffer: Seq::empty(), ..turn }
    } else {
        turn
    }
}

/// What was amiss at the end of the stream.
pub open spec fn anomaly_at_end(turn: TurnView) -> Option<Anomaly> {
    if turn.phase != Phase::Streaming {
        None
    } else if turn.buffer.len() == 0 {
        Some(Anomaly::MissingSentinel)
    } else {
        Some(Anomaly::TruncatedFrame(turn.buffer.len() as usize))
    }
}

/// The turn after the transport failed.
pub open spec fn failed(turn: TurnView) -> TurnView {
    if turn.phase == Phase::Starting || turn.phase == Phase::Streaming {
        TurnView { phase: Phase::Failed, buffer: Seq::empty(), ..turn }
    } else {
        turn
    }
}

/// The turn after a run of chunks, one after the other.
pub open spec fn fed_all(turn: TurnView, chunks: Seq<Seq<u8>>) -> TurnView
    decreases chunks.len(),
{
    if chunks.len() == 0 {
        turn
    } else {
        fed_all(fed(turn, chunks.first()), chunks.drop_first())
    }
}

/// The bytes of a run of chunks, joined in order.
pub open spec fn joined(chunks: Seq<Seq<u8>>) -> Seq<u8>
    decreases chunks.len(),
{
    if chunks.len() == 0 {
        Seq::empty()
    } else {
        chunks.first() + joined(chunks.drop_first())
    }
}

/// What a finished turn leaves behind: the whole answer where it was captured.
#[derive(Clone, Debug, PartialEq, Eq)]
pub struct TurnResult {
    pub captured: Option<String>,
}

/// A `TurnResult` with its text as a sequence of characters.
pub ghost struct TurnResultView {
    pub captured: Option<Seq<char>>,
}

impl View for TurnResult {
    type V = TurnResultView;

    open spec fn view(&self) -> TurnResultView {
        TurnResultView {
            captured: match self.captured {
                Some(text) => Some(text@),
                None => None,
            },
        }
    }
}

/// What a turn that is done leaves behind.
pub open spec fn result_of(turn: TurnView) -> Option<TurnResultView> {
    if turn.phase == Phase::Done {
        Some(
            TurnResultView {
                captured: if turn.capture {
                    Some(turn.captured)
                } else {
                    None
                },
            },
        )
    } else {
        None
    }
}

/// One turn: the bytes held back, the phase, and the answer so far.
pub struct Turn {
    phase: Phase,
    buffer: StreamBuffer,
    capture: bool,
    captured: String,
    emitted: Ghost<Seq<DeltaView>>,
}

impl View for Turn {
    type V = TurnView;

    closed spec fn view(&self) -> TurnView {
        TurnView {
            phase: self.phase,
            buffer: self.buffer@,
            capture: self.capture,
            captured: self.captured@,
            emitted: self.emitted@,
        }
    }
}

impl Turn {
    /// What holds of every turn between two calls.
    pub open spec fn wf(&self) -> bool {
        self@.wf()
    }

    /// A turn that has not seen its response yet.
    pub fn new(capture: bool) -> (turn: Turn)
        ensures
            turn@ == started(capture),
            turn.wf(),
    {
        let turn = Turn {
            phase: Phase::Starting,
            buffer: StreamBuffer::new(),
            capture,
            captured: String::new(),
            emitted: Ghost(Seq::empty()),
        };
        assert(text_of(Seq::<DeltaView>::empty()) =~= Seq::<char>::empty());
        turn
    }

    /// Where the turn stands.
    pub fn phase(&self) -> (phase: Phase)
        ensures
            phase == self@.phase,
    {
        self.phase
    }

    /// Whether the answer is captured.
    pub fn captures(&self) -> (capture: bool)
        ensures
            capture == self@.capture,
    {
        self.capture
    }

    /// Takes the status of the response. A status of the success class opens
    /// the stream; any other fails the turn, and the body is the text of the
    /// rejection. Once past the start, a status changes nothing.
    pub fn on_status(&mut self, status: u16) -> (next: Next)
        requires
            old(self).wf(),
        ensures
            final(self)@ == answered(old(self)@, status),
            final(self).wf(),
            next == if old(self)@.phase != Phase::Starting {
                Next::Stop
            } else if status_is_success(status) {
                Next::ReadChunk
            } else {
                Next::ReadErrorBody
            },
    {
        match self.phase {
            Phase::Starting => {
                if is_success(status) {
                    self.phase = Phase::Streaming;
                    Next::ReadChunk
                } else {
                    self.phase = Phase::Failed;
                    Next::ReadErrorBody
                }
            },
            _ => Next::Stop,
        }
    }

    /// Takes a chunk of the response body and hands out the deltas that it
    /// completes, in order, up to and including the sentinel. With the
    /// sentinel the turn is done and what was held back is dropped. A turn
    /// that is not streaming takes nothing and hands out nothing.
    pub fn feed(&mut self, chunk: &[u8]) -> (deltas: Vec<Delta>)
        requires
            old(self).wf(),
        ensures
            final(self)@ == fed(old(self)@, chunk@),
            views(deltas@) == fed_output(old(self)@, chunk@),
            final(self).wf(),
    {
        match self.phase {
            Phase::Streaming => {
                let frames = self.buffer.absorb(chunk);
                let payloads = payloads_of_frames(&frames);
                let deltas = deltas_of_payloads(&payloads);
                let n: usize = deltas.len();
                let done: bool = n > 0 && matches!(deltas[n - 1], Delta::Sentinel);
                assert(done == ends_with_sentinel(views(deltas@)));
                if self.capture {
                    let text = fragment_text(&deltas);
                    self.captured.append(text.as_str());
                }
                if done {
                    self.phase = Phase::Done;
                    self.buffer.clear();
                }
                proof {
                    lemma_text_append(old(self)@.emitted, views(deltas@));
                }
                self.emitted = Ghost(self.emitted@ + views(deltas@));
                assert(self@ =~= fed(old(self)@, chunk@));
                deltas
            },
            _ => {
                let deltas: Vec<Delta> = Vec::new();
                assert(views(deltas@) =~= Seq::<DeltaView>::empty());
                deltas
            },
        }
    }

    /// Takes the end of the stream. A streaming turn is done, and the result
    /// says whether the stream ended between frames or inside one; what was
    /// held back is dropped. Any other turn stays as it is.
    pub fn on_end(&mut self) -> (anomaly: Option<Anomaly>)
        requires
            old(self).wf(),
        ensures
            final(self)@ == ended(old(self)@),
            anomaly == anomaly_at_end(old(self)@),
            final(self).wf(),
    {
        match self.phase {
            Phase::Streaming => {
                let left: usize = self.buffer.len();
                self.phase = Phase::Done;
                self.buffer.clear();
                assert(self@ =~= ended(old(self)@));
                if left == 0 {
                    Some(Anomaly::MissingSentinel)
                } else {
                    Some(Anomaly::TruncatedFrame(left))
                }
            },
            _ => None,
        }
    }

    /// Takes a failure of the transport. A turn that is not over has failed;
    /// what it emitted stands.
    pub fn fail(&mut self)
        requires
            old(self).wf(),
        ensures
            final(self)@ == failed(old(self)@),
            final(self).wf(),
    {
        match self.phase {
            Phase::Starting | Phase::Streaming => {
                self.phase = Phase::Failed;
                self.buffer.clear();
                assert(self@ =~= failed(old(self)@));
            },
            _ => {},
        }
    }

    /// Takes a failure of the network, with what is known of it, and hands
    /// out the error that ends the turn. The turn has failed unless it was
    /// over already.
    pub fn on_io_failure(&mut self, detail: &str) -> (error: TransportError)
        requires
            old(self).wf(),
        ensures
            final(self)@ == failed(old(self)@),
            final(self).wf(),
            error@ == TransportErrorView::Io(detail@),
    {
        self.fail();
        TransportError::Io(String::from_str(detail))
    }

    /// What the turn leaves behind, once it is done: the whole answer where
    /// it was captured. A turn that is not done leaves nothing.
    pub fn into_result(self) -> (result: Option<TurnResult>)
        ensures
            match result {
                Some(r) => result_of(self@) == Some(r@),
                None => result_of(self@) is None,
            },
    {
        match self.phase {
            Phase::Done => {
                if self.capture {
                    Some(TurnResult { captured: Some(self.captured) })
                } else {
                    Some(TurnResult { captured: None })
                }
            },
            _ => None,
        }
    }
}

/// The text of two runs of deltas is the text of the first followed by that
/// of the second.
pub proof fn lemma_text_append(a: Seq<DeltaView>, b: Seq<DeltaView>)
    ensures
        text_of(a + b) == text_of(a) + text_of(b),
    decreases b.len(),
{
    if b.len() == 0 {
        assert(a + b =~= a);
        assert(text_of(a) + text_of(b) =~= text_of(a));
    } else {
        lemma_text_append(a, b.drop_last());
        assert((a + b).drop_last() =~= a + b.drop_last());
        assert((a + b).last() == b.last());
        assert(text_of(a + b) =~= text_of(a) + text_of(b));
    }
}

} // verus!
