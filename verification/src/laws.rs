//! What holds of a turn whatever the network does: how the stream is cut
//! into chunks does not matter, the captured text is the text that was
//! emitted, the sentinel ends the turn, a rejected request emits nothing, and
//! a malformed event stops nothing.

use vstd::prelude::*;
use crate::delta::{
    delta_of, deltas_until_done, drop_space, ends_with_sentinel, sentinel, skip_space, text_of,
    trimmed, white_space, DeltaView,
};
use crate::frame::{frames_of, lemma_frames_append, lemma_rest_has_no_frame, rest_of};
use crate::payload::{all_payloads, lemma_all_payloads_append};
use crate::turn::{
    answered, fed, fed_all, fed_output, joined, lemma_text_append, started, Phase, TurnView,
};
use crate::transport::status_is_success;

verus! {

/// The deltas of two runs of payloads are those of the first run and, unless
/// the first run ends the stream, those of the second after them.
pub proof fn lemma_deltas_append(a: Seq<Seq<char>>, b: Seq<Seq<char>>)
    ensures
        deltas_until_done(a + b) == if ends_with_sentinel(deltas_until_done(a)) {
            deltas_until_done(a)
        } else {
            deltas_until_done(a) + deltas_until_done(b)
        },
    decreases b.len(),
{
    if b.len() == 0 {
        assert(a + b =~= a);
        assert(deltas_until_done(a) + deltas_until_done(b) =~= deltas_until_done(a));
    } else {
        lemma_deltas_append(a, b.drop_last());
        assert((a + b).drop_last() =~= a + b.drop_last());
        assert((a + b).last() == b.last());
        let da = deltas_until_done(a);
        let db = deltas_until_done(b.drop_last());
        if !ends_with_sentinel(da) {
            assert(ends_with_sentinel(da + db) == ends_with_sentinel(db)) by {
                if db.len() == 0 {
                    assert(da + db =~= da);
                } else {
                    assert((da + db).last() == db.last());
                }
            }
            assert(deltas_until_done(a + b) =~= da + deltas_until_done(b));
        }
    }
}

/// Once a payload is the sentinel, the deltas end with the sentinel.
pub proof fn lemma_sentinel_is_reached(payloads: Seq<Seq<char>>, i: int)
    requires
        0 <= i < payloads.len(),
        delta_of(payloads[i]) is Sentinel,
    ensures
        ends_with_sentinel(deltas_until_done(payloads)),
    decreases payloads.len(),
{
    if i < payloads.len() - 1 {
        lemma_sentinel_is_reached(payloads.drop_last(), i);
    }
}

/// A chunk leaves a well-formed turn well-formed.
pub proof fn lemma_fed_keeps_wf(turn: TurnView, chunk: Seq<u8>)
    requires
        turn.wf(),
    ensures
        fed(turn, chunk).wf(),
{
    if turn.phase == Phase::Streaming {
        lemma_rest_has_no_frame(turn.buffer + chunk, 0);
        lemma_text_append(turn.emitted, fed_output(turn, chunk));
    }
}

/// Two chunks one after the other do what the two do as one chunk.
pub proof fn lemma_fed_twice(turn: TurnView, c: Seq<u8>, d: Seq<u8>)
    requires
        turn.wf(),
    ensures
        fed(fed(turn, c), d) == fed(turn, c + d),
{
    if turn.phase == Phase::Streaming {
        let first = turn.buffer + c;
        let rest = rest_of(first);
        lemma_frames_append(first, d, 0);
        assert(first + d =~= turn.buffer + (c + d));
        lemma_all_payloads_append(frames_of(first), frames_of(rest + d));
        let p1 = all_payloads(frames_of(first));
        let p2 = all_payloads(frames_of(rest + d));
        lemma_deltas_append(p1, p2);
        let d1 = deltas_until_done(p1);
        let d2 = deltas_until_done(p2);
        if ends_with_sentinel(d1) {
            assert(fed(fed(turn, c), d) =~= fed(turn, c + d));
        } else {
            lemma_text_append(d1, d2);
            assert(ends_with_sentinel(d1 + d2) == ends_with_sentinel(d2)) by {
                if d2.len() == 0 {
                    assert(d1 + d2 =~= d1);
                } else {
                    assert((d1 + d2).last() == d2.last());
                }
            }
            assert(fed(fed(turn, c), d) =~= fed(turn, c + d));
        }
    }
}

/// A chunk without bytes changes nothing.
pub proof fn lemma_fed_nothing(turn: TurnView)
    requires
        turn.wf(),
    ensures
        fed(turn, Seq::empty()) == turn,
{
    if turn.phase == Phase::Streaming {
        assert(turn.buffer + Seq::<u8>::empty() =~= turn.buffer);
        assert(turn.buffer.subrange(0, turn.buffer.len() as int) =~= turn.buffer);
        assert(fed(turn, Seq::empty()) =~= turn);
    }
}

/// A run of chunks does to a turn what their bytes do as one chunk, and
/// leaves it well-formed.
pub proof fn lemma_fed_all_is_fed_joined(turn: TurnView, chunks: Seq<Seq<u8>>)
    requires
        turn.wf(),
    ensures
        fed_all(turn, chunks) == fed(turn, joined(chunks)),
        fed_all(turn, chunks).wf(),
    decreases chunks.len(),
{
    if chunks.len() == 0 {
        lemma_fed_nothing(turn);
    } else {
        lemma_fed_keeps_wf(turn, chunks.first());
        lemma_fed_all_is_fed_joined(fed(turn, chunks.first()), chunks.drop_first());
        lemma_fed_twice(turn, chunks.first(), joined(chunks.drop_first()));
    }
}

/// However a stream of bytes is cut into chunks, the turn ends up the same:
/// the same deltas emitted in the same order, the same captured text, the
/// same phase, the same bytes held back.
pub proof fn chunking_is_irrelevant(turn: TurnView, one: Seq<Seq<u8>>, other: Seq<Seq<u8>>)
    requires
        turn.wf(),
        joined(one) == joined(other),
    ensures
        fed_all(turn, one) == fed_all(turn, other),
{
    lemma_fed_all_is_fed_joined(turn, one);
    lemma_fed_all_is_fed_joined(turn, other);
}

/// After any run of chunks, the text captured by a capturing turn is the
/// fragments that it emitted, joined in order.
pub proof fn captured_is_emitted_text(turn: TurnView, chunks: Seq<Seq<u8>>)
    requires
        turn.wf(),
        turn.capture,
    ensures
        fed_all(turn, chunks).capture,
        fed_all(turn, chunks).captured == text_of(fed_all(turn, chunks).emitted),
{
    lemma_fed_all_is_fed_joined(turn, chunks);
}

/// Nothing that was emitted is taken back or changed: what a turn has
/// emitted before a run of chunks stands at the start of what it has emitted
/// after it.
pub proof fn emitted_only_grows(turn: TurnView, chunks: Seq<Seq<u8>>)
    ensures
        turn.emitted.is_prefix_of(fed_all(turn, chunks).emitted),
    decreases chunks.len(),
{
    if chunks.len() > 0 {
        let next = fed(turn, chunks.first());
        emitted_only_grows(next, chunks.drop_first());
        assert(turn.emitted.is_prefix_of(next.emitted));
        let last = fed_all(turn, chunks).emitted;
        assert(turn.emitted =~= last.subrange(0, turn.emitted.len() as int)) by {
            assert(next.emitted == last.subrange(0, next.emitted.len() as int));
        }
    }
}

/// A turn that is not streaming takes no chunk.
pub proof fn idle_turn_ignores_chunks(turn: TurnView, chunks: Seq<Seq<u8>>)
    requires
        turn.phase != Phase::Streaming,
    ensures
        fed_all(turn, chunks) == turn,
    decreases chunks.len(),
{
    if chunks.len() > 0 {
        idle_turn_ignores_chunks(turn, chunks.drop_first());
    }
}

/// The text `[DONE]` is the sentinel.
pub proof fn done_text_is_sentinel()
    ensures
        delta_of(sentinel()) is Sentinel,
{
    let s = sentinel();
    assert(!white_space(s[0]));
    assert(!white_space(s[5]));
    assert(skip_space(s, 0) == 0);
    assert(drop_space(s, 0, 6) == 6);
    assert(trimmed(s) =~= s);
}

/// Where a chunk completes a payload that is the sentinel, the turn is done
/// with that chunk, and the chunks that follow change nothing and emit nothing.
pub proof fn sentinel_ends_turn(turn: TurnView, chunk: Seq<u8>, i: int, more: Seq<Seq<u8>>)
    requires
        turn.phase == Phase::Streaming,
        0 <= i < all_payloads(frames_of(turn.buffer + chunk)).len(),
        delta_of(all_payloads(frames_of(turn.buffer + chunk))[i]) is Sentinel,
    ensures
        fed(turn, chunk).phase == Phase::Done,
        fed_all(fed(turn, chunk), more) == fed(turn, chunk),
{
    lemma_sentinel_is_reached(all_payloads(frames_of(turn.buffer + chunk)), i);
    idle_turn_ignores_chunks(fed(turn, chunk), more);
}

/// A response whose status is not of the success class fails the turn, and
/// whatever bytes follow, nothing is emitted.
pub proof fn rejected_turn_emits_nothing(capture: bool, status: u16, chunks: Seq<Seq<u8>>)
    requires
        !status_is_success(status),
    ensures
        fed_all(answered(started(capture), status), chunks).phase == Phase::Failed,
        fed_all(answered(started(capture), status), chunks).emitted == Seq::<DeltaView>::empty(),
{
    idle_turn_ignores_chunks(answered(started(capture), status), chunks);
}

/// A payload that is no JSON document leaves a warning and nothing else: the
/// payloads after it are read as if it had not been there.
pub proof fn warning_stops_nothing(
    before: Seq<Seq<char>>,
    payload: Seq<char>,
    after: Seq<Seq<char>>,
)
    requires
        delta_of(payload) is ParseWarning,
        !ends_with_sentinel(deltas_until_done(before)),
    ensures
        deltas_until_done(before + seq![payload] + after) == deltas_until_done(before).push(
            DeltaView::ParseWarning,
        ) + deltas_until_done(after),
{
    let upto = before + seq![payload];
    assert(upto.drop_last() =~= before);
    assert(upto.last() == payload);
    lemma_deltas_append(upto, after);
}

} // verus!
