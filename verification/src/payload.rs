//! From a frame's bytes to the data payloads that its lines carry.

use vstd::prelude::*;
use vstd::slice::{slice_subrange, slice_to_vec};
use crate::text::{chars_of, views};

verus! {

/// The first byte of a frame that is a comment.
pub const COMMENT_MARK: u8 = 58;

/// The text that `String::from_utf8_lossy` makes of `bytes`: the characters
/// that the bytes encode, with U+FFFD in place of each malformed sequence.
pub uninterp spec fn utf8_lossy(bytes: Seq<u8>) -> Seq<char>;

/// What a data line starts with.
pub open spec fn data_prefix() -> Seq<char> {
    seq!['d', 'a', 't', 'a', ':', ' ']
}

/// A frame carries data unless it is nothing but its delimiter or starts
/// with the comment mark.
pub open spec fn carries_data(frame: Seq<u8>) -> bool {
    frame.len() > 2 && frame[0] != COMMENT_MARK
}

/// The position of the first line feed at or after `from`, or the length of
/// the text where there is none.
pub open spec fn newline_from(text: Seq<char>, from: int) -> int
    decreases text.len() - from,
{
    if from < 0 || from >= text.len() {
        text.len() as int
    } else if text[from] == '\n' {
        from
    } else {
        newline_from(text, from + 1)
    }
}

/// The line between `start` and the line feed at `end`, without the carriage
/// return that may stand before the line feed.
pub open spec fn terminated_line(text: Seq<char>, start: int, end: int) -> Seq<char> {
    if start < end && text[end - 1] == '\r' {
        text.subrange(start, end - 1)
    } else {
        text.subrange(start, end)
    }
}

/// The lines of `text` from `start` on. A line ends at a line feed, or at a
/// carriage return followed by one; the last line may end with the text.
pub open spec fn lines_from(text: Seq<char>, start: int) -> Seq<Seq<char>>
    decreases text.len() - start,
{
    if start < 0 || start >= text.len() {
        Seq::empty()
    } else {
        let end = newline_from(text, start);
        if start <= end < text.len() {
            seq![terminated_line(text, start, end)] + lines_from(text, end + 1)
        } else {
            seq![text.subrange(start, text.len() as int)]
        }
    }
}

/// The lines of `text`, in order.
pub open spec fn lines_of(text: Seq<char>) -> Seq<Seq<char>> {
    lines_from(text, 0)
}

/// What follows the data prefix, for a line that starts with it.
pub open spec fn data_payload_of(line: Seq<char>) -> Option<Seq<char>> {
    if line.len() >= 6 && line.subrange(0, 6) == data_prefix() {
        Some(line.subrange(6, line.len() as int))
    } else {
        None
    }
}

/// The payloads of the data lines among `lines`, in order.
pub open spec fn payloads_of(lines: Seq<Seq<char>>) -> Seq<Seq<char>>
    decreases lines.len(),
{
    if lines.len() == 0 {
        Seq::empty()
    } else {
        let before = payloads_of(lines.drop_last());
        match data_payload_of(lines.last()) {
            Some(payload) => before.push(payload),
            None => before,
        }
    }
}

/// The payloads that one frame carries.
pub open spec fn frame_payloads_of(frame: Seq<u8>) -> Seq<Seq<char>> {
    if carries_data(frame) {
        payloads_of(lines_of(utf8_lossy(frame)))
    } else {
        Seq::empty()
    }
}

/// The payloads that a run of frames carries, frame after frame.
pub open spec fn all_payloads(frames: Seq<Seq<u8>>) -> Seq<Seq<char>>
    decreases frames.len(),
{
    if frames.len() == 0 {
        Seq::empty()
    } else {
        all_payloads(frames.drop_last()) + frame_payloads_of(frames.last())
    }
}

/// The payloads of two runs of frames are those of the first run followed by
/// those of the second.
pub proof fn lemma_all_payloads_append(a: Seq<Seq<u8>>, b: Seq<Seq<u8>>)
    ensures
        all_payloads(a + b) == all_payloads(a) + all_payloads(b),
    decreases b.len(),
{
    if b.len() == 0 {
        assert(a + b =~= a);
        assert(all_payloads(a) + all_payloads(b) =~= all_payloads(a));
    } else {
        lemma_all_payloads_append(a, b.drop_last());
        assert((a + b).drop_last() =~= a + b.drop_last());
        assert((a + b).last() == b.last());
        assert(all_payloads(a + b) =~= all_payloads(a) + all_payloads(b));
    }
}

/// Calls `String::from_utf8_lossy`. The text depends on the bytes alone.
#[verifier::external_body]
fn decode_lossy(bytes: &[u8]) -> (text: String)
    ensures
        text@ == utf8_lossy(bytes@),
{
    String::from_utf8_lossy(bytes).into_owned()
}

/// The position of the first line feed at or after `from`.
pub fn find_newline(text: &[char], from: usize) -> (end: usize)
    ensures
        end == newline_from(text@, from as int),
        from <= end || end == text@.len(),
        end <= text@.len(),
{
    let n: usize = text.len();
    let mut i: usize = from;
    while i < n
        invariant
            from <= i,
            n == text@.len(),
            newline_from(text@, i as int) == newline_from(text@, from as int),
        decreases n - i,
    {
        if text[i] == '\n' {
            return i;
        }
        i += 1;
    }
    n
}

/// Splits `text` into its lines, without their line endings.
pub fn split_lines(text: &[char]) -> (lines: Vec<Vec<char>>)
    ensures
        views(lines@) == lines_of(text@),
{
    let n: usize = text.len();
    let mut lines: Vec<Vec<char>> = Vec::new();
    let mut start: usize = 0;
    while start < n
        invariant
            n == text@.len(),
            start <= n,
            lines_of(text@) == views(lines@) + lines_from(text@, start as int),
        decreases n - start,
    {
        let end = find_newline(text, start);
        let ghost before = views(lines@);
        if end < n {
            let stop: usize = if start < end && text[end - 1] == '\r' {
                end - 1
            } else {
                end
            };
            let line = slice_to_vec(slice_subrange(text, start, stop));
            lines.push(line);
            assert(views(lines@) =~= before.push(line@));
            assert(views(lines@) + lines_from(text@, end + 1) =~= before + lines_from(
                text@,
                start as int,
            ));
            start = end + 1;
        } else {
            let line = slice_to_vec(slice_subrange(text, start, n));
            lines.push(line);
            assert(views(lines@) =~= before.push(line@));
            assert(views(lines@) + lines_from(text@, n as int) =~= before + lines_from(
                text@,
                start as int,
            ));
            start = n;
        }
    }
    assert(views(lines@) + lines_from(text@, start as int) =~= views(lines@));
    lines
}

/// What follows `data: ` in a line that starts with it.
pub fn data_payload(line: &[char]) -> (payload: Option<Vec<char>>)
    ensures
        match payload {
            Some(p) => data_payload_of(line@) == Some(p@),
            None => data_payload_of(line@) is None,
        },
{
    if line.len() >= 6 && line[0] == 'd' && line[1] == 'a' && line[2] == 't' && line[3] == 'a'
        && line[4] == ':' && line[5] == ' ' {
        assert(line@.subrange(0, 6) =~= data_prefix());
        Some(slice_to_vec(slice_subrange(line, 6, line.len())))
    } else {
        assert(line@.len() >= 6 ==> line@.subrange(0, 6)[0] == line@[0] && line@.subrange(0, 6)[1]
            == line@[1] && line@.subrange(0, 6)[2] == line@[2] && line@.subrange(0, 6)[3]
            == line@[3] && line@.subrange(0, 6)[4] == line@[4] && line@.subrange(0, 6)[5]
            == line@[5]);
        None
    }
}

/// The payloads that the data lines of one frame carry, in order. A frame
/// that is only its delimiter, or that starts with a colon, carries none.
pub fn frame_payloads(frame: &[u8]) -> (payloads: Vec<Vec<char>>)
    ensures
        views(payloads@) == frame_payloads_of(frame@),
{
    let mut payloads: Vec<Vec<char>> = Vec::new();
    if frame.len() > 2 && frame[0] != COMMENT_MARK {
        let text = chars_of(decode_lossy(frame).as_str());
        let lines = split_lines(text.as_slice());
        let mut i: usize = 0;
        assert(views(lines@).take(0) =~= Seq::<Seq<char>>::empty());
        assert(views(payloads@) =~= Seq::<Seq<char>>::empty());
        while i < lines.len()
            invariant
                i <= lines@.len(),
                views(payloads@) == payloads_of(views(lines@).take(i as int)),
            decreases lines@.len() - i,
        {
            let ghost before = views(payloads@);
            assert(views(lines@).take(i + 1).drop_last() =~= views(lines@).take(i as int));
            assert(views(lines@).take(i + 1).last() == lines@[i as int]@);
            match data_payload(lines[i].as_slice()) {
                Some(p) => {
                    payloads.push(p);
                    assert(views(payloads@) =~= before.push(p@));
                },
                None => {},
            }
            i += 1;
        }
        assert(views(lines@).take(i as int) =~= views(lines@));
    } else {
        assert(views(payloads@) =~= Seq::<Seq<char>>::empty());
    }
    payloads
}

/// The payloads that a run of frames carries, frame after frame.
pub fn payloads_of_frames(frames: &Vec<Vec<u8>>) -> (payloads: Vec<Vec<char>>)
    ensures
        views(payloads@) == all_payloads(views(frames@)),
{
    let mut payloads: Vec<Vec<char>> = Vec::new();
    let mut i: usize = 0;
    assert(views(frames@).take(0) =~= Seq::<Seq<u8>>::empty());
    assert(views(payloads@) =~= Seq::<Seq<char>>::empty());
    while i < frames.len()
        invariant
            i <= frames@.len(),
            views(payloads@) == all_payloads(views(frames@).take(i as int)),
        decreases frames@.len() - i,
    {
        let ghost before = views(payloads@);
        assert(views(frames@).take(i + 1).drop_last() =~= views(frames@).take(i as int));
        assert(views(frames@).take(i + 1).last() == frames@[i as int]@);
        let mut found = frame_payloads(frames[i].as_slice());
        let ghost added = views(found@);
        payloads.append(&mut found);
        assert(views(payloads@) =~= before + added);
        i += 1;
    }
    assert(views(frames@).take(i as int) =~= views(frames@));
    payloads
}

} // verus!
