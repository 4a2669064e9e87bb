//! Splitting a byte stream into frames that end in a blank line.

use vstd::prelude::*;
use vstd::slice::{slice_subrange, slice_to_vec};
use crate::text::views;

verus! {

/// The byte that ends a line.
pub const LINE_FEED: u8 = 10;

/// A blank line starts at `i`: two line feeds in a row.
pub open spec fn delimiter_at(s: Seq<u8>, i: int) -> bool {
    0 <= i && i + 1 < s.len() && s[i] == LINE_FEED && s[i + 1] == LINE_FEED
}

/// The first position at or after `from` where a blank line starts.
pub open spec fn delimiter_from(s: Seq<u8>, from: int) -> Option<int>
    decreases s.len() - from,
{
    if from < 0 || from + 1 >= s.len() {
        None
    } else if s[from] == LINE_FEED && s[from + 1] == LINE_FEED {
        Some(from)
    } else {
        delimiter_from(s, from + 1)
    }
}

/// The complete frames in `s` from `start` on, each with its delimiter.
pub open spec fn frames_from(s: Seq<u8>, start: int) -> Seq<Seq<u8>>
    decreases s.len() - start,
{
    let d = delimiter_from(s, start);
    if d is Some && start <= d.unwrap() && d.unwrap() + 2 <= s.len() {
        seq![s.subrange(start, d.unwrap() + 2)] + frames_from(s, d.unwrap() + 2)
    } else {
        Seq::empty()
    }
}

/// What follows the last complete frame in `s` from `start` on.
pub open spec fn rest_from(s: Seq<u8>, start: int) -> Seq<u8>
    decreases s.len() - start,
{
    let d = delimiter_from(s, start);
    if d is Some && start <= d.unwrap() && d.unwrap() + 2 <= s.len() {
        rest_from(s, d.unwrap() + 2)
    } else if 0 <= start <= s.len() {
        s.subrange(start, s.len() as int)
    } else {
        Seq::empty()
    }
}

/// The complete frames of `s`, in order.
pub open spec fn frames_of(s: Seq<u8>) -> Seq<Seq<u8>> {
    frames_from(s, 0)
}

/// The bytes of `s` that belong to no complete frame.
pub open spec fn rest_of(s: Seq<u8>) -> Seq<u8> {
    rest_from(s, 0)
}

/// Where `delimiter_from` finds a delimiter, it is the first at or after `from`;
/// where it finds none, there is none.
pub proof fn lemma_delimiter_from(s: Seq<u8>, from: int)
    requires
        0 <= from,
    ensures
        match delimiter_from(s, from) {
            Some(p) => from <= p && delimiter_at(s, p) && forall|j: int|
                from <= j < p ==> !delimiter_at(s, j),
            None => forall|j: int| from <= j ==> !delimiter_at(s, j),
        },
    decreases s.len() - from,
{
    if from + 1 < s.len() && !(s[from] == LINE_FEED && s[from + 1] == LINE_FEED) {
        lemma_delimiter_from(s, from + 1);
    }
}

/// A delimiter found in `a` is found at the same place when more bytes follow.
pub proof fn lemma_delimiter_survives_append(a: Seq<u8>, b: Seq<u8>, from: int)
    requires
        0 <= from,
        delimiter_from(a, from) is Some,
    ensures
        delimiter_from(a + b, from) == delimiter_from(a, from),
    decreases a.len() - from,
{
    if from + 1 < a.len() && !(a[from] == LINE_FEED && a[from + 1] == LINE_FEED) {
        lemma_delimiter_survives_append(a, b, from + 1);
    }
}

/// Searching from `from` in `s` is searching from the start of what follows `cut`.
pub proof fn lemma_delimiter_shift(s: Seq<u8>, cut: int, from: int)
    requires
        0 <= cut <= from,
        cut <= s.len(),
    ensures
        delimiter_from(s.subrange(cut, s.len() as int), from - cut) == match delimiter_from(
            s,
            from,
        ) {
            Some(p) => Some(p - cut),
            None => None,
        },
    decreases s.len() - from,
{
    let t = s.subrange(cut, s.len() as int);
    if from + 1 < s.len() && !(s[from] == LINE_FEED && s[from + 1] == LINE_FEED) {
        lemma_delimiter_shift(s, cut, from + 1);
    }
}

/// The frames and the rest from `start` on depend only on the bytes from `start` on.
pub proof fn lemma_frames_shift(s: Seq<u8>, start: int)
    requires
        0 <= start <= s.len(),
    ensures
        frames_from(s, start) == frames_of(s.subrange(start, s.len() as int)),
        rest_from(s, start) == rest_of(s.subrange(start, s.len() as int)),
    decreases s.len() - start,
{
    let t = s.subrange(start, s.len() as int);
    lemma_delimiter_shift(s, start, start);
    lemma_delimiter_from(s, start);
    match delimiter_from(s, start) {
        Some(p) => {
            let q = p - start;
            lemma_frames_shift(s, p + 2);
            lemma_frames_shift(t, q + 2);
            assert(t.subrange(q + 2, t.len() as int) =~= s.subrange(p + 2, s.len() as int));
            assert(t.subrange(0, q + 2) =~= s.subrange(start, p + 2));
        },
        None => {
            assert(t.subrange(0, t.len() as int) =~= t);
        },
    }
}

/// Frames that are complete in `a` come out the same when `b` follows, and
/// the rest of `a` joined with `b` yields the frames that remain.
pub proof fn lemma_frames_append(a: Seq<u8>, b: Seq<u8>, start: int)
    requires
        0 <= start <= a.len(),
    ensures
        frames_from(a + b, start) == frames_from(a, start) + frames_of(rest_from(a, start) + b),
        rest_from(a + b, start) == rest_of(rest_from(a, start) + b),
    decreases a.len() - start,
{
    lemma_delimiter_from(a, start);
    match delimiter_from(a, start) {
        Some(p) => {
            lemma_delimiter_survives_append(a, b, start);
            lemma_frames_append(a, b, p + 2);
            assert((a + b).subrange(start, p + 2) =~= a.subrange(start, p + 2));
            assert(frames_from(a + b, start) =~= frames_from(a, start) + frames_of(
                rest_from(a, start) + b,
            ));
        },
        None => {
            lemma_frames_shift(a + b, start);
            assert((a + b).subrange(start, (a + b).len() as int) =~= a.subrange(
                start,
                a.len() as int,
            ) + b);
            assert(frames_from(a, start) + frames_of(rest_from(a, start) + b) =~= frames_of(
                rest_from(a, start) + b,
            ));
        },
    }
}

/// The rest holds no complete frame.
pub proof fn lemma_rest_has_no_frame(s: Seq<u8>, start: int)
    requires
        0 <= start <= s.len(),
    ensures
        delimiter_from(rest_from(s, start), 0) is None,
    decreases s.len() - start,
{
    lemma_delimiter_from(s, start);
    match delimiter_from(s, start) {
        Some(p) => {
            lemma_rest_has_no_frame(s, p + 2);
        },
        None => {
            lemma_delimiter_shift(s, start, start);
        },
    }
}

/// The first position at or after `from` where a blank line starts in `bytes`.
pub fn find_delimiter(bytes: &[u8], from: usize) -> (found: Option<usize>)
    ensures
        match found {
            Some(p) => delimiter_from(bytes@, from as int) == Some(p as int),
            None => delimiter_from(bytes@, from as int) is None,
        },
{
    let n: usize = bytes.len();
    let mut i: usize = from;
    while i < n && n - i >= 2
        invariant
            from <= i,
            n == bytes@.len(),
            delimiter_from(bytes@, i as int) == delimiter_from(bytes@, from as int),
        decreases n - i,
    {
        if bytes[i] == LINE_FEED && bytes[i + 1] == LINE_FEED {
            return Some(i);
        }
        i += 1;
    }
    None
}

/// The bytes of a turn that have arrived and belong to no complete frame yet.
pub struct StreamBuffer {
    bytes: Vec<u8>,
}

impl View for StreamBuffer {
    type V = Seq<u8>;

    closed spec fn view(&self) -> Seq<u8> {
        self.bytes@
    }
}

impl StreamBuffer {
    /// Between two calls the buffer holds at most one frame, and that one incomplete.
    pub open spec fn wf(&self) -> bool {
        delimiter_from(self@, 0) is None
    }

    /// An empty buffer.
    pub fn new() -> (buffer: StreamBuffer)
        ensures
            buffer@ == Seq::<u8>::empty(),
            buffer.wf(),
    {
        StreamBuffer { bytes: Vec::new() }
    }

    /// The number of bytes held back.
    pub fn len(&self) -> (n: usize)
        ensures
            n == self@.len(),
    {
        self.bytes.len()
    }

    /// Drops what is held back.
    pub fn clear(&mut self)
        ensures
            final(self)@ == Seq::<u8>::empty(),
            final(self).wf(),
    {
        self.bytes = Vec::new();
    }

    /// Takes in `chunk` and hands out the frames that it completes, in order,
    /// each with its delimiter. What follows the last delimiter stays behind.
    pub fn absorb(&mut self, chunk: &[u8]) -> (frames: Vec<Vec<u8>>)
        ensures
            views(frames@) == frames_of(old(self)@ + chunk@),
            final(self)@ == rest_of(old(self)@ + chunk@),
            final(self).wf(),
    {
        let mut all: Vec<u8> = Vec::new();
        core::mem::swap(&mut all, &mut self.bytes);
        let mut k: usize = 0;
        while k < chunk.len()
            invariant
                k <= chunk@.len(),
                all@ == old(self)@ + chunk@.subrange(0, k as int),
            decreases chunk@.len() - k,
        {
            all.push(chunk[k]);
            assert(all@ =~= old(self)@ + chunk@.subrange(0, k + 1));
            k += 1;
        }
        assert(all@ =~= old(self)@ + chunk@);
        let mut frames: Vec<Vec<u8>> = Vec::new();
        let mut start: usize = 0;
        loop
            invariant
                start <= all@.len(),
                all@ == old(self)@ + chunk@,
                frames_of(all@) == views(frames@) + frames_from(all@, start as int),
                rest_of(all@) == rest_from(all@, start as int),
            ensures
                delimiter_from(all@, start as int) is None,
            decreases all@.len() - start,
        {
            proof {
                lemma_delimiter_from(all@, start as int);
            }
            let found = find_delimiter(all.as_slice(), start);
            match found {
                Some(p) => {
                    assert(delimiter_at(all@, p as int));
                    assert(p + 2 <= all.len());
                    let frame = slice_to_vec(slice_subrange(all.as_slice(), start, p + 2));
                    let ghost before = views(frames@);
                    frames.push(frame);
                    assert(views(frames@) =~= before.push(frame@));
                    assert(views(frames@) + frames_from(all@, p + 2) =~= before + frames_from(
                        all@,
                        start as int,
                    ));
                    start = p + 2;
                },
                None => {
                    break;
                },
            }
        }
        self.bytes = slice_to_vec(slice_subrange(all.as_slice(), start, all.len()));
        proof {
            lemma_rest_has_no_frame(all@, 0);
            assert(views(frames@) + frames_from(all@, start as int) =~= views(frames@));
        }
        frames
    }
}

} // verus!
