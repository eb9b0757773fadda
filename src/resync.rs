//! Recovery of marker-delimited report frames (`AA FF ... 55 CC`) from a byte
//! stream that arrives in arbitrary chunks.

use vstd::prelude::*;
use crate::frame::{append_bytes, copy_range};

verus! {

/// Once the buffer holds more than this many bytes with no complete frame in
/// it, only its most recent tail is kept.
pub const MAX_BUFFERED: usize = 300;

/// How many of the most recent bytes survive that truncation.
pub const KEPT_TAIL: usize = 150;

pub const START_0: u8 = 0xAA;
pub const START_1: u8 = 0xFF;
pub const END_0: u8 = 0x55;
pub const END_1: u8 = 0xCC;

/// The first index `i >= from` at which `a, b` stand at `i, i + 1`.
pub open spec fn find_marker(s: Seq<u8>, a: u8, b: u8, from: int) -> Option<int>
    decreases s.len() - from,
{
    if from < 0 || from + 1 >= s.len() {
        None
    } else if s[from] == a && s[from + 1] == b {
        Some(from)
    } else {
        find_marker(s, a, b, from + 1)
    }
}

/// Where the first complete frame of `s` starts, and where it ends
/// (exclusive): the first start marker, then the first end marker after it.
pub open spec fn next_frame_span(s: Seq<u8>) -> Option<(int, int)> {
    match find_marker(s, START_0, START_1, 0) {
        None => None,
        Some(st) => match find_marker(s, END_0, END_1, st + 2) {
            None => None,
            Some(e) => Some((st, e + 2)),
        },
    }
}

/// The last frame that repeated scanning finds in `s`, with what follows it.
pub open spec fn latest_frame(s: Seq<u8>) -> Option<(Seq<u8>, Seq<u8>)>
    decreases s.len(),
{
    match next_frame_span(s) {
        None => None,
        Some((st, en)) => {
            proof {
                lemma_next_frame_span(s);
            }
            let rest = s.subrange(en, s.len() as int);
            match latest_frame(rest) {
                None => Some((s.subrange(st, en), rest)),
                Some(later) => Some(later),
            }
        },
    }
}

/// Every frame that repeated scanning finds in `s`, oldest first.
pub open spec fn all_frames(s: Seq<u8>) -> Seq<Seq<u8>>
    decreases s.len(),
{
    match next_frame_span(s) {
        None => Seq::empty(),
        Some((st, en)) => {
            proof {
                lemma_next_frame_span(s);
            }
            seq![s.subrange(st, en)] + all_frames(s.subrange(en, s.len() as int))
        },
    }
}

/// The buffer kept after a scan that found no frame.
pub open spec fn capped(s: Seq<u8>) -> Seq<u8> {
    if s.len() > MAX_BUFFERED {
        s.subrange(s.len() - KEPT_TAIL, s.len() as int)
    } else {
        s
    }
}

/// The buffer after feeding each chunk in turn.
pub open spec fn feed_all(start: Seq<u8>, chunks: Seq<Seq<u8>>) -> Seq<u8>
    decreases chunks.len(),
{
    if chunks.len() == 0 {
        start
    } else {
        feed_all(start + chunks[0], chunks.drop_first())
    }
}

pub proof fn lemma_find_marker(s: Seq<u8>, a: u8, b: u8, from: int)
    requires
        0 <= from,
    ensures
        match find_marker(s, a, b, from) {
            Some(i) => from <= i && i + 1 < s.len() && s[i] == a && s[i + 1] == b,
            None => true,
        },
    decreases s.len() - from,
{
    if from + 1 < s.len() && !(s[from] == a && s[from + 1] == b) {
        lemma_find_marker(s, a, b, from + 1);
    }
}

pub proof fn lemma_next_frame_span(s: Seq<u8>)
    ensures
        match next_frame_span(s) {
            Some((st, en)) => 0 <= st && st + 4 <= en <= s.len() && s[st] == START_0 && s[st
                + 1] == START_1 && s[en - 2] == END_0 && s[en - 1] == END_1,
            None => true,
        },
{
    lemma_find_marker(s, START_0, START_1, 0);
    if let Some(st) = find_marker(s, START_0, START_1, 0) {
        lemma_find_marker(s, END_0, END_1, st + 2);
    }
}

/// Feeding a stream in chunks leaves the same buffer as feeding it whole, so
/// the frames found in it, and the latest of them, do not depend on where
/// the chunk boundaries fell.
pub proof fn lemma_chunk_independence(start: Seq<u8>, chunks: Seq<Seq<u8>>)
    ensures
        feed_all(start, chunks) == start + chunks.flatten(),
        all_frames(feed_all(start, chunks)) == all_frames(start + chunks.flatten()),
        latest_frame(feed_all(start, chunks)) == latest_frame(start + chunks.flatten()),
    decreases chunks.len(),
{
    if chunks.len() > 0 {
        lemma_chunk_independence(start + chunks[0], chunks.drop_first());
        assert(start + chunks[0] + chunks.drop_first().flatten() =~= start + chunks.flatten());
    } else {
        assert(start + chunks.flatten() =~= start);
    }
}

/// A marker found in `s1` is found at the same place in `s1 + s2`.
pub proof fn lemma_find_marker_prefix(s1: Seq<u8>, s2: Seq<u8>, a: u8, b: u8, from: int)
    requires
        0 <= from,
        find_marker(s1, a, b, from) is Some,
    ensures
        find_marker(s1 + s2, a, b, from) == find_marker(s1, a, b, from),
    decreases s1.len() - from,
{
    let s = s1 + s2;
    assert(s[from] == s1[from] && s[from + 1] == s1[from + 1]);
    if !(s1[from] == a && s1[from + 1] == b) {
        lemma_find_marker_prefix(s1, s2, a, b, from + 1);
    }
}

/// A frame as the scan finds it: a start marker, then no end marker before
/// the one that closes it.
pub open spec fn is_complete_frame(f: Seq<u8>) -> bool {
    &&& f.len() >= 4
    &&& f[0] == START_0
    &&& f[1] == START_1
    &&& find_marker(f, END_0, END_1, 2) == Some(f.len() - 2)
}

/// Of two complete frames back to back, only the second is extracted, and
/// nothing is left behind; a scan of what is left finds nothing.
pub proof fn lemma_latest_of_two(f1: Seq<u8>, f2: Seq<u8>)
    requires
        is_complete_frame(f1),
        is_complete_frame(f2),
    ensures
        latest_frame(f1 + f2) == Some((f2, Seq::<u8>::empty())),
        latest_frame(Seq::<u8>::empty()) is None,
        capped(Seq::<u8>::empty()) == Seq::<u8>::empty(),
{
    let s = f1 + f2;
    let e: Seq<u8> = Seq::empty();
    assert(find_marker(f1, START_0, START_1, 0) == Some(0int));
    lemma_find_marker_prefix(f1, f2, START_0, START_1, 0);
    lemma_find_marker_prefix(f1, f2, END_0, END_1, 2);
    assert(next_frame_span(s) == Some((0int, f1.len() as int)));
    assert(s.subrange(f1.len() as int, s.len() as int) =~= f2);
    assert(find_marker(f2, START_0, START_1, 0) == Some(0int));
    assert(next_frame_span(f2) == Some((0int, f2.len() as int)));
    assert(f2.subrange(f2.len() as int, f2.len() as int) =~= e);
    assert(next_frame_span(e) is None);
    assert(latest_frame(e) is None);
    assert(f2.subrange(0, f2.len() as int) =~= f2);
    assert(latest_frame(f2) == Some((f2, e)));
}

/// What repeated scanning leaves behind is a tail of the scanned bytes.
pub proof fn lemma_latest_frame_suffix(s: Seq<u8>)
    ensures
        match latest_frame(s) {
            Some((f, rest)) => rest.len() <= s.len() && rest == s.subrange(
                s.len() - rest.len(),
                s.len() as int,
            ),
            None => true,
        },
    decreases s.len(),
{
    if let Some((st, en)) = next_frame_span(s) {
        lemma_next_frame_span(s);
        let r1 = s.subrange(en, s.len() as int);
        lemma_latest_frame_suffix(r1);
        if let Some((f, rest)) = latest_frame(r1) {
            assert(rest =~= s.subrange(s.len() - rest.len(), s.len() as int));
        }
    }
}

/// What follows the most recent frame holds no complete frame.
pub proof fn lemma_latest_frame_rest(s: Seq<u8>)
    ensures
        match latest_frame(s) {
            Some((f, rest)) => latest_frame(rest) is None,
            None => true,
        },
    decreases s.len(),
{
    if let Some((st, en)) = next_frame_span(s) {
        lemma_next_frame_span(s);
        lemma_latest_frame_rest(s.subrange(en, s.len() as int));
    }
}

/// Bytes appended after the last frame found in `t` do not change which
/// frames are found in `t`: scanning `t + c` continues from what followed
/// that frame, with `c` appended.
pub proof fn lemma_latest_frame_append(t: Seq<u8>, c: Seq<u8>)
    ensures
        match latest_frame(t) {
            Some((f, rest)) => latest_frame(t + c) == (match latest_frame(rest + c) {
                Some(p) => Some(p),
                None => Some((f, rest + c)),
            }),
            None => true,
        },
    decreases t.len(),
{
    if next_frame_span(t) is None {
        return;
    }
    let (st, en) = next_frame_span(t)->0;
    lemma_next_frame_span(t);
    lemma_find_marker_prefix(t, c, START_0, START_1, 0);
    lemma_find_marker_prefix(t, c, END_0, END_1, st + 2);
    assert(next_frame_span(t + c) == Some((st, en)));
    let r1 = t.subrange(en, t.len() as int);
    assert((t + c).subrange(st, en) =~= t.subrange(st, en));
    assert((t + c).subrange(en, (t + c).len() as int) =~= r1 + c);
    lemma_latest_frame_append(r1, c);
}

/// The buffer after one read of `c` is taken in and scanned.
pub open spec fn buffer_after(buf: Seq<u8>, c: Seq<u8>) -> Seq<u8> {
    match latest_frame(capped(buf + c)) {
        Some((_, rest)) => rest,
        None => capped(buf + c),
    }
}

/// The frame that one read of `c` yields, if any.
pub open spec fn frame_after(buf: Seq<u8>, c: Seq<u8>) -> Option<Seq<u8>> {
    match latest_frame(capped(buf + c)) {
        Some((f, _)) => Some(f),
        None => None,
    }
}

/// Buffer and most recent frame after reading each chunk in turn, each
/// read followed by a scan; `last` is the frame found before.
pub open spec fn read_all(buf: Seq<u8>, last: Option<Seq<u8>>, chunks: Seq<Seq<u8>>) -> (
    Seq<u8>,
    Option<Seq<u8>>,
)
    decreases chunks.len(),
{
    if chunks.len() == 0 {
        (buf, last)
    } else {
        let found = frame_after(buf, chunks[0]);
        read_all(
            buffer_after(buf, chunks[0]),
            if found is Some {
                found
            } else {
                last
            },
            chunks.drop_first(),
        )
    }
}

proof fn lemma_read_two(buf: Seq<u8>, c: Seq<u8>, x: Seq<u8>)
    requires
        buf.len() + c.len() + x.len() <= MAX_BUFFERED,
    ensures
        buffer_after(buffer_after(buf, c), x) == buffer_after(buf, c + x),
        (match frame_after(buffer_after(buf, c), x) {
            Some(f) => Some(f),
            None => frame_after(buf, c),
        }) == frame_after(buf, c + x),
{
    let t = buf + c;
    assert(buf + (c + x) =~= t + x);
    assert(capped(t) == t);
    assert(capped(t + x) == t + x);
    lemma_latest_frame_suffix(t);
    lemma_latest_frame_append(t, x);
    if let Some((f, rest)) = latest_frame(t) {
        assert(capped(rest + x) == rest + x);
    }
}

/// Chunk boundaries do not matter when every read is scanned at once
/// either: reading a stream in chunks, with a scan after each read, ends
/// with the same buffer and the same most recent frame as one read of the
/// whole stream, as long as the bytes fit under the buffer bound.
pub proof fn lemma_reads_chunk_independence(
    buf: Seq<u8>,
    last: Option<Seq<u8>>,
    chunks: Seq<Seq<u8>>,
)
    requires
        latest_frame(buf) is None,
        buf.len() + chunks.flatten().len() <= MAX_BUFFERED,
    ensures
        read_all(buf, last, chunks).0 == buffer_after(buf, chunks.flatten()),
        read_all(buf, last, chunks).1 == (match frame_after(buf, chunks.flatten()) {
            Some(f) => Some(f),
            None => last,
        }),
    decreases chunks.len(),
{
    if chunks.len() == 0 {
        assert(buf + chunks.flatten() =~= buf);
        assert(capped(buf) == buf);
    } else {
        let c = chunks[0];
        let x = chunks.drop_first().flatten();
        assert(chunks.flatten() == c + x);
        lemma_read_two(buf, c, x);
        let b1 = buffer_after(buf, c);
        lemma_latest_frame_suffix(buf + c);
        lemma_latest_frame_rest(buf + c);
        assert(capped(buf + c) == buf + c);
        assert(b1.len() <= buf.len() + c.len());
        assert(latest_frame(b1) is None);
        lemma_reads_chunk_independence(
            b1,
            if frame_after(buf, c) is Some {
                frame_after(buf, c)
            } else {
                last
            },
            chunks.drop_first(),
        );
    }
}

/// Finds the first `i >= from` with `data[i] == a` and `data[i + 1] == b`.
fn scan_marker(data: &[u8], a: u8, b: u8, from: usize) -> (r: Option<usize>)
    ensures
        match r {
            Some(i) => find_marker(data@, a, b, from as int) == Some(i as int),
            None => find_marker(data@, a, b, from as int) is None,
        },
{
    let mut i: usize = from;
    while i < data.len() && i + 1 < data.len()
        invariant
            from <= i,
            find_marker(data@, a, b, from as int) == find_marker(data@, a, b, i as int),
        decreases data@.len() - i,
    {
        if data[i] == a && data[i + 1] == b {
            return Some(i);
        }
        i = i + 1;
    }
    None
}

/// The receive buffer of one sensor session and the scan over it.
pub struct Resynchronizer {
    buffer: Vec<u8>,
}

impl View for Resynchronizer {
    type V = Seq<u8>;

    closed spec fn view(&self) -> Seq<u8> {
        self.buffer@
    }
}

impl Resynchronizer {
    pub fn new() -> (r: Resynchronizer)
        ensures
            r@ == Seq::<u8>::empty(),
    {
        Resynchronizer { buffer: Vec::new() }
    }

    /// Number of bytes waiting in the buffer.
    pub fn len(&self) -> (r: usize)
        ensures
            r == self@.len(),
    {
        self.buffer.len()
    }

    /// The bytes waiting in the buffer.
    pub fn pending(&self) -> (r: &[u8])
        ensures
            r@ == self@,
    {
        self.buffer.as_slice()
    }

    /// Appends freshly read bytes; nothing is parsed yet.
    pub fn feed(&mut self, bytes: &[u8])
        ensures
            final(self)@ == old(self)@ + bytes@,
    {
        append_bytes(&mut self.buffer, bytes);
    }

    /// Drops everything buffered.
    pub fn clear(&mut self)
        ensures
            final(self)@ == Seq::<u8>::empty(),
    {
        self.buffer.clear();
    }

    /// The first complete frame in `data`, with the index just past its end
    /// marker.
    pub fn find_complete_frame(data: &[u8]) -> (r: Option<(Vec<u8>, usize)>)
        ensures
            match (r, next_frame_span(data@)) {
                (Some((f, en)), Some((sst, sen))) => f@ == data@.subrange(sst, sen) && en
                    == sen,
                (None, None) => true,
                _ => false,
            },
    {
        proof {
            lemma_next_frame_span(data@);
        }
        let n = data.len();
        match scan_marker(data, START_0, START_1, 0) {
            None => None,
            Some(start) => {
                proof {
                    lemma_find_marker(data@, START_0, START_1, 0);
                }
                assert(start + 1 < n);
                match scan_marker(data, END_0, END_1, start + 2) {
                    None => None,
                    Some(e) => {
                        proof {
                            lemma_find_marker(data@, END_0, END_1, start + 2);
                        }
                        assert(e + 1 < n);
                        Some((copy_range(data, start, e + 2), e + 2))
                    },
                }
            },
        }
    }

    /// First bounds the buffer: past `MAX_BUFFERED` bytes only the last
    /// `KEPT_TAIL` of them remain. Then returns the most recent complete
    /// frame in what is left and drops everything up to its end marker;
    /// bytes after it stay for the next call. With no complete frame the
    /// bounded buffer is kept as it is.
    pub fn extract_latest_frame(&mut self) -> (r: Option<Vec<u8>>)
        ensures
            match (r, latest_frame(capped(old(self)@))) {
                (Some(f), Some((sf, rest))) => f@ == sf && final(self)@ == rest,
                (None, None) => final(self)@ == capped(old(self)@),
                _ => false,
            },
            final(self)@.len() <= MAX_BUFFERED,
    {
        let n = self.buffer.len();
        if n > MAX_BUFFERED {
            self.buffer = copy_range(self.buffer.as_slice(), n - KEPT_TAIL, n);
        }
        proof {
            lemma_latest_frame_suffix(self.buffer@);
        }
        let ghost s0 = self.buffer@;
        let mut latest: Option<Vec<u8>> = None;
        let ghost mut sofar: Option<(Seq<u8>, Seq<u8>)> = None;
        let mut temp: Vec<u8> = copy_range(self.buffer.as_slice(), 0, self.buffer.len());
        assert(temp@ =~= s0);
        loop
            invariant
                latest_frame(s0) == (match latest_frame(temp@) {
                    Some(p) => Some(p),
                    None => sofar,
                }),
                match (latest, sofar) {
                    (Some(f), Some((sf, rest))) => f@ == sf && rest == temp@,
                    (None, None) => temp@ == s0,
                    _ => false,
                },
            ensures
                latest_frame(temp@) is None,
                latest_frame(s0) == sofar,
                match (latest, sofar) {
                    (Some(f), Some((sf, rest))) => f@ == sf && rest == temp@,
                    (None, None) => temp@ == s0,
                    _ => false,
                },
            decreases temp@.len(),
        {
            proof {
                lemma_next_frame_span(temp@);
            }
            match Self::find_complete_frame(temp.as_slice()) {
                None => {
                    break ;
                },
                Some((f, en)) => {
                    let rest = copy_range(temp.as_slice(), en, temp.len());
                    proof {
                        sofar = Some((f@, rest@));
                    }
                    latest = Some(f);
                    temp = rest;
                },
            }
        }
        match latest {
            Some(f) => {
                self.buffer = temp;
                Some(f)
            },
            None => None,
        }
    }
}

} // verus!
