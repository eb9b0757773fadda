//! The length-prefixed frame envelope shared by the radar command protocols:
//! `FD FC FB FA <len: u16 LE> <body> 04 03 02 01`.

use vstd::prelude::*;

verus! {

/// Largest body that the two-byte length field can describe.
pub const MAX_BODY_LEN: usize = 0xFFFF;

/// Bytes of envelope around a body: header, length field and footer.
pub const ENVELOPE_LEN: usize = 10;

pub open spec fn frame_header() -> Seq<u8> {
    seq![0xFDu8, 0xFCu8, 0xFBu8, 0xFAu8]
}

pub open spec fn frame_footer() -> Seq<u8> {
    seq![0x04u8, 0x03u8, 0x02u8, 0x01u8]
}

/// Little-endian two-byte encoding of `n` (low byte first).
pub open spec fn le16(n: nat) -> Seq<u8> {
    seq![(n % 256) as u8, (n / 256) as u8]
}

/// The number that the little-endian byte pair `lo, hi` stands for.
pub open spec fn le16_value(lo: u8, hi: u8) -> nat {
    lo as nat + 256 * hi as nat
}

/// The complete frame that carries `body`.
pub open spec fn frame_bytes(body: Seq<u8>) -> Seq<u8> {
    frame_header() + le16(body.len()) + body + frame_footer()
}

/// Why a byte sequence is not a well-formed frame.
#[derive(Debug, Clone, Copy, PartialEq, Eq, Structural)]
pub enum FrameError {
    /// Fewer bytes than the envelope alone needs.
    TooShort,
    /// The first four bytes are not the frame header.
    BadHeader,
    /// The length field disagrees with the number of bytes present.
    LengthMismatch,
    /// The last four bytes are not the frame footer.
    BadFooter,
    /// The body is too short to hold a two-byte command word.
    MissingWord,
}

pub open spec fn has_header(b: Seq<u8>) -> bool {
    &&& b.len() >= 4
    &&& b[0] == 0xFDu8
    &&& b[1] == 0xFCu8
    &&& b[2] == 0xFBu8
    &&& b[3] == 0xFAu8
}

pub open spec fn has_footer(b: Seq<u8>) -> bool {
    let n = b.len() as int;
    &&& n >= 4
    &&& b[n - 4] == 0x04u8
    &&& b[n - 3] == 0x03u8
    &&& b[n - 2] == 0x02u8
    &&& b[n - 1] == 0x01u8
}

/// The first defect of `b` as a frame, checked in envelope order, if any.
pub open spec fn frame_error(b: Seq<u8>) -> Option<FrameError> {
    if b.len() < ENVELOPE_LEN {
        Some(FrameError::TooShort)
    } else if !has_header(b) {
        Some(FrameError::BadHeader)
    } else if le16_value(b[4], b[5]) + ENVELOPE_LEN != b.len() {
        Some(FrameError::LengthMismatch)
    } else if !has_footer(b) {
        Some(FrameError::BadFooter)
    } else {
        None
    }
}

/// The body of a well-formed frame.
pub open spec fn frame_body(b: Seq<u8>) -> Seq<u8> {
    b.subrange(6, b.len() - 4)
}

/// What a command frame decodes to: its word and its value bytes.
pub open spec fn decode_command_spec(b: Seq<u8>) -> Result<(Seq<u8>, Seq<u8>), FrameError> {
    match frame_error(b) {
        Some(e) => Err(e),
        None => {
            let body = frame_body(b);
            if body.len() < 2 {
                Err(FrameError::MissingWord)
            } else {
                Ok((body.subrange(0, 2), body.subrange(2, body.len() as int)))
            }
        },
    }
}

/// Copies `data[lo..hi]` into a new vector.
pub fn copy_range(data: &[u8], lo: usize, hi: usize) -> (r: Vec<u8>)
    requires
        lo <= hi <= data@.len(),
    ensures
        r@ == data@.subrange(lo as int, hi as int),
{
    let mut r: Vec<u8> = Vec::new();
    let mut i: usize = lo;
    while i < hi
        invariant
            lo <= i <= hi <= data@.len(),
            r@ == data@.subrange(lo as int, i as int),
        decreases hi - i,
    {
        r.push(data[i]);
        i = i + 1;
        assert(r@ =~= data@.subrange(lo as int, i as int));
    }
    r
}

/// Appends all of `src` to `dst`.
pub fn append_bytes(dst: &mut Vec<u8>, src: &[u8])
    ensures
        final(dst)@ == old(dst)@ + src@,
{
    let ghost start = dst@;
    let mut i: usize = 0;
    while i < src.len()
        invariant
            i <= src@.len(),
            dst@ == start + src@.subrange(0, i as int),
        decreases src@.len() - i,
    {
        dst.push(src[i]);
        i = i + 1;
        assert(dst@ =~= start + src@.subrange(0, i as int));
    }
    assert(src@.subrange(0, src@.len() as int) =~= src@);
}

/// Builds the frame whose body is the command `word` followed by `value`.
pub fn encode(word: &[u8], value: &[u8]) -> (r: Vec<u8>)
    requires
        word@.len() + value@.len() <= MAX_BODY_LEN,
    ensures
        r@ == frame_bytes(word@ + value@),
{
    let len: usize = word.len() + value.len();
    let mut r: Vec<u8> = Vec::new();
    r.push(0xFD);
    r.push(0xFC);
    r.push(0xFB);
    r.push(0xFA);
    r.push((len % 256) as u8);
    r.push((len / 256) as u8);
    append_bytes(&mut r, word);
    append_bytes(&mut r, value);
    r.push(0x04);
    r.push(0x03);
    r.push(0x02);
    r.push(0x01);
    assert(r@ =~= frame_bytes(word@ + value@));
    r
}

/// Checks the envelope of `bytes` and returns the body it carries.
pub fn unframe(bytes: &[u8]) -> (r: Result<Vec<u8>, FrameError>)
    ensures
        match r {
            Ok(body) => frame_error(bytes@) is None && body@ == frame_body(bytes@),
            Err(e) => frame_error(bytes@) == Some(e),
        },
{
    let n = bytes.len();
    if n < ENVELOPE_LEN {
        return Err(FrameError::TooShort);
    }
    if !(bytes[0] == 0xFD && bytes[1] == 0xFC && bytes[2] == 0xFB && bytes[3] == 0xFA) {
        return Err(FrameError::BadHeader);
    }
    let declared: usize = bytes[4] as usize + 256 * bytes[5] as usize;
    if declared + ENVELOPE_LEN != n {
        return Err(FrameError::LengthMismatch);
    }
    if !(bytes[n - 4] == 0x04 && bytes[n - 3] == 0x03 && bytes[n - 2] == 0x02 && bytes[n - 1]
        == 0x01) {
        return Err(FrameError::BadFooter);
    }
    Ok(copy_range(bytes, 6, n - 4))
}

/// Decodes a command frame into its word and value bytes.
pub fn decode_command(bytes: &[u8]) -> (r: Result<(Vec<u8>, Vec<u8>), FrameError>)
    ensures
        match (r, decode_command_spec(bytes@)) {
            (Ok((w, v)), Ok((sw, sv))) => w@ == sw && v@ == sv,
            (Err(e), Err(se)) => e == se,
            _ => false,
        },
{
    match unframe(bytes) {
        Err(e) => Err(e),
        Ok(body) => {
            if body.len() < 2 {
                Err(FrameError::MissingWord)
            } else {
                let word = copy_range(body.as_slice(), 0, 2);
                let value = copy_range(body.as_slice(), 2, body.len());
                Ok((word, value))
            }
        },
    }
}

/// A command frame decodes back to the word and value it was built from.
pub proof fn lemma_command_round_trip(word: Seq<u8>, value: Seq<u8>)
    requires
        word.len() == 2,
        word.len() + value.len() <= MAX_BODY_LEN,
    ensures
        decode_command_spec(frame_bytes(word + value)) == Ok::<(Seq<u8>, Seq<u8>), FrameError>(
            (word, value),
        ),
{
    let body = word + value;
    let f = frame_bytes(body);
    let n = body.len();
    assert(f.len() == n + 10);
    assert(f[4] == (n % 256) as u8 && f[5] == (n / 256) as u8);
    assert(le16_value(f[4], f[5]) == n);
    assert(frame_body(f) =~= body);
    assert(body.subrange(0, 2) =~= word);
    assert(body.subrange(2, body.len() as int) =~= value);
}

} // verus!
