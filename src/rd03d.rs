//! The multi-target radar: up to three targets per report frame
//! `AA FF 00 00 <3 slots of 8 bytes> 55 CC`, and its command frames.

use vstd::prelude::*;
use crate::frame::{append_bytes, frame_bytes, frame_footer, frame_header, le16, le16_value, MAX_BODY_LEN};
use crate::resync::{buffer_after, frame_after, Resynchronizer, MAX_BUFFERED};

verus! {

/// Length of a report frame: preamble, three 8-byte slots and end marker.
pub const REPORT_LEN: usize = 30;

/// Number of target slots in a report frame.
pub const SLOTS: usize = 3;

/// One detected target. Coordinates in mm, speed in cm/s.
#[derive(Debug, Clone, Copy, PartialEq, Eq, Structural)]
pub struct Target {
    pub x: i16,
    pub y: i16,
    pub speed: i16,
    pub pixel_distance: u16,
}

/// The sensor's sign-magnitude field: bit 15 of `high:low` is a sign flag
/// and the other fifteen bits are the magnitude.
pub open spec fn signed16(high: u8, low: u8) -> int {
    if high < 0x80 {
        high as int * 256 + low as int
    } else {
        -((high as int - 0x80) * 256 + low as int)
    }
}

/// The target described by slot `i` of report frame `d`.
pub open spec fn slot_target(d: Seq<u8>, i: int) -> Target {
    let b = 4 + 8 * i;
    Target {
        x: signed16(d[b + 1], d[b]) as i16,
        y: signed16(d[b + 3], d[b + 2]) as i16,
        speed: signed16(d[b + 5], d[b + 4]) as i16,
        pixel_distance: le16_value(d[b + 6], d[b + 7]) as u16,
    }
}

/// A report frame long enough for three slots, between its two markers.
pub open spec fn is_report(d: Seq<u8>) -> bool {
    let n = d.len() as int;
    &&& n >= REPORT_LEN
    &&& d[0] == 0xAAu8
    &&& d[1] == 0xFFu8
    &&& d[n - 2] == 0x55u8
    &&& d[n - 1] == 0xCCu8
}

/// The targets a frame decodes to: three for a report, none otherwise.
pub open spec fn decoded_targets(d: Seq<u8>) -> Seq<Target> {
    if is_report(d) {
        seq![slot_target(d, 0), slot_target(d, 1), slot_target(d, 2)]
    } else {
        Seq::empty()
    }
}

/// Squared distance of a target from the sensor, in mm².
pub open spec fn distance_squared_spec(t: Target) -> int {
    t.x as int * t.x as int + t.y as int * t.y as int
}

impl Target {
    pub fn new(x: i16, y: i16, speed: i16, pixel_distance: u16) -> (r: Target)
        ensures
            r == (Target { x, y, speed, pixel_distance }),
    {
        Target { x, y, speed, pixel_distance }
    }

    /// `x² + y²`, the square of the target's distance from the sensor.
    pub fn distance_squared(&self) -> (r: u32)
        ensures
            r == distance_squared_spec(*self),
    {
        let x = self.x as i32;
        let y = self.y as i32;
        assert(0 <= x * x <= 0x4000_0000) by (nonlinear_arith)
            requires
                -0x8000 <= x <= 0x7FFF,
        ;
        assert(0 <= y * y <= 0x4000_0000) by (nonlinear_arith)
            requires
                -0x8000 <= y <= 0x7FFF,
        ;
        (x * x) as u32 + (y * y) as u32
    }
}

/// Decodes one sign-magnitude field from its high and low bytes.
pub fn parse_signed16(high: u8, low: u8) -> (r: i16)
    ensures
        r == signed16(high, low),
{
    if high < 0x80 {
        high as i16 * 256 + low as i16
    } else {
        -((high - 0x80) as i16 * 256 + low as i16)
    }
}

fn slot(data: &[u8], i: usize) -> (r: Target)
    requires
        i < SLOTS,
        data@.len() >= REPORT_LEN,
    ensures
        r == slot_target(data@, i as int),
{
    let b = 4 + i * 8;
    let x = parse_signed16(data[b + 1], data[b]);
    let y = parse_signed16(data[b + 3], data[b + 2]);
    let speed = parse_signed16(data[b + 5], data[b + 4]);
    let pixel_distance = data[b + 6] as u16 + 256 * data[b + 7] as u16;
    Target::new(x, y, speed, pixel_distance)
}

/// Decodes a report frame into its three targets; anything that is not a
/// report decodes to no target at all.
pub fn decode_frame(data: &[u8]) -> (r: Vec<Target>)
    ensures
        r@ == decoded_targets(data@),
{
    let mut targets: Vec<Target> = Vec::new();
    let n = data.len();
    if n < REPORT_LEN || data[0] != 0xAA || data[1] != 0xFF || data[n - 2] != 0x55 || data[n - 1]
        != 0xCC {
        return targets;
    }
    let mut i: usize = 0;
    while i < SLOTS
        invariant
            i <= SLOTS,
            is_report(data@),
            targets@ == decoded_targets(data@).subrange(0, i as int),
        decreases SLOTS - i,
    {
        targets.push(slot(data, i));
        i = i + 1;
        assert(targets@ =~= decoded_targets(data@).subrange(0, i as int));
    }
    assert(targets@ =~= decoded_targets(data@));
    targets
}

/// A command word and its parameter bytes.
pub struct RD03DCommand {
    pub command_word: Vec<u8>,
    pub command_value: Vec<u8>,
}

impl RD03DCommand {
    pub fn new(command_word: Vec<u8>, command_value: Vec<u8>) -> (r: RD03DCommand)
        ensures
            r.command_word@ == command_word@,
            r.command_value@ == command_value@,
    {
        RD03DCommand { command_word, command_value }
    }

    pub open spec fn body(&self) -> Seq<u8> {
        self.command_word@ + self.command_value@
    }
}

/// A command ready to be serialised: header, length, command and footer.
pub struct RD03DFrame {
    frame_header: Vec<u8>,
    frame_length: Vec<u8>,
    frame_data: RD03DCommand,
    end_frame: Vec<u8>,
}

impl RD03DFrame {
    /// The length field describes the command, and the envelope is the
    /// protocol's own.
    pub closed spec fn wf(&self) -> bool {
        &&& self.frame_header@ == frame_header()
        &&& self.frame_length@ == le16(self.frame_data.body().len())
        &&& self.end_frame@ == frame_footer()
        &&& self.frame_data.body().len() <= MAX_BODY_LEN
    }

    pub closed spec fn command(&self) -> Seq<u8> {
        self.frame_data.body()
    }

    pub fn new(frame_data: RD03DCommand) -> (r: RD03DFrame)
        requires
            frame_data.body().len() <= MAX_BODY_LEN,
        ensures
            r.wf(),
            r.command() == frame_data.body(),
    {
        let len = frame_data.command_word.len() + frame_data.command_value.len();
        RD03DFrame {
            frame_header: vec![0xFD, 0xFC, 0xFB, 0xFA],
            frame_length: vec![(len % 256) as u8, (len / 256) as u8],
            frame_data,
            end_frame: vec![0x04, 0x03, 0x02, 0x01],
        }
    }

    pub fn to_u8(&self) -> (r: Vec<u8>)
        requires
            self.wf(),
        ensures
            r@ == frame_bytes(self.command()),
    {
        let mut r: Vec<u8> = Vec::new();
        append_bytes(&mut r, self.frame_header.as_slice());
        append_bytes(&mut r, self.frame_length.as_slice());
        append_bytes(&mut r, self.frame_data.command_word.as_slice());
        append_bytes(&mut r, self.frame_data.command_value.as_slice());
        append_bytes(&mut r, self.end_frame.as_slice());
        assert(r@ =~= frame_bytes(self.command()));
        r
    }
}

fn command_frame(word: u8, value: Vec<u8>) -> (r: Vec<u8>)
    requires
        value@.len() <= 16,
    ensures
        r@ == frame_bytes(seq![word, 0x00u8] + value@),
{
    let frame = RD03DFrame::new(RD03DCommand::new(vec![word, 0x00], value));
    assert(frame.command() =~= seq![word, 0x00u8] + value@);
    frame.to_u8()
}

/// Frame that switches the sensor between single- and multi-target reports.
pub fn mode_frame(multi_mode: bool) -> (r: Vec<u8>)
    ensures
        r@ == frame_bytes(seq![if multi_mode { 0x90u8 } else { 0x80u8 }, 0x00u8]),
{
    let r = command_frame(if multi_mode { 0x90 } else { 0x80 }, Vec::new());
    assert(seq![if multi_mode { 0x90u8 } else { 0x80u8 }, 0x00u8] + Seq::<u8>::empty() =~= seq![if multi_mode { 0x90u8 } else { 0x80u8 }, 0x00u8]);
    r
}

/// Frame that opens command mode.
pub fn open_command_mode_frame() -> (r: Vec<u8>)
    ensures
        r@ == frame_bytes(seq![0xFFu8, 0x00u8, 0x01u8, 0x00u8]),
{
    let r = command_frame(0xFF, vec![0x01, 0x00]);
    assert(seq![0xFFu8, 0x00u8] + seq![0x01u8, 0x00u8] =~= seq![0xFFu8, 0x00u8, 0x01u8, 0x00u8]);
    r
}

/// Frame that closes command mode: the exit word, with no value.
pub fn close_command_mode_frame() -> (r: Vec<u8>)
    ensures
        r@ == frame_bytes(seq![0xFEu8, 0x00u8]),
{
    let r = command_frame(0xFE, Vec::new());
    assert(seq![0xFEu8, 0x00u8] + Seq::<u8>::empty() =~= seq![0xFEu8, 0x00u8]);
    r
}

/// Frame that selects operating mode `mode`.
pub fn set_mode_frame(mode: u8) -> (r: Vec<u8>)
    ensures
        r@ == frame_bytes(seq![0x12u8, 0x00u8, mode, 0x00u8]),
{
    let r = command_frame(0x12, vec![mode, 0x00]);
    assert(seq![0x12u8, 0x00u8] + seq![mode, 0x00u8] =~= seq![0x12u8, 0x00u8, mode, 0x00u8]);
    r
}

/// Default line speed of the sensor.
pub const DEFAULT_BAUD_RATE: u32 = 256000;

/// What the multi-target radar's session knows between reads: where the
/// port is, the receive buffer, and the targets of the last decoded report.
pub struct RD03D {
    pub path: String,
    pub baud_rate: u32,
    pub targets: Vec<Target>,
    pub buffer: Resynchronizer,
    pub multi_mode: bool,
}

impl RD03D {
    pub fn new(path: String) -> (r: RD03D)
        ensures
            r.path@ == path@,
            r.baud_rate == DEFAULT_BAUD_RATE,
            r.targets@ == Seq::<Target>::empty(),
            r.buffer@ == Seq::<u8>::empty(),
            r.multi_mode,
    {
        RD03D {
            path,
            baud_rate: DEFAULT_BAUD_RATE,
            targets: Vec::new(),
            buffer: Resynchronizer::new(),
            multi_mode: true,
        }
    }

    pub fn set_baud_rate(&mut self, baud_rate: u32)
        ensures
            final(self).baud_rate == baud_rate,
            final(self).path == old(self).path,
            final(self).targets == old(self).targets,
            final(self).buffer == old(self).buffer,
            final(self).multi_mode == old(self).multi_mode,
    {
        self.baud_rate = baud_rate;
    }

    /// Target number `target_number`, counting from 1.
    pub fn get_target(&self, target_number: usize) -> (r: Option<&Target>)
        ensures
            match r {
                Some(t) => 1 <= target_number <= self.targets@.len() && *t
                    == self.targets@[target_number - 1],
                None => !(1 <= target_number <= self.targets@.len()),
            },
    {
        if target_number >= 1 && target_number <= self.targets.len() {
            Some(&self.targets[target_number - 1])
        } else {
            None
        }
    }

    /// Records that the sensor was switched to `multi_mode`: whatever was
    /// buffered belongs to the old mode and is dropped.
    pub fn mode_changed(&mut self, multi_mode: bool)
        ensures
            final(self).multi_mode == multi_mode,
            final(self).buffer@ == Seq::<u8>::empty(),
            final(self).path == old(self).path,
            final(self).baud_rate == old(self).baud_rate,
            final(self).targets == old(self).targets,
    {
        self.buffer.clear();
        self.multi_mode = multi_mode;
    }

    /// Takes in bytes just read from the port, bounds the buffer, then
    /// decodes the most recent complete frame, if any. Returns whether new
    /// targets were recorded.
    pub fn absorb(&mut self, bytes: &[u8]) -> (r: bool)
        ensures
            final(self).path == old(self).path,
            final(self).baud_rate == old(self).baud_rate,
            final(self).multi_mode == old(self).multi_mode,
            final(self).buffer@ == buffer_after(old(self).buffer@, bytes@),
            final(self).buffer@.len() <= MAX_BUFFERED,
            match frame_after(old(self).buffer@, bytes@) {
                Some(f) => {
                    &&& r == (decoded_targets(f).len() > 0)
                    &&& final(self).targets@ == if r {
                        decoded_targets(f)
                    } else {
                        old(self).targets@
                    }
                },
                None => !r && final(self).targets@ == old(self).targets@,
            },
    {
        self.buffer.feed(bytes);
        match self.buffer.extract_latest_frame() {
            None => false,
            Some(frame) => {
                let decoded = decode_frame(frame.as_slice());
                if decoded.len() > 0 {
                    self.targets = decoded;
                    true
                } else {
                    false
                }
            },
        }
    }
}

} // verus!
