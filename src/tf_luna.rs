//! Command bytes of the TF-Luna lidar: `5A <len> <id> <payload> <check>`,
//! with the check byte left at zero.

use vstd::prelude::*;

verus! {

#[derive(Debug, Clone, Copy, PartialEq, Eq, Structural)]
pub enum OutputFormat {
    NineByteCm,
    PIX,
    NineByteMm,
    ThirtyTwoTimestamp,
    IdZeroOutput,
    EightByteCm,
}

#[derive(Debug, Clone, Copy, PartialEq, Eq, Structural)]
pub enum OutputFrequency {
    Freq1Hz,
    Freq2Hz,
    Freq4Hz,
    Freq8Hz,
    Freq16Hz,
    Freq10Hz,
    Freq32Hz,
    Freq64Hz,
    Freq128Hz,
    Freq100Hz,
    Freq250Hz,
}

/// Which setting a configuration query asks about.
#[derive(Debug, Clone, Copy, PartialEq, Eq, Structural)]
pub enum OutputMode {
    Frequency,
    DistanceLimit,
    OutputFormat,
    BaudRate,
}

pub open spec fn format_code(f: OutputFormat) -> u8 {
    match f {
        OutputFormat::NineByteCm => 0x01,
        OutputFormat::PIX => 0x02,
        OutputFormat::NineByteMm => 0x06,
        OutputFormat::ThirtyTwoTimestamp => 0x07,
        OutputFormat::IdZeroOutput => 0x08,
        OutputFormat::EightByteCm => 0x09,
    }
}

pub open spec fn frequency_hz(f: OutputFrequency) -> u16 {
    match f {
        OutputFrequency::Freq1Hz => 1,
        OutputFrequency::Freq2Hz => 2,
        OutputFrequency::Freq4Hz => 4,
        OutputFrequency::Freq8Hz => 8,
        OutputFrequency::Freq16Hz => 16,
        OutputFrequency::Freq10Hz => 10,
        OutputFrequency::Freq32Hz => 32,
        OutputFrequency::Freq64Hz => 64,
        OutputFrequency::Freq128Hz => 128,
        OutputFrequency::Freq100Hz => 100,
        OutputFrequency::Freq250Hz => 250,
    }
}

pub open spec fn mode_code(m: OutputMode) -> u8 {
    match m {
        OutputMode::Frequency => 0x03,
        OutputMode::DistanceLimit => 0x04,
        OutputMode::OutputFormat => 0x05,
        OutputMode::BaudRate => 0x06,
    }
}

/// Byte `i` (0 = least significant) of `n`.
pub open spec fn byte_of(n: int, i: nat) -> u8 {
    ((n / pow256(i)) % 256) as u8
}

pub open spec fn pow256(i: nat) -> int
    decreases i,
{
    if i == 0 {
        1
    } else {
        256 * pow256((i - 1) as nat)
    }
}

impl OutputFormat {
    pub fn code(&self) -> (r: u8)
        ensures
            r == format_code(*self),
    {
        match self {
            OutputFormat::NineByteCm => 0x01,
            OutputFormat::PIX => 0x02,
            OutputFormat::NineByteMm => 0x06,
            OutputFormat::ThirtyTwoTimestamp => 0x07,
            OutputFormat::IdZeroOutput => 0x08,
            OutputFormat::EightByteCm => 0x09,
        }
    }
}

impl OutputFrequency {
    pub fn hertz(&self) -> (r: u16)
        ensures
            r == frequency_hz(*self),
    {
        match self {
            OutputFrequency::Freq1Hz => 1,
            OutputFrequency::Freq2Hz => 2,
            OutputFrequency::Freq4Hz => 4,
            OutputFrequency::Freq8Hz => 8,
            OutputFrequency::Freq16Hz => 16,
            OutputFrequency::Freq10Hz => 10,
            OutputFrequency::Freq32Hz => 32,
            OutputFrequency::Freq64Hz => 64,
            OutputFrequency::Freq128Hz => 128,
            OutputFrequency::Freq100Hz => 100,
            OutputFrequency::Freq250Hz => 250,
        }
    }
}

impl OutputMode {
    pub fn code(&self) -> (r: u8)
        ensures
            r == mode_code(*self),
    {
        match self {
            OutputMode::Frequency => 0x03,
            OutputMode::DistanceLimit => 0x04,
            OutputMode::OutputFormat => 0x05,
            OutputMode::BaudRate => 0x06,
        }
    }
}

/// Asks for the firmware version.
pub fn version_command() -> (r: Vec<u8>)
    ensures
        r@ == seq![0x5Au8, 0x04u8, 0x01u8, 0x00u8],
{
    let r = vec![0x5A, 0x04, 0x01, 0x00];
    assert(r@ =~= seq![0x5Au8, 0x04u8, 0x01u8, 0x00u8]);
    r
}

pub fn output_format_command(format: OutputFormat) -> (r: Vec<u8>)
    ensures
        r@ == seq![0x5Au8, 0x05u8, 0x05u8, format_code(format), 0x00u8],
{
    let r = vec![0x5A, 0x05, 0x05, format.code(), 0x00];
    assert(r@ =~= seq![0x5Au8, 0x05u8, 0x05u8, format_code(format), 0x00u8]);
    r
}

/// Sets the line speed; the rate goes out least significant byte first.
pub fn baud_rate_command(baud_rate: u32) -> (r: Vec<u8>)
    ensures
        r@ == seq![
            0x5Au8,
            0x08u8,
            0x06u8,
            byte_of(baud_rate as int, 0),
            byte_of(baud_rate as int, 1),
            byte_of(baud_rate as int, 2),
            byte_of(baud_rate as int, 3),
            0x00u8,
        ],
{
    let r = vec![
        0x5A,
        0x08,
        0x06,
        (baud_rate % 256) as u8,
        (baud_rate / 256 % 256) as u8,
        (baud_rate / 65536 % 256) as u8,
        (baud_rate / 16777216) as u8,
        0x00,
    ];
    proof {
        reveal_with_fuel(pow256, 4);
    }
    assert(r@ =~= seq![
        0x5Au8,
        0x08u8,
        0x06u8,
        byte_of(baud_rate as int, 0),
        byte_of(baud_rate as int, 1),
        byte_of(baud_rate as int, 2),
        byte_of(baud_rate as int, 3),
        0x00u8,
    ]);
    r
}

/// Sets the distance window, each bound least significant byte first.
pub fn distance_limit_command(dist_min: u16, dist_max: u16) -> (r: Vec<u8>)
    ensures
        r@ == seq![
            0x5Au8,
            0x09u8,
            0x3Au8,
            (dist_min % 256) as u8,
            (dist_min / 256) as u8,
            (dist_max % 256) as u8,
            (dist_max / 256) as u8,
            0x00u8,
            0x00u8,
        ],
{
    let r = vec![
        0x5A,
        0x09,
        0x3A,
        (dist_min % 256) as u8,
        (dist_min / 256) as u8,
        (dist_max % 256) as u8,
        (dist_max / 256) as u8,
        0x00,
        0x00,
    ];
    assert(r@ =~= seq![
        0x5Au8,
        0x09u8,
        0x3Au8,
        (dist_min % 256) as u8,
        (dist_min / 256) as u8,
        (dist_max % 256) as u8,
        (dist_max / 256) as u8,
        0x00u8,
        0x00u8,
    ]);
    r
}

pub fn output_frequency_command(freq: OutputFrequency) -> (r: Vec<u8>)
    ensures
        r@ == seq![0x5Au8, 0x06u8, 0x03u8, frequency_hz(freq) as u8, 0x00u8, 0x00u8],
{
    let hz = freq.hertz();
    let r = vec![0x5A, 0x06, 0x03, (hz % 256) as u8, (hz / 256) as u8, 0x00];
    assert(r@ =~= seq![0x5Au8, 0x06u8, 0x03u8, frequency_hz(freq) as u8, 0x00u8, 0x00u8]);
    r
}

/// Asks for the current value of one setting.
pub fn configuration_command(output_mode: OutputMode) -> (r: Vec<u8>)
    ensures
        r@ == seq![0x5Au8, 0x05u8, 0x3Fu8, mode_code(output_mode), 0x00u8],
{
    let r = vec![0x5A, 0x05, 0x3F, output_mode.code(), 0x00];
    assert(r@ =~= seq![0x5Au8, 0x05u8, 0x3Fu8, mode_code(output_mode), 0x00u8]);
    r
}

/// Major, minor and patch numbers of a version response, which stores
/// them in bytes 5, 4 and 3; `None` for a response too short to hold them.
pub fn version_of(response: &[u8]) -> (r: Option<(u8, u8, u8)>)
    ensures
        match r {
            Some((major, minor, patch)) => response@.len() >= 6 && major == response@[5] && minor
                == response@[4] && patch == response@[3],
            None => response@.len() < 6,
        },
{
    if response.len() < 6 {
        None
    } else {
        Some((response[5], response[4], response[3]))
    }
}

} // verus!
