//! Reading of the TOF200F rangefinder.

use vstd::prelude::*;

verus! {

/// The distance that a reading reports, in mm: byte 3 counts units of 255,
/// byte 4 adds to it. `None` for a reading too short to hold both.
pub fn distance_mm(reading: &[u8]) -> (r: Option<u16>)
    ensures
        match r {
            Some(d) => reading@.len() >= 5 && d == reading@[4] as int + 255 * reading@[3] as int,
            None => reading@.len() < 5,
        },
{
    if reading.len() < 5 {
        None
    } else {
        Some(reading[4] as u16 + reading[3] as u16 * 255)
    }
}

} // verus!
