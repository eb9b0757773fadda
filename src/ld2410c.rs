//! Report frames of the single-point presence radar: a basic layout, and an
//! engineering layout that adds per-gate energies whose count is read from
//! the payload itself.

use vstd::prelude::*;
use crate::frame::{copy_range, le16_value};

verus! {

/// Body length of a basic report, which is also the least any report needs.
pub const BASIC_BODY_LEN: usize = 13;

/// Bytes up to the end of the last fixed target field.
pub const FIXED_FIELDS_LEN: usize = 11;

/// Report layout, from the first byte of the body.
#[derive(Debug, Clone, Copy, PartialEq, Eq, Structural)]
pub enum DataType {
    EngineeringMode,
    TargetBasicInformation,
    NoDataType,
}

/// What the sensor detects.
#[derive(Debug, Clone, Copy, PartialEq, Eq, Structural)]
pub enum TargetStatus {
    NoTarget,
    MovingTarget,
    StationaryTarget,
    Both,
}

/// Why a report body could not be decoded.
#[derive(Debug, Clone, Copy, PartialEq, Eq, Structural)]
pub enum DecodeError {
    /// The type byte is neither engineering (0x01) nor basic (0x02).
    UnknownFrameType,
    /// A field, or an array whose length the payload declares, runs past
    /// the end of the body.
    TruncatedPayload,
}

/// Per-gate energies that the engineering layout appends.
pub struct EngineeringModel {
    pub max_moving_gate: u8,
    pub max_static_gate: u8,
    pub moving_gate_energies: Vec<u8>,
    pub static_gate_energies: Vec<u8>,
    pub reserved: Vec<u8>,
}

/// Target fields common to both layouts. Distances in cm, energies 0..100.
pub struct TargetData {
    pub target_status: TargetStatus,
    pub moving_distance: u16,
    pub moving_energy: u8,
    pub stationary_distance: u16,
    pub stationary_energy: u8,
    pub detection_distance: u16,
    pub engineering_model: Option<EngineeringModel>,
}

/// One decoded report.
pub struct Ld2410CData {
    pub data_type: DataType,
    pub head: u8,
    pub target_data: TargetData,
    pub tail: u8,
    pub calibration: u8,
}

pub open spec fn data_type_of(b: u8) -> DataType {
    if b == 0x01 {
        DataType::EngineeringMode
    } else if b == 0x02 {
        DataType::TargetBasicInformation
    } else {
        DataType::NoDataType
    }
}

/// Undefined status codes read as no target.
pub open spec fn status_of(b: u8) -> TargetStatus {
    if b == 0x01 {
        TargetStatus::MovingTarget
    } else if b == 0x02 {
        TargetStatus::StationaryTarget
    } else if b == 0x03 {
        TargetStatus::Both
    } else {
        TargetStatus::NoTarget
    }
}

/// The two gate arrays and the trailing two bytes fit in body `d`.
pub open spec fn engineering_fits(d: Seq<u8>) -> bool {
    d.len() >= BASIC_BODY_LEN && 17 + d[11] as int + d[12] as int <= d.len()
}

/// Where the static-gate array of body `d` starts, and where the reserved
/// bytes start.
pub open spec fn static_start(d: Seq<u8>) -> int {
    14 + d[11] as int
}

pub open spec fn reserved_start(d: Seq<u8>) -> int {
    15 + d[11] as int + d[12] as int
}

pub open spec fn engineering_matches(d: Seq<u8>, e: EngineeringModel) -> bool {
    &&& e.max_moving_gate == d[11]
    &&& e.max_static_gate == d[12]
    &&& e.moving_gate_energies@ == d.subrange(13, static_start(d))
    &&& e.static_gate_energies@ == d.subrange(static_start(d), reserved_start(d))
    &&& e.reserved@ == d.subrange(reserved_start(d), d.len() - 2)
}

/// `t` holds the fields of body `d`, whatever its status.
pub open spec fn fields_match(d: Seq<u8>, t: TargetData) -> bool {
    &&& t.moving_distance == le16_value(d[3], d[4])
    &&& t.moving_energy == d[5]
    &&& t.stationary_distance == le16_value(d[6], d[7])
    &&& t.stationary_energy == d[8]
    &&& t.detection_distance == le16_value(d[9], d[10])
    &&& if d[0] == 0x01 {
        t.engineering_model matches Some(e) && engineering_matches(d, e)
    } else {
        t.engineering_model is None
    }
}

pub open spec fn target_matches(d: Seq<u8>, t: TargetData) -> bool {
    t.target_status == status_of(d[2]) && fields_match(d, t)
}

/// `r` is the reading that body `d` describes.
pub open spec fn decodes_to(d: Seq<u8>, r: Ld2410CData) -> bool {
    &&& r.data_type == data_type_of(d[0])
    &&& r.head == d[1]
    &&& target_matches(d, r.target_data)
    &&& r.tail == d[d.len() - 2]
    &&& r.calibration == d[d.len() - 1]
}

/// The reading reported when there is nothing to decode.
pub open spec fn is_empty_reading(r: Ld2410CData) -> bool {
    &&& r.data_type == DataType::NoDataType
    &&& r.head == 0
    &&& r.tail == 0
    &&& r.calibration == 0
    &&& r.target_data.target_status == TargetStatus::NoTarget
    &&& r.target_data.moving_distance == 0
    &&& r.target_data.moving_energy == 0
    &&& r.target_data.stationary_distance == 0
    &&& r.target_data.stationary_energy == 0
    &&& r.target_data.detection_distance == 0
    &&& r.target_data.engineering_model is None
}

/// Which error, if any, decoding body `d` ends in.
pub open spec fn body_error(d: Seq<u8>) -> Option<DecodeError> {
    if d.len() == 0 {
        Some(DecodeError::TruncatedPayload)
    } else if d[0] != 0x01 && d[0] != 0x02 {
        Some(DecodeError::UnknownFrameType)
    } else if d.len() < BASIC_BODY_LEN {
        Some(DecodeError::TruncatedPayload)
    } else if d[0] == 0x01 && !engineering_fits(d) {
        Some(DecodeError::TruncatedPayload)
    } else {
        None
    }
}

impl DataType {
    /// The layout named by the first byte; no data type for an empty body.
    pub fn find_type(data: &[u8]) -> (r: DataType)
        ensures
            r == if data@.len() >= 1 {
                data_type_of(data@[0])
            } else {
                DataType::NoDataType
            },
    {
        if data.len() == 0 {
            return DataType::NoDataType;
        }
        match data[0] {
            0x01 => DataType::EngineeringMode,
            0x02 => DataType::TargetBasicInformation,
            _ => DataType::NoDataType,
        }
    }
}

impl TargetStatus {
    /// The status in the third byte; no target for a body too short to
    /// hold it.
    pub fn find_status(data: &[u8]) -> (r: TargetStatus)
        ensures
            r == if data@.len() >= 3 {
                status_of(data@[2])
            } else {
                TargetStatus::NoTarget
            },
    {
        if data.len() < 3 {
            return TargetStatus::NoTarget;
        }
        match data[2] {
            0x01 => TargetStatus::MovingTarget,
            0x02 => TargetStatus::StationaryTarget,
            0x03 => TargetStatus::Both,
            _ => TargetStatus::NoTarget,
        }
    }
}

impl EngineeringModel {
    /// Reads both gate counts first, then slices the arrays they declare;
    /// fails if those would run into the two trailing bytes.
    pub fn new(data: &[u8]) -> (r: Result<EngineeringModel, DecodeError>)
        requires
            data@.len() >= BASIC_BODY_LEN,
        ensures
            match r {
                Ok(e) => engineering_fits(data@) && engineering_matches(data@, e),
                Err(err) => !engineering_fits(data@) && err == DecodeError::TruncatedPayload,
            },
    {
        let n = data.len();
        let moving = data[11] as usize;
        let stationary = data[12] as usize;
        if 17 + moving + stationary > n {
            return Err(DecodeError::TruncatedPayload);
        }
        let static_at = 14 + moving;
        let reserved_at = 15 + moving + stationary;
        Ok(
            EngineeringModel {
                max_moving_gate: data[11],
                max_static_gate: data[12],
                moving_gate_energies: copy_range(data, 13, static_at),
                static_gate_energies: copy_range(data, static_at, reserved_at),
                reserved: copy_range(data, reserved_at, n - 2),
            },
        )
    }
}

/// A u16 field stored low byte first.
fn le16_at(data: &[u8], i: usize) -> (r: u16)
    requires
        i + 1 < data@.len(),
    ensures
        r == le16_value(data@[i as int], data@[i + 1]),
{
    data[i] as u16 + 256 * data[i + 1] as u16
}

impl TargetData {
    /// The target fields of body `data` with `target_status`; for an
    /// engineering body also its gate arrays, or an error if they overrun.
    pub fn new(target_status: TargetStatus, data: &[u8]) -> (r: Result<TargetData, DecodeError>)
        requires
            data@.len() >= FIXED_FIELDS_LEN,
        ensures
            match r {
                Ok(t) => t.target_status == target_status && fields_match(data@, t) && (data@[0]
                    == 0x01 ==> engineering_fits(data@)),
                Err(err) => data@[0] == 0x01 && !engineering_fits(data@) && err
                    == DecodeError::TruncatedPayload,
            },
    {
        let engineering_model = if data[0] == 0x01 {
            if data.len() < BASIC_BODY_LEN {
                return Err(DecodeError::TruncatedPayload);
            }
            match EngineeringModel::new(data) {
                Ok(e) => Some(e),
                Err(err) => return Err(err),
            }
        } else {
            None
        };
        Ok(
            TargetData {
                target_status,
                moving_distance: le16_at(data, 3),
                moving_energy: data[5],
                stationary_distance: le16_at(data, 6),
                stationary_energy: data[8],
                detection_distance: le16_at(data, 9),
                engineering_model,
            },
        )
    }
}

impl Ld2410CData {
    /// Frames the decoded target fields with the body's marker bytes: the
    /// second byte, and the last two.
    pub fn new(data_type: DataType, target_data: TargetData, data: &[u8]) -> (r: Ld2410CData)
        requires
            data@.len() >= 2,
        ensures
            r.data_type == data_type,
            r.target_data == target_data,
            r.head == data@[1],
            r.tail == data@[data@.len() - 2],
            r.calibration == data@[data@.len() - 1],
    {
        let n = data.len();
        Ld2410CData { data_type, head: data[1], target_data, tail: data[n - 2], calibration: data[n - 1] }
    }

    /// The empty reading: no data type, no target, every field zero.
    pub fn default() -> (r: Ld2410CData)
        ensures
            is_empty_reading(r),
    {
        Ld2410CData {
            data_type: DataType::NoDataType,
            head: 0x00,
            target_data: TargetData {
                target_status: TargetStatus::NoTarget,
                moving_distance: 0,
                moving_energy: 0,
                stationary_distance: 0,
                stationary_energy: 0,
                detection_distance: 0,
                engineering_model: None,
            },
            tail: 0x00,
            calibration: 0x00,
        }
    }
}

/// Decodes a report body (type byte first, as the length field delimits it).
pub fn decode_report_body(data: &[u8]) -> (r: Result<Ld2410CData, DecodeError>)
    ensures
        match r {
            Ok(d) => body_error(data@) is None && decodes_to(data@, d),
            Err(e) => body_error(data@) == Some(e),
        },
{
    let n = data.len();
    if n == 0 {
        return Err(DecodeError::TruncatedPayload);
    }
    if data[0] != 0x01 && data[0] != 0x02 {
        return Err(DecodeError::UnknownFrameType);
    }
    if n < BASIC_BODY_LEN {
        return Err(DecodeError::TruncatedPayload);
    }
    let data_type = DataType::find_type(data);
    let target_status = TargetStatus::find_status(data);
    let target_data = match TargetData::new(target_status, data) {
        Ok(t) => t,
        Err(e) => return Err(e),
    };
    Ok(Ld2410CData::new(data_type, target_data, data))
}

/// Offset of the body in a report frame: four header bytes, then the
/// two-byte length field.
pub const BODY_OFFSET: usize = 6;

/// The body that the length field of report frame `f` delimits, if all of
/// it was received.
pub open spec fn report_body(f: Seq<u8>) -> Option<Seq<u8>> {
    if f.len() < BODY_OFFSET {
        None
    } else {
        let end = BODY_OFFSET + le16_value(f[4], f[5]);
        if end > f.len() {
            None
        } else {
            Some(f.subrange(BODY_OFFSET as int, end))
        }
    }
}

/// Decodes the report frame `frame` as read from the port. A frame whose
/// body has no known type byte (keep-alives among them) reads as the empty
/// reading; a frame cut short, or one whose declared gate arrays overrun its
/// body, is an error.
pub fn parse_report(frame: &[u8]) -> (r: Result<Ld2410CData, DecodeError>)
    ensures
        match report_body(frame@) {
            None => r == Err::<Ld2410CData, DecodeError>(DecodeError::TruncatedPayload),
            Some(body) => match (body_error(body), r) {
                (None, Ok(d)) => decodes_to(body, d),
                (Some(DecodeError::UnknownFrameType), Ok(d)) => is_empty_reading(d),
                (Some(DecodeError::TruncatedPayload), Err(e)) => e
                    == DecodeError::TruncatedPayload,
                _ => false,
            },
        },
{
    let n = frame.len();
    if n < BODY_OFFSET {
        return Err(DecodeError::TruncatedPayload);
    }
    let end = BODY_OFFSET + le16_at(frame, 4) as usize;
    if end > n {
        return Err(DecodeError::TruncatedPayload);
    }
    let body = copy_range(frame, BODY_OFFSET, end);
    match decode_report_body(body.as_slice()) {
        Err(DecodeError::UnknownFrameType) => Ok(Ld2410CData::default()),
        other => other,
    }
}

/// An engineering payload whose declared gate arrays would reach past its
/// end is refused as truncated; nothing of it is read.
pub proof fn lemma_engineering_overrun(d: Seq<u8>)
    requires
        d.len() >= BASIC_BODY_LEN,
        d[0] == 0x01,
        reserved_start(d) > d.len() - 2,
    ensures
        body_error(d) == Some(DecodeError::TruncatedPayload),
{
}

} // verus!
