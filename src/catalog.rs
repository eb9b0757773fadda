//! Configuration commands of the single-point radar: each operation is a
//! command word and a value encoding, sent in the shared frame envelope.

use vstd::prelude::*;
use vstd::string::StringSliceAdditionalSpecFns;
use crate::frame::{append_bytes, frame_bytes, frame_footer, frame_header, le16, MAX_BODY_LEN};

verus! {

/// Highest sensitivity a gate accepts.
pub const MAX_SENSITIVITY: u8 = 100;

/// Length of a Bluetooth password, in bytes.
pub const PASSWORD_LEN: usize = 6;

/// A parameter refused before any byte is sent.
#[derive(Debug, Clone, Copy, PartialEq, Eq, Structural)]
pub enum ParamError {
    /// A sensitivity above `MAX_SENSITIVITY`.
    InvalidSensitivity,
    /// A Bluetooth password that is not `PASSWORD_LEN` bytes long.
    InvalidPasswordLength,
}

/// A distance gate, or all of them at once.
#[derive(Debug, Clone, Copy, PartialEq, Eq, Structural)]
pub enum GateValue {
    GateValue0,
    GateValue1,
    GateValue2,
    GateValue3,
    GateValue4,
    GateValue5,
    GateValue6,
    GateValue7,
    GateValue8,
    GateValueAll,
}

#[derive(Debug, Clone, Copy, PartialEq, Eq, Structural)]
pub enum BaudRate {
    BaudRate115200,
    BaudRate230400,
    BaudRate256000,
    BaudRate460800,
    BaudRate57600,
    BaudRate38400,
    BaudRate19200,
    BaudRate9600,
}

/// Distance covered by one gate: 0.75 m or 0.2 m.
#[derive(Debug, Clone, Copy, PartialEq, Eq, Structural)]
pub enum DistanceResolution {
    DistanceGate0_75m,
    DistanceGate0_2m,
}

#[derive(Debug, Clone, Copy, PartialEq, Eq, Structural)]
pub enum BluetoothModule {
    TurnOn,
    TurnOff,
}

/// Gate parameter: a gate number as a 32-bit little-endian value, with
/// `0xFFFF` standing for every gate.
pub open spec fn gate_bytes(g: GateValue) -> Seq<u8> {
    match g {
        GateValue::GateValue0 => seq![0x00u8, 0x00u8, 0x00u8, 0x00u8],
        GateValue::GateValue1 => seq![0x01u8, 0x00u8, 0x00u8, 0x00u8],
        GateValue::GateValue2 => seq![0x02u8, 0x00u8, 0x00u8, 0x00u8],
        GateValue::GateValue3 => seq![0x03u8, 0x00u8, 0x00u8, 0x00u8],
        GateValue::GateValue4 => seq![0x04u8, 0x00u8, 0x00u8, 0x00u8],
        GateValue::GateValue5 => seq![0x05u8, 0x00u8, 0x00u8, 0x00u8],
        GateValue::GateValue6 => seq![0x06u8, 0x00u8, 0x00u8, 0x00u8],
        GateValue::GateValue7 => seq![0x07u8, 0x00u8, 0x00u8, 0x00u8],
        GateValue::GateValue8 => seq![0x08u8, 0x00u8, 0x00u8, 0x00u8],
        GateValue::GateValueAll => seq![0xFFu8, 0xFFu8, 0x00u8, 0x00u8],
    }
}

/// The sensor's index of each baud rate, as two little-endian bytes.
pub open spec fn baud_rate_index(b: BaudRate) -> u8 {
    match b {
        BaudRate::BaudRate9600 => 0x01,
        BaudRate::BaudRate19200 => 0x02,
        BaudRate::BaudRate38400 => 0x03,
        BaudRate::BaudRate57600 => 0x04,
        BaudRate::BaudRate115200 => 0x05,
        BaudRate::BaudRate230400 => 0x06,
        BaudRate::BaudRate256000 => 0x07,
        BaudRate::BaudRate460800 => 0x08,
    }
}

pub open spec fn resolution_index(r: DistanceResolution) -> u8 {
    match r {
        DistanceResolution::DistanceGate0_75m => 0x00,
        DistanceResolution::DistanceGate0_2m => 0x01,
    }
}

pub open spec fn bluetooth_index(m: BluetoothModule) -> u8 {
    match m {
        BluetoothModule::TurnOn => 0x01,
        BluetoothModule::TurnOff => 0x00,
    }
}

/// A sensitivity as a 32-bit little-endian value.
pub open spec fn sensitivity_bytes(s: u8) -> Seq<u8> {
    seq![s, 0x00u8, 0x00u8, 0x00u8]
}

/// Value of the sensitivity command: three (parameter word, value) pairs,
/// for a gate number, the motion sensitivity and the standstill one.
pub open spec fn sensitivity_value(g: GateValue, motion: u8, standstill: u8) -> Seq<u8> {
    seq![0x00u8, 0x00u8] + gate_bytes(g) + seq![0x01u8, 0x00u8] + sensitivity_bytes(motion)
        + seq![0x02u8, 0x00u8] + sensitivity_bytes(standstill)
}

impl GateValue {
    pub fn to_vec(&self) -> (r: Vec<u8>)
        ensures
            r@ == gate_bytes(*self),
    {
        let r = match self {
            GateValue::GateValue0 => vec![0x00, 0x00, 0x00, 0x00],
            GateValue::GateValue1 => vec![0x01, 0x00, 0x00, 0x00],
            GateValue::GateValue2 => vec![0x02, 0x00, 0x00, 0x00],
            GateValue::GateValue3 => vec![0x03, 0x00, 0x00, 0x00],
            GateValue::GateValue4 => vec![0x04, 0x00, 0x00, 0x00],
            GateValue::GateValue5 => vec![0x05, 0x00, 0x00, 0x00],
            GateValue::GateValue6 => vec![0x06, 0x00, 0x00, 0x00],
            GateValue::GateValue7 => vec![0x07, 0x00, 0x00, 0x00],
            GateValue::GateValue8 => vec![0x08, 0x00, 0x00, 0x00],
            GateValue::GateValueAll => vec![0xFF, 0xFF, 0x00, 0x00],
        };
        assert(r@ =~= gate_bytes(*self));
        r
    }
}

impl BaudRate {
    pub fn to_vec(&self) -> (r: Vec<u8>)
        ensures
            r@ == seq![baud_rate_index(*self), 0x00u8],
    {
        let index: u8 = match self {
            BaudRate::BaudRate9600 => 0x01,
            BaudRate::BaudRate19200 => 0x02,
            BaudRate::BaudRate38400 => 0x03,
            BaudRate::BaudRate57600 => 0x04,
            BaudRate::BaudRate115200 => 0x05,
            BaudRate::BaudRate230400 => 0x06,
            BaudRate::BaudRate256000 => 0x07,
            BaudRate::BaudRate460800 => 0x08,
        };
        let r = vec![index, 0x00];
        assert(r@ =~= seq![baud_rate_index(*self), 0x00u8]);
        r
    }
}

impl DistanceResolution {
    pub fn to_vec(&self) -> (r: Vec<u8>)
        ensures
            r@ == seq![resolution_index(*self), 0x00u8],
    {
        let r = match self {
            DistanceResolution::DistanceGate0_75m => vec![0x00, 0x00],
            DistanceResolution::DistanceGate0_2m => vec![0x01, 0x00],
        };
        assert(r@ =~= seq![resolution_index(*self), 0x00u8]);
        r
    }
}

impl BluetoothModule {
    pub fn to_vec(&self) -> (r: Vec<u8>)
        ensures
            r@ == seq![bluetooth_index(*self), 0x00u8],
    {
        let r = match self {
            BluetoothModule::TurnOn => vec![0x01, 0x00],
            BluetoothModule::TurnOff => vec![0x00, 0x00],
        };
        assert(r@ =~= seq![bluetooth_index(*self), 0x00u8]);
        r
    }
}

/// The value of the sensitivity command, in its three parts.
pub struct GateSensitivity {
    distance_gate_value: GateValue,
    motion_sensitivity_value: u8,
    standstill_sensitivity_value: u8,
}

impl GateSensitivity {
    pub fn new(distance_gate_value: GateValue, motion_sensitivity_value: u8, standstill_sensitivity_value: u8) -> (r: GateSensitivity)
        ensures
            r.value() == sensitivity_value(
                distance_gate_value,
                motion_sensitivity_value,
                standstill_sensitivity_value,
            ),
    {
        GateSensitivity { distance_gate_value, motion_sensitivity_value, standstill_sensitivity_value }
    }

    pub closed spec fn value(&self) -> Seq<u8> {
        sensitivity_value(
            self.distance_gate_value,
            self.motion_sensitivity_value,
            self.standstill_sensitivity_value,
        )
    }

    pub fn to_vec(&self) -> (r: Vec<u8>)
        ensures
            r@ == self.value(),
    {
        let mut r: Vec<u8> = vec![0x00, 0x00];
        append_bytes(&mut r, self.distance_gate_value.to_vec().as_slice());
        r.push(0x01);
        r.push(0x00);
        append_bytes(&mut r, vec![self.motion_sensitivity_value, 0x00, 0x00, 0x00].as_slice());
        r.push(0x02);
        r.push(0x00);
        append_bytes(&mut r, vec![self.standstill_sensitivity_value, 0x00, 0x00, 0x00].as_slice());
        assert(r@ =~= self.value());
        r
    }
}

/// A command word and its parameter bytes.
pub struct Ld2410CCommand {
    pub word: Vec<u8>,
    pub value: Vec<u8>,
}

/// `c` is the command with word `w` (low byte; the high byte is zero) and
/// value `v`.
pub open spec fn command_is(c: Ld2410CCommand, w: u8, v: Seq<u8>) -> bool {
    c.word@ == seq![w, 0x00u8] && c.value@ == v
}

impl Ld2410CCommand {
    pub fn new(word: Vec<u8>, value: Vec<u8>) -> (r: Ld2410CCommand)
        ensures
            r.word@ == word@,
            r.value@ == value@,
    {
        Ld2410CCommand { word, value }
    }

    pub open spec fn body(&self) -> Seq<u8> {
        self.word@ + self.value@
    }

    fn with_word(w: u8, value: Vec<u8>) -> (r: Ld2410CCommand)
        ensures
            command_is(r, w, value@),
    {
        let r = Ld2410CCommand::new(vec![w, 0x00], value);
        assert(r.word@ =~= seq![w, 0x00u8]);
        r
    }

    /// Opens configuration mode; every other command must follow it.
    pub fn enable_configuration() -> (r: Ld2410CCommand)
        ensures
            command_is(r, 0xFF, seq![0x01u8, 0x00u8]),
    {
        let r = Self::with_word(0xFF, vec![0x01, 0x00]);
        assert(r.value@ =~= seq![0x01u8, 0x00u8]);
        r
    }

    /// Closes configuration mode; the radar resumes reporting.
    pub fn end_configuration() -> (r: Ld2410CCommand)
        ensures
            command_is(r, 0xFE, Seq::<u8>::empty()),
    {
        Self::with_word(0xFE, Vec::new())
    }

    pub fn read_firmware_version() -> (r: Ld2410CCommand)
        ensures
            command_is(r, 0xA0, Seq::<u8>::empty()),
    {
        Self::with_word(0xA0, Vec::new())
    }

    pub fn set_bluetooth_module(module: BluetoothModule) -> (r: Ld2410CCommand)
        ensures
            command_is(r, 0xA4, seq![bluetooth_index(module), 0x00u8]),
    {
        Self::with_word(0xA4, module.to_vec())
    }

    /// Sets the Bluetooth password, which must be exactly six bytes.
    pub fn set_bluetooth_password(password: &str) -> (r: Result<Ld2410CCommand, ParamError>)
        ensures
            match r {
                Ok(c) => password.spec_bytes().len() == PASSWORD_LEN && command_is(
                    c,
                    0xA9,
                    password.spec_bytes(),
                ),
                Err(e) => password.spec_bytes().len() != PASSWORD_LEN && e
                    == ParamError::InvalidPasswordLength,
            },
    {
        let bytes = password.as_bytes();
        if bytes.len() != PASSWORD_LEN {
            return Err(ParamError::InvalidPasswordLength);
        }
        let mut value: Vec<u8> = Vec::new();
        append_bytes(&mut value, bytes);
        assert(value@ =~= password.spec_bytes());
        Ok(Self::with_word(0xA9, value))
    }

    /// Asks for Bluetooth permissions with `password`.
    pub fn obtaining_bluetooth_permissions(password: &str) -> (r: Ld2410CCommand)
        ensures
            command_is(r, 0xA8, password.spec_bytes()),
    {
        let mut value: Vec<u8> = Vec::new();
        append_bytes(&mut value, password.as_bytes());
        assert(value@ =~= password.spec_bytes());
        Self::with_word(0xA8, value)
    }

    /// Adds per-gate energies to the reports until power is lost.
    pub fn set_engineering_mode() -> (r: Ld2410CCommand)
        ensures
            command_is(r, 0x62, Seq::<u8>::empty()),
    {
        Self::with_word(0x62, Vec::new())
    }

    pub fn set_engineering_mode_off() -> (r: Ld2410CCommand)
        ensures
            command_is(r, 0x63, Seq::<u8>::empty()),
    {
        Self::with_word(0x63, Vec::new())
    }

    pub fn read_parameter() -> (r: Ld2410CCommand)
        ensures
            command_is(r, 0x61, Seq::<u8>::empty()),
    {
        Self::with_word(0x61, Vec::new())
    }

    pub fn set_restart_module() -> (r: Ld2410CCommand)
        ensures
            command_is(r, 0xA3, Seq::<u8>::empty()),
    {
        Self::with_word(0xA3, Vec::new())
    }

    pub fn restore_factory_settings() -> (r: Ld2410CCommand)
        ensures
            command_is(r, 0xA2, Seq::<u8>::empty()),
    {
        Self::with_word(0xA2, Vec::new())
    }

    pub fn set_distance_resolution_setting(resolution: DistanceResolution) -> (r: Ld2410CCommand)
        ensures
            command_is(r, 0xAA, seq![resolution_index(resolution), 0x00u8]),
    {
        Self::with_word(0xAA, resolution.to_vec())
    }

    pub fn query_distance_resolution_setting() -> (r: Ld2410CCommand)
        ensures
            command_is(r, 0xAB, Seq::<u8>::empty()),
    {
        Self::with_word(0xAB, Vec::new())
    }

    pub fn get_mac_address() -> (r: Ld2410CCommand)
        ensures
            command_is(r, 0xA5, seq![0x01u8, 0x00u8]),
    {
        let r = Self::with_word(0xA5, vec![0x01, 0x00]);
        assert(r.value@ =~= seq![0x01u8, 0x00u8]);
        r
    }

    pub fn set_serial_port_baud_rate(baud_rate: BaudRate) -> (r: Ld2410CCommand)
        ensures
            command_is(r, 0xA1, seq![baud_rate_index(baud_rate), 0x00u8]),
    {
        Self::with_word(0xA1, baud_rate.to_vec())
    }

    /// Sets the motion and standstill sensitivities of one gate, or of all;
    /// each must lie in `0..=MAX_SENSITIVITY`.
    pub fn set_distance_gate_sensitivity_configuration(
        distance_gate: GateValue,
        motion_sensitivity: u8,
        standstill_sensitivity: u8,
    ) -> (r: Result<Ld2410CCommand, ParamError>)
        ensures
            match r {
                Ok(c) => motion_sensitivity <= MAX_SENSITIVITY && standstill_sensitivity
                    <= MAX_SENSITIVITY && command_is(
                    c,
                    0x64,
                    sensitivity_value(distance_gate, motion_sensitivity, standstill_sensitivity),
                ),
                Err(e) => (motion_sensitivity > MAX_SENSITIVITY || standstill_sensitivity
                    > MAX_SENSITIVITY) && e == ParamError::InvalidSensitivity,
            },
    {
        if motion_sensitivity > MAX_SENSITIVITY || standstill_sensitivity > MAX_SENSITIVITY {
            return Err(ParamError::InvalidSensitivity);
        }
        let value = GateSensitivity::new(distance_gate, motion_sensitivity, standstill_sensitivity);
        Ok(Self::with_word(0x64, value.to_vec()))
    }
}

/// A command ready to be serialised: header, length, command and footer.
pub struct Ld2410CFrame {
    frame_header: Vec<u8>,
    intraframe_length: Vec<u8>,
    intraframe_data: Ld2410CCommand,
    end_frame: Vec<u8>,
}

impl Ld2410CFrame {
    /// The length field describes the command, and the envelope is the
    /// protocol's own.
    pub closed spec fn wf(&self) -> bool {
        &&& self.frame_header@ == frame_header()
        &&& self.intraframe_length@ == le16(self.intraframe_data.body().len())
        &&& self.end_frame@ == frame_footer()
        &&& self.intraframe_data.body().len() <= MAX_BODY_LEN
    }

    pub closed spec fn command(&self) -> Seq<u8> {
        self.intraframe_data.body()
    }

    pub fn new(command: Ld2410CCommand) -> (r: Ld2410CFrame)
        requires
            command.body().len() <= MAX_BODY_LEN,
        ensures
            r.wf(),
            r.command() == command.body(),
    {
        let len = command.word.len() + command.value.len();
        Ld2410CFrame {
            frame_header: vec![0xFD, 0xFC, 0xFB, 0xFA],
            intraframe_length: vec![(len % 256) as u8, (len / 256) as u8],
            intraframe_data: command,
            end_frame: vec![0x04, 0x03, 0x02, 0x01],
        }
    }

    pub fn to_u8(&self) -> (r: Vec<u8>)
        requires
            self.wf(),
        ensures
            r@ == frame_bytes(self.command()),
    {
        let mut r: Vec<u8> = Vec::new();
        append_bytes(&mut r, self.frame_header.as_slice());
        append_bytes(&mut r, self.intraframe_length.as_slice());
        append_bytes(&mut r, self.intraframe_data.word.as_slice());
        append_bytes(&mut r, self.intraframe_data.value.as_slice());
        append_bytes(&mut r, self.end_frame.as_slice());
        assert(r@ =~= frame_bytes(self.command()));
        r
    }
}

} // verus!
