use serial_sensors::catalog::{
    BaudRate, BluetoothModule, DistanceResolution, GateValue, Ld2410CCommand, Ld2410CFrame,
    ParamError,
};
use serial_sensors::frame::{decode_command, encode, unframe, FrameError};
use serial_sensors::rd03d::{
    close_command_mode_frame, mode_frame, open_command_mode_frame, set_mode_frame, RD03DCommand,
    RD03DFrame,
};

fn frame_of(command: Ld2410CCommand) -> Vec<u8> {
    Ld2410CFrame::new(command).to_u8()
}

fn round_trip(command: Ld2410CCommand) {
    let word = command.word.clone();
    let value = command.value.clone();
    let bytes = frame_of(command);
    assert_eq!(decode_command(&bytes), Ok((word, value)));
}

#[test]
fn encode_builds_exact_frame() {
    assert_eq!(
        encode(&[0xFF, 0x00], &[0x01, 0x00]),
        vec![0xFD, 0xFC, 0xFB, 0xFA, 0x04, 0x00, 0xFF, 0x00, 0x01, 0x00, 0x04, 0x03, 0x02, 0x01]
    );
}

#[test]
fn encode_writes_length_little_endian() {
    let value = vec![0x11u8; 300];
    let bytes = encode(&[0x01, 0x00], &value);
    assert_eq!(bytes.len(), 312);
    assert_eq!(bytes[4], 0x2E);
    assert_eq!(bytes[5], 0x01);
}

#[test]
fn every_catalog_command_round_trips() {
    round_trip(Ld2410CCommand::enable_configuration());
    round_trip(Ld2410CCommand::end_configuration());
    round_trip(Ld2410CCommand::read_firmware_version());
    round_trip(Ld2410CCommand::set_bluetooth_module(BluetoothModule::TurnOn));
    round_trip(Ld2410CCommand::set_bluetooth_module(BluetoothModule::TurnOff));
    round_trip(Ld2410CCommand::set_bluetooth_password("HiLink").unwrap());
    round_trip(Ld2410CCommand::obtaining_bluetooth_permissions("HiLink"));
    round_trip(Ld2410CCommand::set_engineering_mode());
    round_trip(Ld2410CCommand::set_engineering_mode_off());
    round_trip(Ld2410CCommand::read_parameter());
    round_trip(Ld2410CCommand::set_restart_module());
    round_trip(Ld2410CCommand::restore_factory_settings());
    round_trip(Ld2410CCommand::set_distance_resolution_setting(DistanceResolution::DistanceGate0_2m));
    round_trip(Ld2410CCommand::query_distance_resolution_setting());
    round_trip(Ld2410CCommand::get_mac_address());
    round_trip(Ld2410CCommand::set_serial_port_baud_rate(BaudRate::BaudRate460800));
    round_trip(
        Ld2410CCommand::set_distance_gate_sensitivity_configuration(GateValue::GateValueAll, 40, 100)
            .unwrap(),
    );
}

#[test]
fn enable_configuration_frame_bytes() {
    assert_eq!(
        frame_of(Ld2410CCommand::enable_configuration()),
        vec![0xFD, 0xFC, 0xFB, 0xFA, 0x04, 0x00, 0xFF, 0x00, 0x01, 0x00, 0x04, 0x03, 0x02, 0x01]
    );
}

#[test]
fn end_configuration_frame_bytes() {
    assert_eq!(
        frame_of(Ld2410CCommand::end_configuration()),
        vec![0xFD, 0xFC, 0xFB, 0xFA, 0x02, 0x00, 0xFE, 0x00, 0x04, 0x03, 0x02, 0x01]
    );
}

#[test]
fn gate_sensitivity_value_layout() {
    let c = Ld2410CCommand::set_distance_gate_sensitivity_configuration(GateValue::GateValue3, 40, 25)
        .unwrap();
    assert_eq!(c.word, vec![0x64, 0x00]);
    assert_eq!(
        c.value,
        vec![
            0x00, 0x00, 0x03, 0x00, 0x00, 0x00, 0x01, 0x00, 40, 0x00, 0x00, 0x00, 0x02, 0x00, 25,
            0x00, 0x00, 0x00
        ]
    );
    let bytes = frame_of(c);
    assert_eq!(bytes[4], 0x14);
    assert_eq!(bytes[5], 0x00);
}

#[test]
fn gate_all_value() {
    assert_eq!(GateValue::GateValueAll.to_vec(), vec![0xFF, 0xFF, 0x00, 0x00]);
    assert_eq!(GateValue::GateValue8.to_vec(), vec![0x08, 0x00, 0x00, 0x00]);
}

#[test]
fn parameter_encodings() {
    assert_eq!(BaudRate::BaudRate9600.to_vec(), vec![0x01, 0x00]);
    assert_eq!(BaudRate::BaudRate256000.to_vec(), vec![0x07, 0x00]);
    assert_eq!(DistanceResolution::DistanceGate0_75m.to_vec(), vec![0x00, 0x00]);
    assert_eq!(BluetoothModule::TurnOn.to_vec(), vec![0x01, 0x00]);
}

#[test]
fn sensitivity_above_hundred_is_refused() {
    let r = Ld2410CCommand::set_distance_gate_sensitivity_configuration(GateValue::GateValue1, 101, 0);
    assert!(matches!(r, Err(ParamError::InvalidSensitivity)));
    let r = Ld2410CCommand::set_distance_gate_sensitivity_configuration(GateValue::GateValue1, 0, 200);
    assert!(matches!(r, Err(ParamError::InvalidSensitivity)));
    let r = Ld2410CCommand::set_distance_gate_sensitivity_configuration(GateValue::GateValue1, 100, 100);
    assert!(r.is_ok());
}

#[test]
fn password_must_be_six_bytes() {
    assert!(matches!(
        Ld2410CCommand::set_bluetooth_password("abc"),
        Err(ParamError::InvalidPasswordLength)
    ));
    assert!(matches!(
        Ld2410CCommand::set_bluetooth_password("abcdefg"),
        Err(ParamError::InvalidPasswordLength)
    ));
    let c = Ld2410CCommand::set_bluetooth_password("HiLink").unwrap();
    assert_eq!(c.word, vec![0xA9, 0x00]);
    assert_eq!(c.value, b"HiLink".to_vec());
}

#[test]
fn unframe_reports_each_defect() {
    let good = encode(&[0xA0, 0x00], &[]);
    assert_eq!(unframe(&good), Ok(vec![0xA0, 0x00]));
    assert_eq!(unframe(&good[..9]), Err(FrameError::TooShort));
    let mut bad_header = good.clone();
    bad_header[0] = 0x00;
    assert_eq!(unframe(&bad_header), Err(FrameError::BadHeader));
    let mut bad_len = good.clone();
    bad_len[4] = 0x03;
    assert_eq!(unframe(&bad_len), Err(FrameError::LengthMismatch));
    let mut bad_footer = good.clone();
    bad_footer[11] = 0x00;
    assert_eq!(unframe(&bad_footer), Err(FrameError::BadFooter));
}

#[test]
fn command_without_word_is_refused() {
    let bytes = encode(&[0x01], &[]);
    assert_eq!(decode_command(&bytes), Err(FrameError::MissingWord));
}

#[test]
fn rd03d_command_frames() {
    assert_eq!(
        mode_frame(true),
        vec![0xFD, 0xFC, 0xFB, 0xFA, 0x02, 0x00, 0x90, 0x00, 0x04, 0x03, 0x02, 0x01]
    );
    assert_eq!(
        mode_frame(false),
        vec![0xFD, 0xFC, 0xFB, 0xFA, 0x02, 0x00, 0x80, 0x00, 0x04, 0x03, 0x02, 0x01]
    );
    assert_eq!(
        open_command_mode_frame(),
        vec![0xFD, 0xFC, 0xFB, 0xFA, 0x04, 0x00, 0xFF, 0x00, 0x01, 0x00, 0x04, 0x03, 0x02, 0x01]
    );
    assert_eq!(
        close_command_mode_frame(),
        vec![0xFD, 0xFC, 0xFB, 0xFA, 0x02, 0x00, 0xFE, 0x00, 0x04, 0x03, 0x02, 0x01]
    );
    assert_eq!(
        set_mode_frame(0x02),
        vec![0xFD, 0xFC, 0xFB, 0xFA, 0x04, 0x00, 0x12, 0x00, 0x02, 0x00, 0x04, 0x03, 0x02, 0x01]
    );
}

#[test]
fn rd03d_frame_from_command() {
    let c = RD03DCommand::new(vec![0x61, 0x00], vec![0x05]);
    assert_eq!(
        RD03DFrame::new(c).to_u8(),
        vec![0xFD, 0xFC, 0xFB, 0xFA, 0x03, 0x00, 0x61, 0x00, 0x05, 0x04, 0x03, 0x02, 0x01]
    );
}
