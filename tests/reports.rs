use serial_sensors::ld2410c::{
    decode_report_body, parse_report, DataType, DecodeError, Ld2410CData, TargetData,
    TargetStatus,
};

fn basic_body(status: u8) -> Vec<u8> {
    vec![0x02, 0xAA, status, 0x78, 0x00, 0x3C, 0x2C, 0x01, 0x50, 0x96, 0x00, 0x55, 0x00]
}

fn engineering_body(moving: u8, stationary: u8) -> Vec<u8> {
    let mut b = vec![0x01, 0xAA, 0x03, 0x78, 0x00, 0x3C, 0x2C, 0x01, 0x50, 0x96, 0x00];
    b.push(moving);
    b.push(stationary);
    for i in 0..=moving {
        b.push(10 + i);
    }
    for i in 0..=stationary {
        b.push(50 + i);
    }
    b.extend([0xE0, 0xE1]);
    b.extend([0x55, 0x00]);
    b
}

fn framed(body: &[u8]) -> Vec<u8> {
    let mut f = vec![0xFD, 0xFC, 0xFB, 0xFA, body.len() as u8, (body.len() >> 8) as u8];
    f.extend_from_slice(body);
    f.extend([0x04, 0x03, 0x02, 0x01]);
    f
}

fn is_empty(d: &Ld2410CData) -> bool {
    d.data_type == DataType::NoDataType
        && d.head == 0
        && d.tail == 0
        && d.calibration == 0
        && d.target_data.target_status == TargetStatus::NoTarget
        && d.target_data.moving_distance == 0
        && d.target_data.moving_energy == 0
        && d.target_data.stationary_distance == 0
        && d.target_data.stationary_energy == 0
        && d.target_data.detection_distance == 0
        && d.target_data.engineering_model.is_none()
}

#[test]
fn basic_status_two_is_stationary() {
    let d = parse_report(&framed(&basic_body(0x02))).unwrap();
    assert_eq!(d.target_data.target_status, TargetStatus::StationaryTarget);
}

#[test]
fn undefined_status_reads_as_no_target() {
    let d = parse_report(&framed(&basic_body(0x7F))).unwrap();
    assert_eq!(d.target_data.target_status, TargetStatus::NoTarget);
    assert_eq!(d.data_type, DataType::TargetBasicInformation);
}

#[test]
fn status_codes() {
    let s = |b: u8| parse_report(&framed(&basic_body(b))).unwrap().target_data.target_status;
    assert_eq!(s(0x00), TargetStatus::NoTarget);
    assert_eq!(s(0x01), TargetStatus::MovingTarget);
    assert_eq!(s(0x03), TargetStatus::Both);
}

#[test]
fn basic_fields_are_low_byte_first() {
    let d = parse_report(&framed(&basic_body(0x01))).unwrap();
    assert_eq!(d.data_type, DataType::TargetBasicInformation);
    assert_eq!(d.head, 0xAA);
    assert_eq!(d.target_data.moving_distance, 0x0078);
    assert_eq!(d.target_data.moving_energy, 0x3C);
    assert_eq!(d.target_data.stationary_distance, 0x012C);
    assert_eq!(d.target_data.stationary_energy, 0x50);
    assert_eq!(d.target_data.detection_distance, 0x0096);
    assert_eq!(d.tail, 0x55);
    assert_eq!(d.calibration, 0x00);
    assert!(d.target_data.engineering_model.is_none());
}

#[test]
fn engineering_report_decodes_gate_arrays() {
    let body = engineering_body(8, 8);
    assert_eq!(body.len(), 35);
    let d = parse_report(&framed(&body)).unwrap();
    assert_eq!(d.data_type, DataType::EngineeringMode);
    assert_eq!(d.target_data.target_status, TargetStatus::Both);
    let e = d.target_data.engineering_model.unwrap();
    assert_eq!(e.max_moving_gate, 8);
    assert_eq!(e.max_static_gate, 8);
    assert_eq!(e.moving_gate_energies, (10..=18).collect::<Vec<u8>>());
    assert_eq!(e.static_gate_energies, (50..=58).collect::<Vec<u8>>());
    assert_eq!(e.reserved, vec![0xE0, 0xE1]);
    assert_eq!(d.tail, 0x55);
    assert_eq!(d.calibration, 0x00);
}

#[test]
fn engineering_arrays_may_differ_in_length() {
    let body = engineering_body(2, 5);
    let d = decode_report_body(&body).unwrap();
    let e = d.target_data.engineering_model.unwrap();
    assert_eq!(e.moving_gate_energies, vec![10, 11, 12]);
    assert_eq!(e.static_gate_energies, vec![50, 51, 52, 53, 54, 55]);
    assert_eq!(e.reserved, vec![0xE0, 0xE1]);
}

#[test]
fn engineering_overrun_is_truncated_payload() {
    let mut body = engineering_body(8, 8);
    body[11] = 200;
    assert!(matches!(decode_report_body(&body), Err(DecodeError::TruncatedPayload)));
    assert!(matches!(parse_report(&framed(&body)), Err(DecodeError::TruncatedPayload)));
    let mut body = engineering_body(8, 8);
    body[12] = 11;
    assert!(matches!(decode_report_body(&body), Err(DecodeError::TruncatedPayload)));
}

#[test]
fn short_basic_body_is_truncated_payload() {
    let body = basic_body(0x01);
    assert!(matches!(decode_report_body(&body[..12]), Err(DecodeError::TruncatedPayload)));
    assert!(matches!(decode_report_body(&[]), Err(DecodeError::TruncatedPayload)));
}

#[test]
fn unknown_type_is_an_error_of_the_body() {
    let mut body = basic_body(0x01);
    body[0] = 0x23;
    assert!(matches!(decode_report_body(&body), Err(DecodeError::UnknownFrameType)));
}

#[test]
fn keep_alive_frame_reads_as_empty() {
    let mut body = basic_body(0x01);
    body[0] = 0x23;
    let d = parse_report(&framed(&body)).unwrap();
    assert!(is_empty(&d));
}

#[test]
fn frame_shorter_than_its_length_is_truncated() {
    let f = framed(&basic_body(0x02));
    assert!(matches!(parse_report(&f[..15]), Err(DecodeError::TruncatedPayload)));
    assert!(matches!(parse_report(&f[..5]), Err(DecodeError::TruncatedPayload)));
}

#[test]
fn default_reading_is_empty() {
    assert!(is_empty(&Ld2410CData::default()));
}

#[test]
fn type_and_status_of_short_input() {
    assert_eq!(DataType::find_type(&[]), DataType::NoDataType);
    assert_eq!(DataType::find_type(&[0x23]), DataType::NoDataType);
    assert_eq!(DataType::find_type(&[0x01]), DataType::EngineeringMode);
    assert_eq!(TargetStatus::find_status(&[0x02, 0xAA]), TargetStatus::NoTarget);
    assert_eq!(TargetStatus::find_status(&[0x02, 0xAA, 0x02]), TargetStatus::StationaryTarget);
}

#[test]
fn target_data_from_fixed_fields_keeps_given_status() {
    let body = basic_body(0x01);
    let t = TargetData::new(TargetStatus::Both, &body[..11]).unwrap();
    assert_eq!(t.target_status, TargetStatus::Both);
    assert_eq!(t.moving_distance, 0x0078);
    assert_eq!(t.stationary_distance, 0x012C);
    assert_eq!(t.detection_distance, 0x0096);
    assert!(t.engineering_model.is_none());
}

#[test]
fn target_data_engineering_overrun() {
    let mut body = engineering_body(8, 8);
    body[11] = 30;
    assert!(matches!(
        TargetData::new(TargetStatus::NoTarget, &body),
        Err(DecodeError::TruncatedPayload)
    ));
    assert!(matches!(
        TargetData::new(TargetStatus::NoTarget, &body[..12]),
        Err(DecodeError::TruncatedPayload)
    ));
}
