use serial_sensors::rd03d::{decode_frame, parse_signed16, Target, RD03D};
use serial_sensors::resync::Resynchronizer;

fn report(slots: [[u8; 8]; 3]) -> Vec<u8> {
    let mut f = vec![0xAA, 0xFF, 0x00, 0x00];
    for s in slots.iter() {
        f.extend_from_slice(s);
    }
    f.extend_from_slice(&[0x55, 0xCC]);
    f
}

fn zero_report() -> Vec<u8> {
    report([[0u8; 8]; 3])
}

fn all_frames(bytes: &[u8], chunk: usize) -> Vec<Vec<u8>> {
    let mut r = Resynchronizer::new();
    for c in bytes.chunks(chunk) {
        r.feed(c);
    }
    let mut out = Vec::new();
    while let Some((f, end)) = Resynchronizer::find_complete_frame(r.pending()) {
        out.push(f);
        let rest = r.pending()[end..].to_vec();
        r.clear();
        r.feed(&rest);
    }
    out
}

#[test]
fn signed_field_uses_sign_magnitude() {
    assert_eq!(parse_signed16(0x80, 0x05), -5);
    assert_eq!(parse_signed16(0x00, 0x05), 5);
    assert_eq!(parse_signed16(0x81, 0x00), -256);
    assert_eq!(parse_signed16(0x7F, 0xFF), 32767);
    assert_eq!(parse_signed16(0xFF, 0xFF), -32767);
    assert_eq!(parse_signed16(0x80, 0x00), 0);
}

#[test]
fn zero_report_gives_three_targets_at_origin() {
    let mut r = Resynchronizer::new();
    r.feed(&zero_report());
    let frame = r.extract_latest_frame().unwrap();
    let targets = decode_frame(&frame);
    assert_eq!(targets.len(), 3);
    for t in targets.iter() {
        assert_eq!(*t, Target::new(0, 0, 0, 0));
        assert_eq!(t.distance_squared(), 0);
    }
}

#[test]
fn report_slots_decode_each_field() {
    let f = report([
        [0x05, 0x80, 0x10, 0x02, 0x0A, 0x00, 0x40, 0x01],
        [0x00, 0x00, 0x00, 0x00, 0x00, 0x00, 0x00, 0x00],
        [0xFF, 0x7F, 0x01, 0x80, 0x02, 0x80, 0xFF, 0xFF],
    ]);
    let targets = decode_frame(&f);
    assert_eq!(targets[0], Target::new(-5, 0x0210, 10, 0x0140));
    assert_eq!(targets[1], Target::new(0, 0, 0, 0));
    assert_eq!(targets[2], Target::new(32767, -1, -2, 0xFFFF));
    assert_eq!(targets[0].distance_squared(), 25 + 0x0210 * 0x0210);
}

#[test]
fn distance_squared_of_extreme_target() {
    let t = Target::new(-32767, 32767, 0, 0);
    assert_eq!(t.distance_squared(), 2 * 32767 * 32767);
}

#[test]
fn short_or_unbracketed_frames_decode_to_nothing() {
    assert!(decode_frame(&[0xAA, 0xFF, 0x55, 0xCC]).is_empty());
    let mut f = zero_report();
    f[0] = 0xAB;
    assert!(decode_frame(&f).is_empty());
    let mut f = zero_report();
    f[29] = 0x00;
    assert!(decode_frame(&f).is_empty());
}

#[test]
fn latest_of_two_frames_wins() {
    let first = report([[0x01, 0, 0, 0, 0, 0, 0, 0]; 3]);
    let second = report([[0x02, 0, 0, 0, 0, 0, 0, 0]; 3]);
    let mut r = Resynchronizer::new();
    r.feed(&first);
    r.feed(&second);
    assert_eq!(r.extract_latest_frame(), Some(second));
    assert_eq!(r.len(), 0);
    assert_eq!(r.extract_latest_frame(), None);
}

#[test]
fn chunking_does_not_change_frames_found() {
    let mut stream = vec![0x13, 0x37, 0x55];
    stream.extend(report([[0x01, 0, 0, 0, 0, 0, 0, 0]; 3]));
    stream.extend([0xCC, 0x00]);
    stream.extend(report([[0x02, 0, 0, 0, 0, 0, 0, 0]; 3]));
    stream.extend([0xAA, 0xFF, 0x01]);
    let whole = all_frames(&stream, stream.len());
    assert_eq!(whole.len(), 2);
    for size in 1..9 {
        assert_eq!(all_frames(&stream, size), whole);
    }
}

#[test]
fn chunked_feed_matches_whole_feed() {
    let mut stream = vec![0x00, 0x01];
    stream.extend(zero_report());
    stream.extend(report([[0x07, 0, 0, 0, 0, 0, 0, 0]; 3]));
    let mut whole = Resynchronizer::new();
    whole.feed(&stream);
    let mut pieces = Resynchronizer::new();
    for c in stream.chunks(3) {
        pieces.feed(c);
    }
    assert_eq!(whole.pending(), pieces.pending());
    assert_eq!(whole.extract_latest_frame(), pieces.extract_latest_frame());
}

#[test]
fn garbage_before_frame_is_skipped() {
    let mut r = Resynchronizer::new();
    r.feed(&[0x01, 0x02, 0xAA, 0x03]);
    r.feed(&zero_report());
    assert_eq!(r.extract_latest_frame(), Some(zero_report()));
}

#[test]
fn pending_start_marker_is_kept() {
    let mut r = Resynchronizer::new();
    r.feed(&[0x09, 0xAA, 0xFF, 0x00, 0x01]);
    assert_eq!(r.extract_latest_frame(), None);
    assert_eq!(r.pending(), &[0x09, 0xAA, 0xFF, 0x00, 0x01]);
    let mut rest = vec![0u8; 24];
    rest.extend([0x55, 0xCC]);
    r.feed(&rest);
    let frame = r.extract_latest_frame().unwrap();
    assert_eq!(frame.len(), 30);
}

#[test]
fn partial_tail_after_frame_is_kept() {
    let mut r = Resynchronizer::new();
    r.feed(&zero_report());
    r.feed(&[0xAA, 0xFF, 0x01]);
    assert_eq!(r.extract_latest_frame(), Some(zero_report()));
    assert_eq!(r.pending(), &[0xAA, 0xFF, 0x01]);
}

#[test]
fn noise_is_capped_to_recent_tail() {
    let mut r = Resynchronizer::new();
    let noise: Vec<u8> = (0..301u32).map(|i| (i % 7) as u8).collect();
    r.feed(&noise);
    assert_eq!(r.extract_latest_frame(), None);
    assert_eq!(r.len(), 150);
    assert_eq!(r.pending(), &noise[151..]);
    let mut small = Resynchronizer::new();
    small.feed(&noise[..300]);
    assert_eq!(small.extract_latest_frame(), None);
    assert_eq!(small.len(), 300);
}

#[test]
fn empty_buffer_yields_nothing() {
    let mut r = Resynchronizer::new();
    assert_eq!(r.extract_latest_frame(), None);
    assert_eq!(r.len(), 0);
}

#[test]
fn device_absorbs_reads_and_keeps_targets() {
    let mut dev = RD03D::new("COM7".to_string());
    assert_eq!(dev.baud_rate, 256000);
    assert!(dev.multi_mode);
    let f = report([[0x05, 0x80, 0, 0, 0, 0, 0, 0]; 3]);
    assert!(!dev.absorb(&f[..10]));
    assert!(dev.absorb(&f[10..]));
    assert_eq!(dev.targets.len(), 3);
    assert_eq!(dev.get_target(1), Some(&Target::new(-5, 0, 0, 0)));
    assert_eq!(dev.get_target(0), None);
    assert_eq!(dev.get_target(4), None);
    assert!(!dev.absorb(&[0x01, 0x02]));
    assert_eq!(dev.targets.len(), 3);
    dev.mode_changed(false);
    assert!(!dev.multi_mode);
    assert_eq!(dev.buffer.len(), 0);
    dev.set_baud_rate(115200);
    assert_eq!(dev.baud_rate, 115200);
}

#[test]
fn short_marked_frame_leaves_targets() {
    let mut dev = RD03D::new("p".to_string());
    assert!(!dev.absorb(&[0xAA, 0xFF, 0x01, 0x55, 0xCC]));
    assert_eq!(dev.targets.len(), 0);
    assert_eq!(dev.buffer.len(), 0);
}

#[test]
fn buffer_is_capped_before_scanning() {
    let mut dev = RD03D::new("p".to_string());
    let mut old = zero_report();
    old.extend(vec![0u8; 270]);
    dev.buffer.feed(&old);
    assert_eq!(dev.buffer.len(), 300);
    assert!(!dev.absorb(&[0u8; 256]));
    assert_eq!(dev.buffer.len(), 150);
    assert!(dev.targets.is_empty());
}

#[test]
fn frame_in_recent_tail_survives_cap() {
    let mut r = Resynchronizer::new();
    r.feed(&vec![0x01u8; 290]);
    r.feed(&zero_report());
    assert_eq!(r.extract_latest_frame(), Some(zero_report()));
    assert_eq!(r.len(), 0);
}

#[test]
fn chunked_reads_end_like_one_read() {
    let mut stream = vec![0x42, 0x55];
    stream.extend(report([[0x03, 0, 0, 0, 0, 0, 0, 0]; 3]));
    stream.extend([0x00, 0xAA]);
    stream.extend(report([[0x04, 0x80, 0, 0, 0, 0, 0, 0]; 3]));
    stream.extend([0xAA, 0xFF, 0x10]);
    let mut whole = RD03D::new("a".to_string());
    assert!(whole.absorb(&stream));
    for size in 1..12 {
        let mut pieces = RD03D::new("b".to_string());
        for c in stream.chunks(size) {
            pieces.absorb(c);
        }
        assert_eq!(pieces.buffer.pending(), whole.buffer.pending());
        assert_eq!(pieces.targets, whole.targets);
    }
    assert_eq!(whole.buffer.pending(), &[0xAA, 0xFF, 0x10]);
    assert_eq!(whole.get_target(1), Some(&Target::new(-4, 0, 0, 0)));
}
