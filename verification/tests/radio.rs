//! Radio-side behaviour: wire-frame decoding, stick normalization, and the
//! failsafe policy.

use flightcore::rc::{RcAction, RcData};
use flightcore::sbus;

/// The reference frame from the wire-protocol documentation: 16 known
/// channel values, no flags set.
const SAMPLE_FRAME: [u8; 25] = [
    0x0F, 0xE0, 0x03, 0x1F, 0x58, 0xC0, 0x07, 0x16, 0xB0, 0x80, 0x05, 0x2C, 0x60, 0x01, 0x0B,
    0xF8, 0xC0, 0x07, 0x00, 0x00, 0x00, 0x00, 0x00, 0x03, 0x00,
];

/// The sample frame's channels under the protocol's 11-bit little-endian
/// packing: centered flight sticks, low throttle, switches parked.
const SAMPLE_CHANNELS: [u16; 16] = [
    992, 992, 352, 992, 352, 352, 352, 352, 352, 352, 992, 992, 0, 0, 0, 0,
];

/// Packs 16 11-bit channel values into a 25-byte frame (header, 22 data
/// bytes little-endian bit order, flags byte, footer).
fn build_frame(channels: [u16; 16], flags: u8) -> [u8; 25] {
    let mut frame = [0u8; 25];
    frame[0] = 0x0F;
    for i in 0..16 {
        let v = channels[i] & 0x7FF;
        for t in 0..11 {
            let k = 11 * i + t;
            if (v >> t) & 1 == 1 {
                frame[1 + k / 8] |= 1 << (k % 8);
            }
        }
    }
    frame[23] = flags;
    frame[24] = 0x00;
    frame
}

#[test]
fn decode_sample_frame() {
    let data = sbus::decode_frame(&SAMPLE_FRAME).expect("valid frame");
    assert_eq!(data.channels, SAMPLE_CHANNELS);
    assert!(!data.channel17);
    assert!(!data.channel18);
    assert!(!data.frame_lost);
    assert!(!data.failsafe);
}

#[test]
fn decode_matches_reference_parser() {
    // The reference crate unpacks through 16-bit words with a carry
    // accumulator and drifts from the protocol's continuous bit stream
    // beyond the flight axes, so the comparison covers the four flight
    // channels and the flags byte.
    let mut reference = sbus_parser::receiver::Receiver::new();
    let expected = reference.receive(&SAMPLE_FRAME).expect("reference accepts the frame");
    let data = sbus::decode_frame(&SAMPLE_FRAME).expect("valid frame");
    assert_eq!(data.channels[..4], expected.channels[..4]);
    assert_eq!(data.channel17, expected.channel17);
    assert_eq!(data.channel18, expected.channel18);
    assert_eq!(data.frame_lost, expected.frame_lost);
    assert_eq!(data.failsafe, expected.failsafe);
}

#[test]
fn decode_round_trip_built_frame() {
    let channels: [u16; 16] = [
        240, 1807, 1023, 512, 0, 2047, 1500, 1499, 1, 2, 3, 4, 5, 6, 7, 8,
    ];
    let frame = build_frame(channels, 0b1011_0000);
    let mut reference = sbus_parser::receiver::Receiver::new();
    let expected = reference.receive(&frame).expect("reference accepts the frame");
    let data = sbus::decode_frame(&frame).expect("valid frame");
    assert_eq!(data.channels, channels);
    assert_eq!(data.channels[..4], expected.channels[..4]);
    assert!(data.channel17);
    assert!(!data.channel18);
    assert!(data.frame_lost);
    assert!(data.failsafe);
    assert_eq!(data.failsafe, expected.failsafe);
}

#[test]
fn decode_rejects_bad_header() {
    let mut frame = SAMPLE_FRAME;
    frame[0] = 0x0E;
    assert!(sbus::decode_frame(&frame).is_none());
}

#[test]
fn decode_rejects_bad_footer() {
    let mut frame = SAMPLE_FRAME;
    frame[24] = 0x01;
    assert!(sbus::decode_frame(&frame).is_none());
}

#[test]
fn decode_accepts_telemetry_footers() {
    for footer in [0x00u8, 0x04, 0x14, 0x24, 0x34] {
        let mut frame = SAMPLE_FRAME;
        frame[24] = footer;
        assert!(sbus::decode_frame(&frame).is_some(), "footer {footer:#x}");
    }
}

#[test]
fn normalize_hits_endpoints() {
    assert_eq!(RcData::normalize(240, 240, 1807, -1_000_000, 1_000_000), -1_000_000);
    assert_eq!(RcData::normalize(1807, 240, 1807, -1_000_000, 1_000_000), 1_000_000);
    assert_eq!(RcData::normalize(240, 240, 1807, 0, 1_000_000), 0);
    assert_eq!(RcData::normalize(1807, 240, 1807, 0, 1_000_000), 1_000_000);
}

#[test]
fn normalize_is_linear_inside_the_window() {
    // An even window maps its midpoint to the exact middle of the range.
    assert_eq!(RcData::normalize(620, 240, 1000, 0, 1_000_000), 500_000);
    assert_eq!(RcData::normalize(620, 240, 1000, -1_000_000, 1_000_000), 0);
    // Interior points follow the linear formula with truncating division.
    let val: u16 = 1023;
    let expected = -1_000_000i64 + 2_000_000i64 * (val as i64 - 240) / 1567;
    assert_eq!(RcData::normalize(val, 240, 1807, -1_000_000, 1_000_000), expected);
}

#[test]
fn normalize_extrapolates_outside_the_window() {
    // Values beyond the raw window keep following the line, unclamped.
    let below = RcData::normalize(100, 240, 1807, 0, 1_000_000);
    assert!(below < 0);
    let above = RcData::normalize(2100, 240, 1807, 0, 1_000_000);
    assert!(above > 1_000_000);
}

#[test]
fn stick_accessors_read_their_channels() {
    let mut channels = [992u16; 16];
    channels[0] = 240; // roll low
    channels[1] = 1807; // pitch high
    channels[2] = 240; // throttle low
    channels[3] = 1807; // yaw high
    let rc = RcData::from_channels(channels);
    assert_eq!(rc.roll(), -1_000_000);
    assert_eq!(rc.pitch(), 1_000_000);
    assert_eq!(rc.throttle(), 0);
    assert_eq!(rc.yaw(), 1_000_000);
    assert_eq!(rc.swd(), 992);
    assert!(!rc.is_failsafe());
}

#[test]
fn failsafe_switch_threshold() {
    let mut channels = [992u16; 16];
    channels[6] = 1499;
    assert!(!RcData::from_channels(channels).is_failsafe());
    channels[6] = 1500;
    assert!(RcData::from_channels(channels).is_failsafe());
    channels[6] = 2047;
    assert!(RcData::from_channels(channels).is_failsafe());
}

#[test]
fn producer_publishes_good_frames() {
    let mut channels = [992u16; 16];
    channels[6] = 100;
    let frame = build_frame(channels, 0);
    match flightcore::rc::rc_frame_step(Some(&frame)) {
        RcAction::Publish(rc) => {
            assert_eq!(rc.0, channels);
        }
        RcAction::Clear => panic!("a good frame must be published"),
    }
}

#[test]
fn producer_clears_on_failsafe_frame() {
    let mut channels = [992u16; 16];
    channels[6] = 1500;
    let frame = build_frame(channels, 0);
    assert!(matches!(flightcore::rc::rc_frame_step(Some(&frame)), RcAction::Clear));
}

#[test]
fn producer_clears_on_timeout_and_bad_frame() {
    assert!(matches!(flightcore::rc::rc_frame_step(None), RcAction::Clear));
    let mut frame = build_frame([992u16; 16], 0);
    frame[0] = 0;
    assert!(matches!(flightcore::rc::rc_frame_step(Some(&frame)), RcAction::Clear));
}
