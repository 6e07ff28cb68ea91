use fuji_heat_pump::fuji_frame::enums::{DestinationAddress, FanMode, FrameACMode, MessageType, PowerStatus};
use fuji_heat_pump::fuji_frame::frame::{
    ErrorPayload, FujiFrame, FujiPayload, LoginPayload, StatusPayload, UnknownPayload,
};

fn sample_status() -> StatusPayload {
    StatusPayload {
        has_error: true,
        fan_mode: FanMode::High,
        ac_mode: FrameACMode::Cool,
        power_status: PowerStatus::On,
        economy_mode: true,
        temperature: 24,
        swing: true,
        swing_step: false,
        controller_temperature: 22,
        controller_present: true,
        magic_mask: 2,
    }
}

#[test]
fn status_payload_encodes_to_layout() {
    // 1 011 011 1, 1 0011000, 0010 0 1 0 0, 0 010110 1, 0
    assert_eq!(sample_status().encode(), [0b1011_0111, 0b1001_1000, 0b0010_0100, 0b0010_1101, 0]);
}

#[test]
fn status_payload_decodes_fields() {
    let p = StatusPayload::decode(&[0b1011_0111, 0b1001_1000, 0b0010_0100, 0b0010_1101, 0xff]);
    assert_eq!(p, sample_status());
}

#[test]
fn status_payload_decodes_swing_step_and_mask() {
    let p = StatusPayload::decode(&[0b0100_1010, 0b0111_1111, 0b1111_0010, 0b1111_1110, 0]);
    assert!(!p.has_error);
    assert_eq!(p.fan_mode, FanMode::Max);
    assert_eq!(p.ac_mode, FrameACMode::Auto);
    assert_eq!(p.power_status, PowerStatus::Off);
    assert!(!p.economy_mode);
    assert_eq!(p.temperature, 127);
    assert_eq!(p.magic_mask, 15);
    assert!(!p.swing);
    assert!(p.swing_step);
    assert_eq!(p.controller_temperature, 63);
    assert!(!p.controller_present);
}

#[test]
fn unknown_codes_decode_to_unknown() {
    // fan code 7, AC mode code 7
    let p = StatusPayload::decode(&[0b0111_1110, 0, 0, 0, 0]);
    assert_eq!(p.fan_mode, FanMode::Unknown);
    assert_eq!(p.ac_mode, FrameACMode::Unknown);
    // fan code 6, AC mode code 6
    let p = StatusPayload::decode(&[0b0110_1100, 0, 0, 0, 0]);
    assert_eq!(p.fan_mode, FanMode::Unknown);
    assert_eq!(p.ac_mode, FrameACMode::Unknown);
    let f = FujiFrame::decode(&[7, 5, 0, 0, 0, 0, 0, 0]);
    assert_eq!(f.destination, DestinationAddress::Unknown);
}

#[test]
fn code_conversions() {
    assert_eq!(DestinationAddress::from(1), DestinationAddress::Unit);
    assert_eq!(DestinationAddress::from(32), DestinationAddress::PrimaryController);
    assert_eq!(DestinationAddress::from(33), DestinationAddress::SecondaryController);
    assert_eq!(DestinationAddress::from(34), DestinationAddress::Unknown);
    assert_eq!(DestinationAddress::SecondaryController.code(), 33);
    assert_eq!(MessageType::from(2), MessageType::Login);
    assert_eq!(MessageType::from(9), MessageType::Unknown);
    assert_eq!(MessageType::Error.code(), 1);
    assert_eq!(FrameACMode::from(4), FrameACMode::Heat);
    assert_eq!(FrameACMode::from(200), FrameACMode::Unknown);
    assert_eq!(FrameACMode::Dry.code(), 2);
    assert_eq!(FanMode::from(2), FanMode::Medium);
    assert_eq!(FanMode::from(5), FanMode::Unknown);
    assert_eq!(FanMode::Unknown.code(), 5);
    assert_eq!(PowerStatus::On.code(), 1);
}

#[test]
fn wide_fields_keep_their_low_bits() {
    let p = StatusPayload {
        temperature: 200,
        magic_mask: 0x12,
        controller_temperature: 100,
        ..StatusPayload::default()
    };
    let b = p.encode();
    // economy bit stays clear, 200 % 128 = 72
    assert_eq!(b[1], 72);
    assert_eq!(b[2], 0x20);
    // 100 % 64 = 36
    assert_eq!(b[3], 72);
}

#[test]
fn status_frame_encodes_header() {
    let f = FujiFrame {
        source: 1,
        destination: DestinationAddress::PrimaryController,
        write_bit: true,
        unknown_bit: true,
        payload: FujiPayload::Status(sample_status()),
    };
    let b = f.encode();
    assert_eq!(b, [1, 0xa0, 0x08, 0b1011_0111, 0b1001_1000, 0b0010_0100, 0b0010_1101, 0]);
}

#[test]
fn frame_decodes_header_and_ignores_reserved_bits() {
    let f = FujiFrame::decode(&[33, 0x01, 0b1110_0111, 1, 2, 3, 4, 5]);
    assert_eq!(f.source, 33);
    assert_eq!(f.destination, DestinationAddress::Unit);
    assert!(!f.unknown_bit);
    assert!(!f.write_bit);
    match f.payload {
        FujiPayload::Login(p) => assert_eq!(p.encode(), [1, 2, 3, 4, 5]),
        _ => panic!("expected a login payload"),
    }
}

#[test]
fn opaque_payloads_pass_through() {
    let error = FujiFrame::decode(&[1, 32, 0x10, 9, 8, 7, 6, 5]);
    match error.payload {
        FujiPayload::Error(p) => assert_eq!(p.encode(), [9, 8, 7, 6, 5]),
        _ => panic!("expected an error payload"),
    }
    assert_eq!(error.encode(), [1, 32, 0x10, 9, 8, 7, 6, 5]);
    let unknown = FujiFrame::decode(&[1, 33, 0x38, 0xff, 0, 0xff, 0, 0x42]);
    assert!(unknown.write_bit);
    match unknown.payload {
        FujiPayload::Unknown(p) => assert_eq!(p.encode(), [0xff, 0, 0xff, 0, 0x42]),
        _ => panic!("expected an unknown payload"),
    }
    assert_eq!(unknown.encode(), [1, 33, 0x38, 0xff, 0, 0xff, 0, 0x42]);
}

#[test]
fn round_trip_every_payload_kind() {
    let frames = [
        FujiFrame {
            source: 32,
            destination: DestinationAddress::Unit,
            write_bit: true,
            unknown_bit: false,
            payload: FujiPayload::Status(sample_status()),
        },
        FujiFrame {
            source: 33,
            destination: DestinationAddress::SecondaryController,
            write_bit: false,
            unknown_bit: true,
            payload: FujiPayload::Login(LoginPayload::decode(&[1, 2, 3, 4, 5])),
        },
        FujiFrame {
            source: 200,
            destination: DestinationAddress::Unknown,
            write_bit: true,
            unknown_bit: true,
            payload: FujiPayload::Error(ErrorPayload::decode(&[0xff, 0xfe, 0xfd, 0xfc, 0xfb])),
        },
        FujiFrame {
            source: 0,
            destination: DestinationAddress::PrimaryController,
            write_bit: false,
            unknown_bit: false,
            payload: FujiPayload::Unknown(UnknownPayload::decode(&[0, 1, 0, 1, 0])),
        },
    ];
    for f in frames.iter() {
        assert_eq!(FujiFrame::decode(&f.encode()), *f);
    }
}

#[test]
fn defaults() {
    let p = StatusPayload::default();
    assert_eq!(p.encode(), [0, 0, 0, 0, 0]);
    assert_eq!(LoginPayload::default().encode(), [0; 5]);
    assert_eq!(ErrorPayload::default().encode(), [0; 5]);
    let f = FujiFrame::default();
    assert_eq!(f.encode(), [0; 8]);
    assert_eq!(f.payload, FujiPayload::Status(p));
}
