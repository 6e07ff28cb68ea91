//! The 8-byte bus frame and its codec.
//!
//! Wire layout, bit 7 being the most significant bit of a byte:
//!
//! ```text
//! byte 0: source address
//! byte 1: bit 7 unknown bit, bits 6-0 destination address
//! byte 2: bits 5-4 message type, bit 3 write bit, other bits zero
//! bytes 3-7: payload, whose layout the message type selects
//! ```
//!
//! Status payload:
//!
//! ```text
//! byte 0: bit 7 error flag, bits 6-4 fan mode, bits 3-1 AC mode, bit 0 power
//! byte 1: bit 7 economy flag, bits 6-0 setpoint temperature
//! byte 2: bits 7-4 magic mask, bit 2 swing, bit 1 swing step
//! byte 3: bits 6-1 controller (probe) temperature, bit 0 controller present
//! byte 4: zero
//! ```
//!
//! Login, error and unknown payloads are five opaque bytes.
use vstd::prelude::*;

use crate::fuji_frame::enums::{DestinationAddress, FanMode, FrameACMode, MessageType, PowerStatus};

verus! {

/// 1 for a set flag, 0 for a clear one.
pub open spec fn flag(b: bool) -> int {
    if b {
        1
    } else {
        0
    }
}

fn flag_bit(b: bool) -> (r: u8)
    ensures
        r == flag(b),
{
    if b {
        1
    } else {
        0
    }
}

/// Packing the status fields with shifts and masks gives the bytes that
/// `StatusPayload::spec_encode` states arithmetically.
proof fn lemma_status_bytes(
    e: u8,
    fan: u8,
    mode: u8,
    power: u8,
    eco: u8,
    temp: u8,
    magic: u8,
    swing: u8,
    step: u8,
    probe: u8,
    present: u8,
) by (bit_vector)
    requires
        e <= 1,
        fan < 8,
        mode < 8,
        power <= 1,
        eco <= 1,
        swing <= 1,
        step <= 1,
        present <= 1,
    ensures
        (e << 7u8) | (fan << 4u8) | (mode << 1u8) | power == 128 * e + 16 * fan + 2 * mode + power,
        (eco << 7u8) | (temp & 0x7f) == 128 * eco + temp % 128,
        ((magic & 0x0f) << 4u8) | (swing << 2u8) | (step << 1u8) == 16 * (magic % 16) + 4 * swing
            + 2 * step,
        ((probe & 0x3f) << 1u8) | present == 2 * (probe % 64) + present,
{
}

/// Reading a bit field of a byte with a mask and a shift is division and remainder.
proof fn lemma_byte_fields(b: u8) by (bit_vector)
    ensures
        (b & 0x80 != 0) == (b >= 128),
        (b & 0x70) >> 4u8 == (b / 16) % 8,
        (b & 0x0e) >> 1u8 == (b / 2) % 8,
        (b & 0x01 != 0) == (b % 2 == 1),
        b & 0x7f == b % 128,
        (b & 0xf0) >> 4u8 == b / 16,
        (b & 0x04 != 0) == ((b / 4) % 2 == 1),
        (b & 0x02 != 0) == ((b / 2) % 2 == 1),
        (b & 0x7e) >> 1u8 == (b / 2) % 64,
        (b & 0x30) >> 4u8 == (b / 16) % 4,
        (b & 0x08 != 0) == ((b / 8) % 2 == 1),
{
}

/// Packing the header fields with shifts gives the bytes that
/// `FujiFrame::spec_encode` states arithmetically.
proof fn lemma_header_bytes(unknown: u8, destination: u8, t: u8, write: u8) by (bit_vector)
    requires
        unknown <= 1,
        destination < 128,
        t < 4,
        write <= 1,
    ensures
        (unknown << 7u8) | (destination & 0x7f) == 128 * unknown + destination,
        (t << 4u8) | (write << 3u8) == 16 * t + 8 * write,
{
}

/// Payload of a status frame: the unit's state, or the state a controller asks for.
#[derive(Clone, Copy, Debug, PartialEq, Eq, Structural)]
pub struct StatusPayload {
    pub has_error: bool,
    pub fan_mode: FanMode,
    pub ac_mode: FrameACMode,
    pub power_status: PowerStatus,
    pub economy_mode: bool,
    pub temperature: u8,
    pub swing: bool,
    pub swing_step: bool,
    pub controller_temperature: u8,
    pub controller_present: bool,
    pub magic_mask: u8,
}

impl StatusPayload {
    /// Every field fits its bit width on the wire.
    pub open spec fn wf(self) -> bool {
        &&& self.temperature < 128
        &&& self.magic_mask < 16
        &&& self.controller_temperature < 64
    }

    /// The five payload bytes; a field wider than its slot keeps its low bits.
    pub open spec fn spec_encode(self) -> Seq<u8> {
        seq![
            (128 * flag(self.has_error) + 16 * self.fan_mode.spec_code() + 2
                * self.ac_mode.spec_code() + self.power_status.spec_code()) as u8,
            (128 * flag(self.economy_mode) + self.temperature % 128) as u8,
            (16 * (self.magic_mask % 16) + 4 * flag(self.swing) + 2 * flag(self.swing_step)) as u8,
            (2 * (self.controller_temperature % 64) + flag(self.controller_present)) as u8,
            0u8,
        ]
    }

    /// The payload that five bytes hold; reserved bits are ignored.
    pub open spec fn spec_decode(b: Seq<u8>) -> StatusPayload
        recommends
            b.len() == 5,
    {
        StatusPayload {
            has_error: b[0] >= 128,
            fan_mode: FanMode::spec_from_code(((b[0] / 16) % 8) as u8),
            ac_mode: FrameACMode::spec_from_code(((b[0] / 2) % 8) as u8),
            power_status: if b[0] % 2 == 1 {
                PowerStatus::On
            } else {
                PowerStatus::Off
            },
            economy_mode: b[1] >= 128,
            temperature: (b[1] % 128) as u8,
            magic_mask: (b[2] / 16) as u8,
            swing: (b[2] / 4) % 2 == 1,
            swing_step: (b[2] / 2) % 2 == 1,
            controller_temperature: ((b[3] / 2) % 64) as u8,
            controller_present: b[3] % 2 == 1,
        }
    }

    /// Packs the payload into its five wire bytes.
    pub fn encode(&self) -> (r: [u8; 5])
        ensures
            r@ == self.spec_encode(),
    {
        let e = flag_bit(self.has_error);
        let fan = self.fan_mode.code();
        let mode = self.ac_mode.code();
        let power = self.power_status.code();
        let eco = flag_bit(self.economy_mode);
        let swing = flag_bit(self.swing);
        let step = flag_bit(self.swing_step);
        let present = flag_bit(self.controller_present);
        proof {
            lemma_status_bytes(
                e,
                fan,
                mode,
                power,
                eco,
                self.temperature,
                self.magic_mask,
                swing,
                step,
                self.controller_temperature,
                present,
            );
        }
        let b0: u8 = (e << 7u8) | (fan << 4u8) | (mode << 1u8) | power;
        let b1: u8 = (eco << 7u8) | (self.temperature & 0x7f);
        let b2: u8 = ((self.magic_mask & 0x0f) << 4u8) | (swing << 2u8) | (step << 1u8);
        let b3: u8 = ((self.controller_temperature & 0x3f) << 1u8) | present;
        let r = [b0, b1, b2, b3, 0u8];
        assert(r@ =~= self.spec_encode());
        r
    }

    /// Reads a status payload from its five wire bytes; unknown codes read as `Unknown`.
    pub fn decode(data: &[u8; 5]) -> (r: StatusPayload)
        ensures
            r == StatusPayload::spec_decode(data@),
    {
        let b0 = data[0];
        let b1 = data[1];
        let b2 = data[2];
        let b3 = data[3];
        proof {
            lemma_byte_fields(b0);
            lemma_byte_fields(b1);
            lemma_byte_fields(b2);
            lemma_byte_fields(b3);
        }
        StatusPayload {
            has_error: b0 & 0x80 != 0,
            fan_mode: FanMode::from((b0 & 0x70) >> 4u8),
            ac_mode: FrameACMode::from((b0 & 0x0e) >> 1u8),
            power_status: if b0 & 0x01 != 0 {
                PowerStatus::On
            } else {
                PowerStatus::Off
            },
            economy_mode: b1 & 0x80 != 0,
            temperature: b1 & 0x7f,
            magic_mask: (b2 & 0xf0) >> 4u8,
            swing: b2 & 0x04 != 0,
            swing_step: b2 & 0x02 != 0,
            controller_temperature: (b3 & 0x7e) >> 1u8,
            controller_present: b3 & 0x01 != 0,
        }
    }

    /// Decoding the encoding of a well-formed payload gives it back.
    pub proof fn lemma_round_trip(self)
        requires
            self.wf(),
        ensures
            StatusPayload::spec_decode(self.spec_encode()) == self,
    {
        self.fan_mode.lemma_code_round_trip();
        self.ac_mode.lemma_code_round_trip();
        let b = self.spec_encode();
        assert(b[0] == 128 * flag(self.has_error) + 16 * self.fan_mode.spec_code() + 2
            * self.ac_mode.spec_code() + self.power_status.spec_code());
    }
}

impl StatusPayload {
    /// The payload that `default` gives: all flags clear, all numbers zero.
    pub open spec fn default_value() -> StatusPayload {
        StatusPayload {
            has_error: false,
            fan_mode: FanMode::Auto,
            ac_mode: FrameACMode::Unknown,
            power_status: PowerStatus::Off,
            economy_mode: false,
            temperature: 0,
            swing: false,
            swing_step: false,
            controller_temperature: 0,
            controller_present: false,
            magic_mask: 0,
        }
    }
}

impl Default for StatusPayload {
    fn default() -> (r: StatusPayload)
        ensures
            r == StatusPayload::default_value(),
    {
        StatusPayload {
            has_error: false,
            fan_mode: FanMode::Auto,
            ac_mode: FrameACMode::Unknown,
            power_status: PowerStatus::Off,
            economy_mode: false,
            temperature: 0,
            swing: false,
            swing_step: false,
            controller_temperature: 0,
            controller_present: false,
            magic_mask: 0,
        }
    }
}

/// Payload of a login frame: five bytes whose meaning is not known, kept as they are.
#[derive(Clone, Copy, Debug, PartialEq, Eq)]
pub struct LoginPayload {
    data: [u8; 5],
}

impl View for LoginPayload {
    type V = Seq<u8>;

    closed spec fn view(&self) -> Seq<u8> {
        self.data@
    }
}

impl LoginPayload {
    /// The five bytes, as they are.
    pub fn encode(&self) -> (r: [u8; 5])
        ensures
            r@ == self@,
    {
        self.data
    }

    /// Keeps the five bytes as they are.
    pub fn decode(data: &[u8; 5]) -> (r: LoginPayload)
        ensures
            r@ == data@,
    {
        LoginPayload { data: *data }
    }

    /// A payload is determined by its bytes.
    pub proof fn lemma_view_eq(self, other: LoginPayload)
        requires
            self@ == other@,
        ensures
            self == other,
    {
        assert(self.data =~= other.data);
    }
}

impl LoginPayload {
    /// The payload of five zero bytes, which is what a controller sends.
    pub closed spec fn zeroed() -> LoginPayload {
        LoginPayload { data: [0u8, 0u8, 0u8, 0u8, 0u8] }
    }

    pub proof fn lemma_zeroed_view()
        ensures
            LoginPayload::zeroed()@ == seq![0u8, 0u8, 0u8, 0u8, 0u8],
    {
        assert(LoginPayload::zeroed()@ =~= seq![0u8, 0u8, 0u8, 0u8, 0u8]);
    }
}

impl Default for LoginPayload {
    fn default() -> (r: LoginPayload)
        ensures
            r == LoginPayload::zeroed(),
    {
        let r = LoginPayload { data: [0u8; 5] };
        assert(r.data =~= LoginPayload::zeroed().data);
        r
    }
}

/// Payload of an error frame: five bytes whose meaning is not known, kept as they are.
#[derive(Clone, Copy, Debug, PartialEq, Eq)]
pub struct ErrorPayload {
    data: [u8; 5],
}

impl View for ErrorPayload {
    type V = Seq<u8>;

    closed spec fn view(&self) -> Seq<u8> {
        self.data@
    }
}

impl ErrorPayload {
    /// The five bytes, as they are.
    pub fn encode(&self) -> (r: [u8; 5])
        ensures
            r@ == self@,
    {
        self.data
    }

    /// Keeps the five bytes as they are.
    pub fn decode(data: &[u8; 5]) -> (r: ErrorPayload)
        ensures
            r@ == data@,
    {
        ErrorPayload { data: *data }
    }

    /// A payload is determined by its bytes.
    pub proof fn lemma_view_eq(self, other: ErrorPayload)
        requires
            self@ == other@,
        ensures
            self == other,
    {
        assert(self.data =~= other.data);
    }
}

impl ErrorPayload {
    /// The payload of five zero bytes, which is what a controller sends.
    pub closed spec fn zeroed() -> ErrorPayload {
        ErrorPayload { data: [0u8, 0u8, 0u8, 0u8, 0u8] }
    }

    pub proof fn lemma_zeroed_view()
        ensures
            ErrorPayload::zeroed()@ == seq![0u8, 0u8, 0u8, 0u8, 0u8],
    {
        assert(ErrorPayload::zeroed()@ =~= seq![0u8, 0u8, 0u8, 0u8, 0u8]);
    }
}

impl Default for ErrorPayload {
    fn default() -> (r: ErrorPayload)
        ensures
            r == ErrorPayload::zeroed(),
    {
        let r = ErrorPayload { data: [0u8; 5] };
        assert(r.data =~= ErrorPayload::zeroed().data);
        r
    }
}

/// Payload of a frame of unknown type: five bytes kept as they are.
#[derive(Clone, Copy, Debug, PartialEq, Eq)]
pub struct UnknownPayload {
    data: [u8; 5],
}

impl View for UnknownPayload {
    type V = Seq<u8>;

    closed spec fn view(&self) -> Seq<u8> {
        self.data@
    }
}

impl UnknownPayload {
    /// The five bytes, as they are.
    pub fn encode(&self) -> (r: [u8; 5])
        ensures
            r@ == self@,
    {
        self.data
    }

    /// Keeps the five bytes as they are.
    pub fn decode(data: &[u8; 5]) -> (r: UnknownPayload)
        ensures
            r@ == data@,
    {
        UnknownPayload { data: *data }
    }

    /// A payload is determined by its bytes.
    pub proof fn lemma_view_eq(self, other: UnknownPayload)
        requires
            self@ == other@,
        ensures
            self == other,
    {
        assert(self.data =~= other.data);
    }
}

/// The payload of a frame; its variant is the frame's message type.
#[derive(Clone, Copy, Debug, PartialEq, Eq)]
pub enum FujiPayload {
    Status(StatusPayload),
    Login(LoginPayload),
    Error(ErrorPayload),
    Unknown(UnknownPayload),
}

impl FujiPayload {
    pub open spec fn message_type(self) -> MessageType {
        match self {
            FujiPayload::Status(_) => MessageType::Status,
            FujiPayload::Login(_) => MessageType::Login,
            FujiPayload::Error(_) => MessageType::Error,
            FujiPayload::Unknown(_) => MessageType::Unknown,
        }
    }

    pub open spec fn spec_encode(self) -> Seq<u8> {
        match self {
            FujiPayload::Status(p) => p.spec_encode(),
            FujiPayload::Login(p) => p@,
            FujiPayload::Error(p) => p@,
            FujiPayload::Unknown(p) => p@,
        }
    }

    /// `self` is what the five bytes `b` read as under the message type `t`.
    pub open spec fn is_decoding_of(self, t: MessageType, b: Seq<u8>) -> bool {
        &&& self.message_type() == t
        &&& match self {
            FujiPayload::Status(p) => p == StatusPayload::spec_decode(b),
            FujiPayload::Login(p) => p@ == b,
            FujiPayload::Error(p) => p@ == b,
            FujiPayload::Unknown(p) => p@ == b,
        }
    }

    pub open spec fn wf(self) -> bool {
        self matches FujiPayload::Status(p) ==> p.wf()
    }
}

/// One message on the bus.
#[derive(Clone, Copy, Debug, PartialEq, Eq)]
pub struct FujiFrame {
    pub source: u8,
    pub destination: DestinationAddress,
    pub write_bit: bool,
    pub unknown_bit: bool,
    pub payload: FujiPayload,
}

impl FujiFrame {
    /// Every field fits its bit width on the wire.
    pub open spec fn wf(self) -> bool {
        self.payload.wf()
    }

    /// The eight bytes on the wire.
    pub open spec fn spec_encode(self) -> Seq<u8> {
        seq![
            self.source,
            (128 * flag(self.unknown_bit) + self.destination.spec_code()) as u8,
            (16 * self.payload.message_type().spec_code() + 8 * flag(self.write_bit)) as u8,
        ] + self.payload.spec_encode()
    }

    /// `self` is what the eight bytes `b` read as: address codes without a meaning
    /// read as `Unknown`, reserved bits are ignored, and the message type selects
    /// how the last five bytes are read.
    pub open spec fn is_decoding_of(self, b: Seq<u8>) -> bool {
        &&& self.source == b[0]
        &&& self.destination == DestinationAddress::spec_from_code((b[1] % 128) as u8)
        &&& self.unknown_bit == (b[1] >= 128)
        &&& self.write_bit == ((b[2] / 8) % 2 == 1)
        &&& self.payload.is_decoding_of(
            MessageType::spec_from_code(((b[2] / 16) % 4) as u8),
            b.subrange(3, 8),
        )
    }

    /// The frame that the eight bytes `b` read as (see `decode`, which shows that
    /// there is one, and `lemma_decoding_unique`, which shows that there is only one).
    pub open spec fn spec_decode(b: Seq<u8>) -> FujiFrame {
        choose|f: FujiFrame| f.is_decoding_of(b)
    }

    /// Packs the frame into its eight wire bytes.
    pub fn encode(&self) -> (r: [u8; 8])
        ensures
            r@ == self.spec_encode(),
    {
        let unknown = flag_bit(self.unknown_bit);
        let write = flag_bit(self.write_bit);
        let destination = self.destination.code();
        let message_type: MessageType;
        let payload_data: [u8; 5];
        match self.payload {
            FujiPayload::Status(payload) => {
                message_type = MessageType::Status;
                payload_data = payload.encode();
            },
            FujiPayload::Login(payload) => {
                message_type = MessageType::Login;
                payload_data = payload.encode();
            },
            FujiPayload::Error(payload) => {
                message_type = MessageType::Error;
                payload_data = payload.encode();
            },
            FujiPayload::Unknown(payload) => {
                message_type = MessageType::Unknown;
                payload_data = payload.encode();
            },
        }
        let t = message_type.code();
        proof {
            lemma_header_bytes(unknown, destination, t, write);
        }
        let r = [
            self.source,
            (unknown << 7u8) | (destination & 0x7f),
            (t << 4u8) | (write << 3u8),
            payload_data[0],
            payload_data[1],
            payload_data[2],
            payload_data[3],
            payload_data[4],
        ];
        assert(r@ =~= self.spec_encode());
        r
    }

    /// Reads a frame from eight wire bytes; every input reads as some frame.
    pub fn decode(data: &[u8; 8]) -> (r: FujiFrame)
        ensures
            r.is_decoding_of(data@),
            r == FujiFrame::spec_decode(data@),
    {
        let b1 = data[1];
        let b2 = data[2];
        proof {
            lemma_byte_fields(b1);
            lemma_byte_fields(b2);
        }
        let payload_data: [u8; 5] = [data[3], data[4], data[5], data[6], data[7]];
        assert(payload_data@ =~= data@.subrange(3, 8));
        let payload = match MessageType::from((b2 & 0x30) >> 4u8) {
            MessageType::Status => FujiPayload::Status(StatusPayload::decode(&payload_data)),
            MessageType::Error => FujiPayload::Error(ErrorPayload::decode(&payload_data)),
            MessageType::Login => FujiPayload::Login(LoginPayload::decode(&payload_data)),
            MessageType::Unknown => FujiPayload::Unknown(UnknownPayload::decode(&payload_data)),
        };
        let r = FujiFrame {
            source: data[0],
            destination: DestinationAddress::from(b1 & 0x7f),
            write_bit: b2 & 0x08 != 0,
            unknown_bit: b1 & 0x80 != 0,
            payload,
        };
        proof {
            assert(r.is_decoding_of(data@));
            let chosen = FujiFrame::spec_decode(data@);
            r.lemma_decoding_unique(chosen, data@);
        }
        r
    }

    /// Any two frames that the same eight bytes read as are equal.
    pub proof fn lemma_decoding_unique(self, other: FujiFrame, b: Seq<u8>)
        requires
            self.is_decoding_of(b),
            other.is_decoding_of(b),
        ensures
            self == other,
    {
        match (self.payload, other.payload) {
            (FujiPayload::Login(p), FujiPayload::Login(q)) => p.lemma_view_eq(q),
            (FujiPayload::Error(p), FujiPayload::Error(q)) => p.lemma_view_eq(q),
            (FujiPayload::Unknown(p), FujiPayload::Unknown(q)) => p.lemma_view_eq(q),
            _ => {},
        }
    }

    /// Decoding the encoding of a well-formed frame gives every field back.
    pub proof fn lemma_round_trip(self, decoded: FujiFrame)
        requires
            self.wf(),
            decoded.is_decoding_of(self.spec_encode()),
        ensures
            decoded == self,
    {
        let b = self.spec_encode();
        self.destination.lemma_code_round_trip();
        self.payload.message_type().lemma_code_round_trip();
        assert(b.subrange(3, 8) =~= self.payload.spec_encode());
        assert(b[1] == 128 * flag(self.unknown_bit) + self.destination.spec_code());
        assert(b[2] == 16 * self.payload.message_type().spec_code() + 8 * flag(self.write_bit));
        match self.payload {
            FujiPayload::Status(p) => p.lemma_round_trip(),
            _ => {},
        }
        assert(self.is_decoding_of(b));
        self.lemma_decoding_unique(decoded, b);
    }
}

impl Default for FujiFrame {
    fn default() -> (r: FujiFrame)
        ensures
            r.source == 0,
            r.destination == DestinationAddress::Unknown,
            !r.write_bit,
            !r.unknown_bit,
            r.payload == FujiPayload::Status(StatusPayload::default_value()),
    {
        FujiFrame {
            source: 0,
            destination: DestinationAddress::Unknown,
            write_bit: false,
            unknown_bit: false,
            payload: FujiPayload::Status(StatusPayload::default()),
        }
    }
}

} // verus!
