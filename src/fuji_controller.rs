//! The emulated wired controller: its settings, and how it answers the unit's polls.
use vstd::prelude::*;

use crate::fuji_frame::enums::{DestinationAddress, FanMode, FrameACMode, PowerStatus};
use crate::fuji_frame::frame::{ErrorPayload, FujiFrame, FujiPayload, LoginPayload, StatusPayload};

verus! {

/// Lowest setpoint temperature a controller accepts.
pub const MIN_SETPOINT_TEMPERATURE: u8 = 16;

/// Highest setpoint temperature a controller accepts.
pub const MAX_SETPOINT_TEMPERATURE: u8 = 29;

/// Which wired-controller slot is emulated.
#[derive(Clone, Copy, Debug, PartialEq, Eq, Structural)]
pub enum ControllerType {
    Primary,
    Secondary,
}

impl ControllerType {
    /// The bus address of the slot.
    pub open spec fn spec_code(self) -> u8 {
        match self {
            ControllerType::Primary => 32,
            ControllerType::Secondary => 33,
        }
    }

    pub fn code(self) -> (r: u8)
        ensures
            r == self.spec_code(),
    {
        match self {
            ControllerType::Primary => 32,
            ControllerType::Secondary => 33,
        }
    }
}

/// Operating mode a user asks for; `Off` switches the unit off and keeps its mode.
#[derive(Clone, Copy, Debug, PartialEq, Eq, Structural)]
pub enum ACMode {
    Off,
    Fan,
    Dry,
    Cool,
    Heat,
    Auto,
}

/// The (power, mode) pair that asking for `mode` gives, from the mode `current`.
pub open spec fn mode_outcome(mode: ACMode, current: FrameACMode) -> (PowerStatus, FrameACMode) {
    match mode {
        ACMode::Off => (PowerStatus::Off, current),
        ACMode::Fan => (PowerStatus::On, FrameACMode::Fan),
        ACMode::Dry => (PowerStatus::On, FrameACMode::Dry),
        ACMode::Cool => (PowerStatus::On, FrameACMode::Cool),
        ACMode::Heat => (PowerStatus::On, FrameACMode::Heat),
        ACMode::Auto => (PowerStatus::On, FrameACMode::Auto),
    }
}

/// A serial line to the bus, with a read timeout set by whoever opened it.
pub trait FujiUartDriver<E> {
    /// Writes one frame; returns the number of bytes written.
    fn send_frame(&mut self, frame: &[u8; 8]) -> Result<usize, E>;

    /// Reads what arrives before the timeout; returns the number of bytes read.
    fn read_frame(&mut self, buf: &mut [u8]) -> Result<usize, E>;
}

/// What a controller holds: its role, the settings it asks the unit for, and the
/// last status the unit sent it.
#[derive(Clone, Copy, Debug, PartialEq, Eq, Structural)]
pub struct ControllerState {
    pub controller_type: ControllerType,
    pub ac_status: StatusPayload,
    pub setpoint_temperature: u8,
    pub ac_mode: FrameACMode,
    pub power_status: PowerStatus,
    pub fan_mode: FanMode,
    pub economy_mode: bool,
    pub probe_temperature: Option<u8>,
}

impl ControllerState {
    pub open spec fn wf(self) -> bool {
        MIN_SETPOINT_TEMPERATURE <= self.setpoint_temperature <= MAX_SETPOINT_TEMPERATURE
    }

    /// The state of a new controller: setpoint 20, mode Auto, power on, fan Auto,
    /// economy off, no probe reading.
    pub open spec fn initial(controller_type: ControllerType) -> ControllerState {
        ControllerState {
            controller_type,
            ac_status: StatusPayload::default_value(),
            setpoint_temperature: 20,
            ac_mode: FrameACMode::Auto,
            power_status: PowerStatus::On,
            fan_mode: FanMode::Auto,
            economy_mode: false,
            probe_temperature: None,
        }
    }

    /// The frame is addressed to this controller's slot.
    pub open spec fn accepts(self, frame: FujiFrame) -> bool {
        frame.destination.spec_code() == self.controller_type.spec_code()
    }

    /// The header every frame of this controller has: from its slot, to the unit.
    pub open spec fn base_frame(self) -> FujiFrame {
        FujiFrame {
            source: self.controller_type.spec_code(),
            destination: DestinationAddress::Unit,
            write_bit: false,
            unknown_bit: false,
            payload: FujiPayload::Status(StatusPayload::default_value()),
        }
    }

    /// The frame by which the primary controller logs in on the bus.
    pub open spec fn login_frame(self) -> FujiFrame {
        FujiFrame {
            unknown_bit: true,
            payload: FujiPayload::Login(LoginPayload::zeroed()),
            ..self.base_frame()
        }
    }

    /// The frame by which the secondary controller announces itself.
    pub open spec fn announce_frame(self) -> FujiFrame {
        FujiFrame {
            unknown_bit: true,
            payload: FujiPayload::Status(
                StatusPayload { controller_present: true, magic_mask: 2, ..StatusPayload::default_value() },
            ),
            ..self.base_frame()
        }
    }

    /// The frame that asks the unit for its error.
    pub open spec fn error_query_frame(self) -> FujiFrame {
        FujiFrame { payload: FujiPayload::Error(ErrorPayload::zeroed()), ..self.base_frame() }
    }

    /// The status this controller asks the unit for.
    pub open spec fn status_payload(self) -> StatusPayload {
        StatusPayload {
            has_error: false,
            fan_mode: self.fan_mode,
            ac_mode: self.ac_mode,
            power_status: self.power_status,
            economy_mode: self.economy_mode,
            temperature: self.setpoint_temperature,
            swing: false,
            swing_step: false,
            controller_temperature: match self.probe_temperature {
                Some(t) => t,
                None => 0,
            },
            controller_present: true,
            magic_mask: 0,
        }
    }

    /// The frame that writes this controller's settings to the unit.
    pub open spec fn status_frame(self) -> FujiFrame {
        FujiFrame {
            write_bit: true,
            payload: FujiPayload::Status(self.status_payload()),
            ..self.base_frame()
        }
    }

    /// The answer to an inbound frame, if any.
    pub open spec fn reply(self, frame: FujiFrame) -> Option<FujiFrame> {
        if !self.accepts(frame) {
            None
        } else {
            match frame.payload {
                FujiPayload::Status(p) => {
                    if !p.controller_present {
                        match self.controller_type {
                            ControllerType::Primary => Some(self.login_frame()),
                            ControllerType::Secondary => Some(self.announce_frame()),
                        }
                    } else if p.has_error {
                        Some(self.error_query_frame())
                    } else {
                        Some(self.status_frame())
                    }
                },
                _ => None,
            }
        }
    }

    /// The state after an inbound frame: a status addressed to this controller is
    /// kept as the unit's last status; anything else changes nothing.
    pub open spec fn after_receiving(self, frame: FujiFrame) -> ControllerState {
        match frame.payload {
            FujiPayload::Status(p) => {
                if self.accepts(frame) {
                    ControllerState { ac_status: p, ..self }
                } else {
                    self
                }
            },
            _ => self,
        }
    }
}

/// An emulated wired controller.
pub struct FujiController {
    state: ControllerState,
}

impl View for FujiController {
    type V = ControllerState;

    closed spec fn view(&self) -> ControllerState {
        self.state
    }
}

impl FujiController {
    #[verifier::type_invariant]
    closed spec fn inv(self) -> bool {
        self.state.wf()
    }

    /// A snapshot of what the controller holds.
    pub fn state(&self) -> (r: ControllerState)
        ensures
            r == self@,
            r.wf(),
    {
        proof {
            use_type_invariant(self);
        }
        self.state
    }

    pub fn new(controller_type: ControllerType) -> (r: FujiController)
        ensures
            r@ == ControllerState::initial(controller_type),
    {
        FujiController {
            state: ControllerState {
                controller_type,
                ac_status: StatusPayload::default(),
                setpoint_temperature: 20,
                ac_mode: FrameACMode::Auto,
                power_status: PowerStatus::On,
                fan_mode: FanMode::Auto,
                economy_mode: false,
                probe_temperature: None,
            },
        }
    }

    pub fn set_mode(&mut self, mode: ACMode)
        ensures
            (final(self)@.power_status, final(self)@.ac_mode) == mode_outcome(
                mode,
                old(self)@.ac_mode,
            ),
            final(self)@ == (ControllerState {
                power_status: final(self)@.power_status,
                ac_mode: final(self)@.ac_mode,
                ..old(self)@
            }),
    {
        proof {
            use_type_invariant(&*self);
        }
        match mode {
            ACMode::Off => {
                self.state.power_status = PowerStatus::Off;
            },
            ACMode::Fan => {
                self.state.power_status = PowerStatus::On;
                self.state.ac_mode = FrameACMode::Fan;
            },
            ACMode::Dry => {
                self.state.power_status = PowerStatus::On;
                self.state.ac_mode = FrameACMode::Dry;
            },
            ACMode::Cool => {
                self.state.power_status = PowerStatus::On;
                self.state.ac_mode = FrameACMode::Cool;
            },
            ACMode::Heat => {
                self.state.power_status = PowerStatus::On;
                self.state.ac_mode = FrameACMode::Heat;
            },
            ACMode::Auto => {
                self.state.power_status = PowerStatus::On;
                self.state.ac_mode = FrameACMode::Auto;
            },
        }
    }

    pub fn set_fan_mode(&mut self, mode: FanMode)
        ensures
            final(self)@ == (ControllerState { fan_mode: mode, ..old(self)@ }),
    {
        proof {
            use_type_invariant(&*self);
        }
        self.state.fan_mode = mode;
    }

    pub fn set_economy_mode(&mut self, enabled: bool)
        ensures
            final(self)@ == (ControllerState { economy_mode: enabled, ..old(self)@ }),
    {
        proof {
            use_type_invariant(&*self);
        }
        self.state.economy_mode = enabled;
    }

    /// Takes a setpoint within the accepted range; ignores any other.
    pub fn set_setpoint_temperature(&mut self, temperature: u8)
        ensures
            MIN_SETPOINT_TEMPERATURE <= temperature <= MAX_SETPOINT_TEMPERATURE ==> final(self)@ == (
            ControllerState { setpoint_temperature: temperature, ..old(self)@ }),
            !(MIN_SETPOINT_TEMPERATURE <= temperature <= MAX_SETPOINT_TEMPERATURE) ==> final(self)@
                == old(self)@,
    {
        proof {
            use_type_invariant(&*self);
        }
        if temperature >= MIN_SETPOINT_TEMPERATURE && temperature <= MAX_SETPOINT_TEMPERATURE {
            self.state.setpoint_temperature = temperature;
        }
    }

    pub fn set_probe_temperature(&mut self, temperature: u8)
        ensures
            final(self)@ == (ControllerState { probe_temperature: Some(temperature), ..old(self)@ }),
    {
        proof {
            use_type_invariant(&*self);
        }
        self.state.probe_temperature = Some(temperature);
    }

    /// Answers one inbound frame. A status addressed to this controller is kept
    /// as the unit's last status and answered: by logging in (primary) or
    /// announcing itself (secondary) while the unit reports no controller, by
    /// asking for the error while the unit reports one, and else by writing
    /// this controller's settings. Anything else is left unanswered.
    pub fn handle_incoming_frame(&mut self, frame: FujiFrame) -> (r: Option<FujiFrame>)
        ensures
            r == old(self)@.reply(frame),
            final(self)@ == old(self)@.after_receiving(frame),
    {
        proof {
            use_type_invariant(&*self);
        }
        if frame.destination.code() != self.state.controller_type.code() {
            return None;
        }
        match frame.payload {
            FujiPayload::Status(payload) => {
                self.state.ac_status = payload;
                if !payload.controller_present {
                    match self.state.controller_type {
                        ControllerType::Primary => Some(self.send_logged_in_frame()),
                        ControllerType::Secondary => Some(self.send_secondary_frame()),
                    }
                } else if payload.has_error {
                    Some(self.send_error_query())
                } else {
                    Some(self.make_status_frame())
                }
            },
            FujiPayload::Login(_) => None,
            FujiPayload::Error(_) => None,
            FujiPayload::Unknown(_) => None,
        }
    }

    /// Decides one cycle of the bus loop from what a bounded read brought:
    /// `received` is the number of bytes read into `buf`, or `None` when the
    /// read failed. Exactly eight bytes are decoded and answered; anything else
    /// is nothing this cycle. Returns the bytes to send, if any.
    pub fn handle_received(&mut self, received: Option<usize>, buf: &[u8; 8]) -> (r: Option<[u8; 8]>)
        ensures
            received != Some(8usize) ==> r is None && final(self)@ == old(self)@,
            received == Some(8usize) ==> {
                let frame = FujiFrame::spec_decode(buf@);
                &&& final(self)@ == old(self)@.after_receiving(frame)
                &&& match old(self)@.reply(frame) {
                    Some(reply) => r matches Some(bytes) && bytes@ == reply.spec_encode(),
                    None => r is None,
                }
            },
    {
        match received {
            Some(n) => {
                if n != 8 {
                    return None;
                }
            },
            None => {
                return None;
            },
        }
        let frame = FujiFrame::decode(buf);
        match self.handle_incoming_frame(frame) {
            Some(reply) => Some(reply.encode()),
            None => None,
        }
    }

    fn make_frame(&self) -> (r: FujiFrame)
        ensures
            r == self@.base_frame(),
    {
        FujiFrame {
            source: self.state.controller_type.code(),
            destination: DestinationAddress::Unit,
            write_bit: false,
            unknown_bit: false,
            payload: FujiPayload::Status(StatusPayload::default()),
        }
    }

    fn send_logged_in_frame(&self) -> (r: FujiFrame)
        ensures
            r == self@.login_frame(),
    {
        FujiFrame {
            unknown_bit: true,
            payload: FujiPayload::Login(LoginPayload::default()),
            ..self.make_frame()
        }
    }

    fn send_secondary_frame(&self) -> (r: FujiFrame)
        ensures
            r == self@.announce_frame(),
    {
        FujiFrame {
            unknown_bit: true,
            payload: FujiPayload::Status(
                StatusPayload { controller_present: true, magic_mask: 2, ..StatusPayload::default() },
            ),
            ..self.make_frame()
        }
    }

    fn send_error_query(&self) -> (r: FujiFrame)
        ensures
            r == self@.error_query_frame(),
    {
        FujiFrame { payload: FujiPayload::Error(ErrorPayload::default()), ..self.make_frame() }
    }

    fn make_status_frame(&self) -> (r: FujiFrame)
        ensures
            r == self@.status_frame(),
    {
        let probe = match self.state.probe_temperature {
            Some(t) => t,
            None => 0,
        };
        let payload = StatusPayload {
            has_error: false,
            fan_mode: self.state.fan_mode,
            ac_mode: self.state.ac_mode,
            power_status: self.state.power_status,
            economy_mode: self.state.economy_mode,
            temperature: self.state.setpoint_temperature,
            swing: false,
            swing_step: false,
            controller_temperature: probe,
            controller_present: true,
            magic_mask: 0,
        };
        FujiFrame { write_bit: true, payload: FujiPayload::Status(payload), ..self.make_frame() }
    }
}

/// A frame addressed to another slot changes nothing and is not answered,
/// whatever its payload.
pub proof fn lemma_foreign_frame_ignored(state: ControllerState, frame: FujiFrame)
    requires
        !state.accepts(frame),
    ensures
        state.reply(frame) is None,
        state.after_receiving(frame) == state,
{
}

/// While the unit reports no controller in a slot, the primary controller
/// answers with a login frame to the unit, and the secondary one with a status
/// frame that reports a controller present with magic mask 2.
pub proof fn lemma_handshake(state: ControllerState, frame: FujiFrame)
    requires
        state.accepts(frame),
        frame.payload matches FujiPayload::Status(p) && !p.controller_present,
    ensures
        state.reply(frame) is Some,
        state.controller_type == ControllerType::Primary ==> {
            let f = state.reply(frame)->0;
            &&& f.payload is Login
            &&& f.unknown_bit
            &&& f.destination == DestinationAddress::Unit
        },
        state.controller_type == ControllerType::Secondary ==> {
            let f = state.reply(frame)->0;
            &&& f.payload is Status
            &&& f.payload->Status_0.controller_present
            &&& f.payload->Status_0.magic_mask == 2
        },
{
}

/// A status that reports both a controller and an error is answered, in either
/// role, by an error frame.
pub proof fn lemma_error_query(state: ControllerState, frame: FujiFrame)
    requires
        state.accepts(frame),
        frame.payload matches FujiPayload::Status(p) && p.controller_present && p.has_error,
    ensures
        state.reply(frame) is Some,
        state.reply(frame)->0.payload is Error,
{
}

/// A status that reports a controller and no error is answered by a status frame
/// with the write bit set, magic mask 0, and the fan mode, mode, power and
/// setpoint that the controller holds.
pub proof fn lemma_status_echo(state: ControllerState, frame: FujiFrame)
    requires
        state.accepts(frame),
        frame.payload matches FujiPayload::Status(p) && p.controller_present && !p.has_error,
    ensures
        state.reply(frame) is Some,
        ({
            let f = state.reply(frame)->0;
            &&& f.write_bit
            &&& f.payload is Status
            &&& f.payload->Status_0.fan_mode == state.fan_mode
            &&& f.payload->Status_0.ac_mode == state.ac_mode
            &&& f.payload->Status_0.power_status == state.power_status
            &&& f.payload->Status_0.temperature == state.setpoint_temperature
            &&& f.payload->Status_0.magic_mask == 0
        }),
{
}

} // verus!
