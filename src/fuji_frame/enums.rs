//! Field enumerations of a bus frame and their numeric wire codes.
use vstd::prelude::*;

verus! {

/// Addressee of a frame (low 7 bits of the second byte).
#[derive(Clone, Copy, Debug, PartialEq, Eq, Structural)]
pub enum DestinationAddress {
    Unknown,
    Unit,
    PrimaryController,
    SecondaryController,
}

impl DestinationAddress {
    pub open spec fn spec_code(self) -> u8 {
        match self {
            DestinationAddress::Unknown => 0,
            DestinationAddress::Unit => 1,
            DestinationAddress::PrimaryController => 32,
            DestinationAddress::SecondaryController => 33,
        }
    }

    /// Reads a wire code; codes without a meaning read as `Unknown`.
    pub open spec fn spec_from_code(value: u8) -> DestinationAddress {
        if value == 1 {
            DestinationAddress::Unit
        } else if value == 32 {
            DestinationAddress::PrimaryController
        } else if value == 33 {
            DestinationAddress::SecondaryController
        } else {
            DestinationAddress::Unknown
        }
    }

    /// The wire code of this address.
    pub fn code(self) -> (r: u8)
        ensures
            r == self.spec_code(),
    {
        match self {
            DestinationAddress::Unknown => 0,
            DestinationAddress::Unit => 1,
            DestinationAddress::PrimaryController => 32,
            DestinationAddress::SecondaryController => 33,
        }
    }

    pub proof fn lemma_code_round_trip(self)
        ensures
            DestinationAddress::spec_from_code(self.spec_code()) == self,
            self.spec_code() < 128,
    {
    }
}

impl From<u8> for DestinationAddress {
    fn from(value: u8) -> (r: DestinationAddress) {
        match value {
            0 => DestinationAddress::Unknown,
            1 => DestinationAddress::Unit,
            32 => DestinationAddress::PrimaryController,
            33 => DestinationAddress::SecondaryController,
            _ => DestinationAddress::Unknown,
        }
    }
}

impl vstd::std_specs::convert::FromSpecImpl<u8> for DestinationAddress {
    open spec fn obeys_from_spec() -> bool {
        true
    }

    open spec fn from_spec(v: u8) -> DestinationAddress {
        DestinationAddress::spec_from_code(v)
    }
}

/// Kind of a frame, which selects the layout of its payload.
#[derive(Clone, Copy, Debug, PartialEq, Eq, Structural)]
pub enum MessageType {
    Status,
    Error,
    Login,
    Unknown,
}

impl MessageType {
    pub open spec fn spec_code(self) -> u8 {
        match self {
            MessageType::Status => 0,
            MessageType::Error => 1,
            MessageType::Login => 2,
            MessageType::Unknown => 3,
        }
    }

    pub open spec fn spec_from_code(value: u8) -> MessageType {
        if value == 0 {
            MessageType::Status
        } else if value == 1 {
            MessageType::Error
        } else if value == 2 {
            MessageType::Login
        } else {
            MessageType::Unknown
        }
    }

    pub fn code(self) -> (r: u8)
        ensures
            r == self.spec_code(),
    {
        match self {
            MessageType::Status => 0,
            MessageType::Error => 1,
            MessageType::Login => 2,
            MessageType::Unknown => 3,
        }
    }

    pub proof fn lemma_code_round_trip(self)
        ensures
            MessageType::spec_from_code(self.spec_code()) == self,
            self.spec_code() < 4,
    {
    }
}

impl From<u8> for MessageType {
    fn from(value: u8) -> (r: MessageType) {
        match value {
            0 => MessageType::Status,
            1 => MessageType::Error,
            2 => MessageType::Login,
            3 => MessageType::Unknown,
            _ => MessageType::Unknown,
        }
    }
}

impl vstd::std_specs::convert::FromSpecImpl<u8> for MessageType {
    open spec fn obeys_from_spec() -> bool {
        true
    }

    open spec fn from_spec(v: u8) -> MessageType {
        MessageType::spec_from_code(v)
    }
}

/// Operating mode of the unit as carried in a status payload.
#[derive(Clone, Copy, Debug, PartialEq, Eq, Structural)]
pub enum FrameACMode {
    Unknown,
    Fan,
    Dry,
    Cool,
    Heat,
    Auto,
}

impl FrameACMode {
    pub open spec fn spec_code(self) -> u8 {
        match self {
            FrameACMode::Unknown => 0,
            FrameACMode::Fan => 1,
            FrameACMode::Dry => 2,
            FrameACMode::Cool => 3,
            FrameACMode::Heat => 4,
            FrameACMode::Auto => 5,
        }
    }

    pub open spec fn spec_from_code(value: u8) -> FrameACMode {
        if value == 1 {
            FrameACMode::Fan
        } else if value == 2 {
            FrameACMode::Dry
        } else if value == 3 {
            FrameACMode::Cool
        } else if value == 4 {
            FrameACMode::Heat
        } else if value == 5 {
            FrameACMode::Auto
        } else {
            FrameACMode::Unknown
        }
    }

    pub fn code(self) -> (r: u8)
        ensures
            r == self.spec_code(),
    {
        match self {
            FrameACMode::Unknown => 0,
            FrameACMode::Fan => 1,
            FrameACMode::Dry => 2,
            FrameACMode::Cool => 3,
            FrameACMode::Heat => 4,
            FrameACMode::Auto => 5,
        }
    }

    pub proof fn lemma_code_round_trip(self)
        ensures
            FrameACMode::spec_from_code(self.spec_code()) == self,
            self.spec_code() < 8,
    {
    }
}

impl From<u8> for FrameACMode {
    fn from(value: u8) -> (r: FrameACMode) {
        match value {
            0 => FrameACMode::Unknown,
            1 => FrameACMode::Fan,
            2 => FrameACMode::Dry,
            3 => FrameACMode::Cool,
            4 => FrameACMode::Heat,
            5 => FrameACMode::Auto,
            _ => FrameACMode::Unknown,
        }
    }
}

impl vstd::std_specs::convert::FromSpecImpl<u8> for FrameACMode {
    open spec fn obeys_from_spec() -> bool {
        true
    }

    open spec fn from_spec(v: u8) -> FrameACMode {
        FrameACMode::spec_from_code(v)
    }
}

/// Fan speed as carried in a status payload.
#[derive(Clone, Copy, Debug, PartialEq, Eq, Structural)]
pub enum FanMode {
    Auto,
    Low,
    Medium,
    High,
    Max,
    Unknown,
}

impl FanMode {
    pub open spec fn spec_code(self) -> u8 {
        match self {
            FanMode::Auto => 0,
            FanMode::Low => 1,
            FanMode::Medium => 2,
            FanMode::High => 3,
            FanMode::Max => 4,
            FanMode::Unknown => 5,
        }
    }

    pub open spec fn spec_from_code(value: u8) -> FanMode {
        if value == 0 {
            FanMode::Auto
        } else if value == 1 {
            FanMode::Low
        } else if value == 2 {
            FanMode::Medium
        } else if value == 3 {
            FanMode::High
        } else if value == 4 {
            FanMode::Max
        } else {
            FanMode::Unknown
        }
    }

    pub fn code(self) -> (r: u8)
        ensures
            r == self.spec_code(),
    {
        match self {
            FanMode::Auto => 0,
            FanMode::Low => 1,
            FanMode::Medium => 2,
            FanMode::High => 3,
            FanMode::Max => 4,
            FanMode::Unknown => 5,
        }
    }

    pub proof fn lemma_code_round_trip(self)
        ensures
            FanMode::spec_from_code(self.spec_code()) == self,
            self.spec_code() < 8,
    {
    }
}

impl From<u8> for FanMode {
    fn from(value: u8) -> (r: FanMode) {
        match value {
            0 => FanMode::Auto,
            1 => FanMode::Low,
            2 => FanMode::Medium,
            3 => FanMode::High,
            4 => FanMode::Max,
            _ => FanMode::Unknown,
        }
    }
}

impl vstd::std_specs::convert::FromSpecImpl<u8> for FanMode {
    open spec fn obeys_from_spec() -> bool {
        true
    }

    open spec fn from_spec(v: u8) -> FanMode {
        FanMode::spec_from_code(v)
    }
}

/// Power state of the unit as carried in a status payload.
#[derive(Clone, Copy, Debug, PartialEq, Eq, Structural)]
pub enum PowerStatus {
    Off,
    On,
}

impl PowerStatus {
    pub open spec fn spec_code(self) -> u8 {
        match self {
            PowerStatus::Off => 0,
            PowerStatus::On => 1,
        }
    }

    pub fn code(self) -> (r: u8)
        ensures
            r == self.spec_code(),
    {
        match self {
            PowerStatus::Off => 0,
            PowerStatus::On => 1,
        }
    }
}

} // verus!
