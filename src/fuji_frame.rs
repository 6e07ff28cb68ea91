//! The bus frame: its field enumerations and its 8-byte wire codec.

pub mod enums;
pub mod frame;
