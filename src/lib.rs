//! Emulation of a wired controller on the 8-byte serial bus of a Fuji heat pump:
//! the frame codec and the protocol state of the emulated controller.

pub mod fuji_controller;
pub mod fuji_frame;
