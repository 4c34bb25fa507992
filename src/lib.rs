//! A driver for a 16x2 HD44780 character display wired in 4-bit mode to Raspberry Pi GPIO lines.
//!
//! `protocol` states what is sent and the line levels it produces, `laws` proves what holds of
//! it, `controller` drives six owned output lines accordingly, and `board` holds the rppal items
//! the driver relies on, with the six owned lines whose record of bus steps only real pin writes
//! and waits extend.
use vstd::prelude::*;

pub mod board;
pub mod controller;
pub mod laws;
pub mod protocol;

pub use controller::{
    high_or_low, LCDController, LcdError, PinConfig, LCD_D4, LCD_D5, LCD_D6, LCD_D7, LCD_E, LCD_RS,
};
pub use protocol::{
    data_levels, init_frames, pad_text, text_frames, BusLine, BusOp, Frame, LcdCommand, LcdLine,
    LcdMode, ROW_WIDTH,
};

verus! {

} // verus!
