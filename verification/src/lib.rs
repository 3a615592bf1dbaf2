//! Per-zone RGB lighting control for Framework laptops: colour parsing and
//! formatting, palette generators, transport selection, the "set colour
//! range" command, and the interactive session's state machine.
//!
//! The library decides what is to be sent and takes note of what came of
//! it; sending is the caller's.

pub mod cli;
pub mod color;
pub mod command;
pub mod driver;
pub mod palette;
pub mod parse;
pub mod random;
pub mod session;
pub mod text;

pub use color::{rgb_from_u32, rgb_to_hex_string, Color};
pub use command::{apply_colors, apply_result, submit, ApplyError, CommandError, Transaction};
pub use driver::{resolve, DriverChoice, EcHandle, SelectionError, Transport};
pub use parse::{parse_color, parse_colors, ParseError};
