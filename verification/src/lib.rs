//! Command pipeline and NAND flash protocol of a small-satellite on-board computer.
//!
//! Received bytes pass through a ring buffer and a line framer to the
//! telecommand parser and the dispatcher, which answers each command with one
//! line. The NAND driver frames reset, identification and page-read
//! transactions for a serial bus with a chip-select line. The library decides
//! and computes; moving bytes over the wires is left to the embedding.

pub mod dispatch;
pub mod line_framer;
pub mod logic;
pub mod nand;
pub mod ring_buffer;
pub mod telecommand;
pub mod text;
pub mod umbilical;
