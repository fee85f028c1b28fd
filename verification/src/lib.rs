//! Types for MIDI 1.0 messages, a codec for single messages, and a parser for
//! byte streams.
//!
//! - [`message`] and [`note`] hold the values that messages carry, each with a
//!   range that its constructors keep by saturating, and [`MidiMessage`] itself.
//! - [`status`] names the status bytes.
//! - [`codec`] renders one message into a buffer and parses one from a buffer.
//! - [`parser`] takes a stream one byte at a time, as a receive interrupt hands
//!   it over, and gives each message when its last byte has come. It follows
//!   running status and lets real time bytes pass in the middle of a message.
//!
//! Contracts speak of a value through its view, written `value@`: the byte that
//! a value wraps, the number of a [`Value14`], the [`StreamState`] of a parser.

pub mod codec;
pub mod message;
mod named_channels;
mod named_notes;
pub mod note;
pub mod parser;
pub mod status;

pub use codec::{parse, render, ParseError, RenderError};
pub use message::{Channel, Control, MidiMessage, Program, QuarterFrame, Value14, Value7};
pub use note::{Note, NoteName};
pub use parser::{MidiByteStreamParser, StreamState};
