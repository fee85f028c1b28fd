//! The status bytes of the messages. A channel voice status carries the channel in
//! its low four bits; the constants here hold channel 0.

use vstd::prelude::*;

verus! {

pub const NOTE_OFF: u8 = 0x80;

pub const NOTE_ON: u8 = 0x90;

pub const KEY_PRESSURE: u8 = 0xA0;

pub const CONTROL_CHANGE: u8 = 0xB0;

pub const PROGRAM_CHANGE: u8 = 0xC0;

pub const CHANNEL_PRESSURE: u8 = 0xD0;

pub const PITCH_BEND_CHANGE: u8 = 0xE0;

pub const SYSEX_START: u8 = 0xF0;

pub const QUARTER_FRAME: u8 = 0xF1;

pub const SONG_POSITION_POINTER: u8 = 0xF2;

pub const SONG_SELECT: u8 = 0xF3;

pub const TUNE_REQUEST: u8 = 0xF6;

pub const SYSEX_END: u8 = 0xF7;

pub const TIMING_CLOCK: u8 = 0xF8;

pub const START: u8 = 0xFA;

pub const CONTINUE: u8 = 0xFB;

pub const STOP: u8 = 0xFC;

pub const ACTIVE_SENSING: u8 = 0xFE;

pub const RESET: u8 = 0xFF;

} // verus!
