//! Rendering one message into a buffer, and parsing one message from a buffer.
//!
//! Both follow one table, [`message_for`], which says what message a status byte
//! and its data bytes stand for.
//!
//! The two data bytes of a pitch bend and of a song position travel with the
//! less significant byte first: the byte that comes second is the one that
//! counts 128 times in the number of the value.

use crate::message::{Channel, Control, MidiMessage, Program, QuarterFrame, Value14, Value7};
use crate::note::Note;
use crate::parser::{is_status_byte, is_system_message, split_message_and_channel};
use crate::status::{
    ACTIVE_SENSING, CHANNEL_PRESSURE, CONTINUE, CONTROL_CHANGE, KEY_PRESSURE, NOTE_OFF, NOTE_ON,
    PITCH_BEND_CHANGE, PROGRAM_CHANGE, QUARTER_FRAME, RESET, SONG_POSITION_POINTER, SONG_SELECT,
    START, STOP, SYSEX_START, TIMING_CLOCK, TUNE_REQUEST,
};
use vstd::prelude::*;

verus! {

/// Why a message could not be rendered.
#[derive(Debug, PartialEq, Eq, Copy, Clone, Structural)]
pub enum RenderError {
    /// The buffer is shorter than the message.
    BufferTooShort,
}

/// Why no message could be parsed.
#[derive(Debug, PartialEq, Eq, Copy, Clone, Structural)]
pub enum ParseError {
    /// The buffer is empty, or ends before the message does.
    BufferTooShort,
    /// The first byte is not the status byte of a message.
    MessageNotFound,
    /// Kept for callers that match on it; [`parse`] never returns it.
    PartialData,
}

/// The message that the status byte `status` stands for, with `first` and
/// `second` as its data bytes, or `None` where `status` begins no message.
///
/// A message with fewer than two data bytes ignores the ones it does not have.
/// A data byte above 127 counts as 127. Of the two data bytes of a 14 bit value,
/// `first` is the less significant and `second` the more significant one.
pub open spec fn message_for(status: u8, first: u8, second: u8) -> Option<MidiMessage> {
    let channel = Channel::new(status % 16);
    if status < NOTE_OFF {
        None
    } else if status < NOTE_ON {
        Some(MidiMessage::NoteOff(channel, Note::new(first), Value7::new(second)))
    } else if status < KEY_PRESSURE {
        Some(MidiMessage::NoteOn(channel, Note::new(first), Value7::new(second)))
    } else if status < CONTROL_CHANGE {
        Some(MidiMessage::KeyPressure(channel, Note::new(first), Value7::new(second)))
    } else if status < PROGRAM_CHANGE {
        Some(MidiMessage::ControlChange(channel, Control::new(first), Value7::new(second)))
    } else if status < CHANNEL_PRESSURE {
        Some(MidiMessage::ProgramChange(channel, Program::new(first)))
    } else if status < PITCH_BEND_CHANGE {
        Some(MidiMessage::ChannelPressure(channel, Value7::new(first)))
    } else if status < SYSEX_START {
        Some(MidiMessage::PitchBendChange(channel, Value14::new(second, first)))
    } else if status == QUARTER_FRAME {
        Some(MidiMessage::QuarterFrame(QuarterFrame::new(first)))
    } else if status == SONG_POSITION_POINTER {
        Some(MidiMessage::SongPositionPointer(Value14::new(second, first)))
    } else if status == SONG_SELECT {
        Some(MidiMessage::SongSelect(Value7::new(first)))
    } else if status == TUNE_REQUEST {
        Some(MidiMessage::TuneRequest)
    } else if status == TIMING_CLOCK {
        Some(MidiMessage::TimingClock)
    } else if status == START {
        Some(MidiMessage::Start)
    } else if status == CONTINUE {
        Some(MidiMessage::Continue)
    } else if status == STOP {
        Some(MidiMessage::Stop)
    } else if status == ACTIVE_SENSING {
        Some(MidiMessage::ActiveSensing)
    } else if status == RESET {
        Some(MidiMessage::Reset)
    } else {
        None
    }
}

/// The status byte of a message: for a channel voice message, the channel fills
/// the low four bits.
pub open spec fn status_of(message: MidiMessage) -> u8 {
    match message {
        MidiMessage::NoteOff(channel, ..) => (NOTE_OFF + channel@) as u8,
        MidiMessage::NoteOn(channel, ..) => (NOTE_ON + channel@) as u8,
        MidiMessage::KeyPressure(channel, ..) => (KEY_PRESSURE + channel@) as u8,
        MidiMessage::ControlChange(channel, ..) => (CONTROL_CHANGE + channel@) as u8,
        MidiMessage::ProgramChange(channel, ..) => (PROGRAM_CHANGE + channel@) as u8,
        MidiMessage::ChannelPressure(channel, ..) => (CHANNEL_PRESSURE + channel@) as u8,
        MidiMessage::PitchBendChange(channel, ..) => (PITCH_BEND_CHANGE + channel@) as u8,
        MidiMessage::QuarterFrame(..) => QUARTER_FRAME,
        MidiMessage::SongPositionPointer(..) => SONG_POSITION_POINTER,
        MidiMessage::SongSelect(..) => SONG_SELECT,
        MidiMessage::TuneRequest => TUNE_REQUEST,
        MidiMessage::TimingClock => TIMING_CLOCK,
        MidiMessage::Start => START,
        MidiMessage::Continue => CONTINUE,
        MidiMessage::Stop => STOP,
        MidiMessage::ActiveSensing => ACTIVE_SENSING,
        MidiMessage::Reset => RESET,
    }
}

/// The data bytes of a message, in the order in which they travel. A 14 bit
/// value sends its less significant byte first.
pub open spec fn data_of(message: MidiMessage) -> Seq<u8> {
    match message {
        MidiMessage::NoteOff(_, note, velocity) => seq![note@, velocity@],
        MidiMessage::NoteOn(_, note, velocity) => seq![note@, velocity@],
        MidiMessage::KeyPressure(_, note, pressure) => seq![note@, pressure@],
        MidiMessage::ControlChange(_, control, value) => seq![control@, value@],
        MidiMessage::ProgramChange(_, program) => seq![program@],
        MidiMessage::ChannelPressure(_, pressure) => seq![pressure@],
        MidiMessage::PitchBendChange(_, bend) => seq![bend.lsb(), bend.msb()],
        MidiMessage::QuarterFrame(frame) => seq![frame@],
        MidiMessage::SongPositionPointer(position) => seq![position.lsb(), position.msb()],
        MidiMessage::SongSelect(song) => seq![song@],
        _ => Seq::empty(),
    }
}

/// The bytes of a message on the wire: its status byte, then its data bytes.
pub open spec fn encoding(message: MidiMessage) -> Seq<u8> {
    seq![status_of(message)] + data_of(message)
}

/// The byte at place `index` of `bytes`, or 0 past the end.
pub open spec fn byte_at(bytes: Seq<u8>, index: int) -> u8 {
    if 0 <= index < bytes.len() {
        bytes[index]
    } else {
        0
    }
}

/// What [`parse`] makes of `bytes`: the message that begins them, or the reason
/// why there is none.
pub open spec fn decode(bytes: Seq<u8>) -> Result<MidiMessage, ParseError> {
    if bytes.len() == 0 {
        Err(ParseError::BufferTooShort)
    } else {
        match message_for(bytes[0], byte_at(bytes, 1), byte_at(bytes, 2)) {
            None => Err(ParseError::MessageNotFound),
            Some(message) => if bytes.len() < message.len() {
                Err(ParseError::BufferTooShort)
            } else {
                Ok(message)
            },
        }
    }
}

/// Puts the channel into the low four bits of a channel voice status.
fn with_channel(status: u8, channel: Channel) -> (r: u8)
    requires
        status % 16 == 0,
    ensures
        r == status + channel@,
        channel@ <= 15,
{
    let number: u8 = channel.value();
    assert(status | number == status + number) by (bit_vector)
        requires
            status % 16 == 0,
            number <= 15,
    ;
    status | number
}

/// Writes `message` to the start of `buffer` and returns the number of bytes
/// written, which is the length of the message.
///
/// Fails, and leaves the buffer as it was, where the buffer is shorter than the
/// message. Bytes of the buffer behind the message keep their values. What was
/// written parses to `message` again.
pub fn render(message: &MidiMessage, buffer: &mut [u8]) -> (r: Result<usize, RenderError>)
    ensures
        r.is_ok() <==> old(buffer)@.len() >= message.len(),
        r.is_ok() ==> r == Ok::<usize, RenderError>(message.len()),
        r.is_ok() ==> final(buffer)@ == encoding(*message) + old(buffer)@.skip(
            message.len() as int,
        ),
        r.is_ok() ==> decode(final(buffer)@) == Ok::<MidiMessage, ParseError>(*message),
        r.is_ok() ==> decode(final(buffer)@.take(message.len() as int)) == Ok::<
            MidiMessage,
            ParseError,
        >(*message),
        r.is_err() ==> r == Err::<usize, RenderError>(RenderError::BufferTooShort),
        r.is_err() ==> final(buffer)@ == old(buffer)@,
{
    let len = message.len();
    if buffer.len() < len {
        return Err(RenderError::BufferTooShort);
    }
    match *message {
        MidiMessage::NoteOff(channel, note, velocity) => {
            buffer[0] = with_channel(NOTE_OFF, channel);
            buffer[1] = note.value();
            buffer[2] = velocity.value();
        },
        MidiMessage::NoteOn(channel, note, velocity) => {
            buffer[0] = with_channel(NOTE_ON, channel);
            buffer[1] = note.value();
            buffer[2] = velocity.value();
        },
        MidiMessage::KeyPressure(channel, note, pressure) => {
            buffer[0] = with_channel(KEY_PRESSURE, channel);
            buffer[1] = note.value();
            buffer[2] = pressure.value();
        },
        MidiMessage::ControlChange(channel, control, value) => {
            buffer[0] = with_channel(CONTROL_CHANGE, channel);
            buffer[1] = control.value();
            buffer[2] = value.value();
        },
        MidiMessage::ProgramChange(channel, program) => {
            buffer[0] = with_channel(PROGRAM_CHANGE, channel);
            buffer[1] = program.value();
        },
        MidiMessage::ChannelPressure(channel, pressure) => {
            buffer[0] = with_channel(CHANNEL_PRESSURE, channel);
            buffer[1] = pressure.value();
        },
        MidiMessage::PitchBendChange(channel, bend) => {
            let (msb, lsb): (u8, u8) = bend.into();
            buffer[0] = with_channel(PITCH_BEND_CHANGE, channel);
            buffer[1] = lsb;
            buffer[2] = msb;
        },
        MidiMessage::QuarterFrame(frame) => {
            buffer[0] = QUARTER_FRAME;
            buffer[1] = frame.value();
        },
        MidiMessage::SongPositionPointer(position) => {
            let (msb, lsb): (u8, u8) = position.into();
            buffer[0] = SONG_POSITION_POINTER;
            buffer[1] = lsb;
            buffer[2] = msb;
        },
        MidiMessage::SongSelect(song) => {
            buffer[0] = SONG_SELECT;
            buffer[1] = song.value();
        },
        MidiMessage::TuneRequest => {
            buffer[0] = TUNE_REQUEST;
        },
        MidiMessage::TimingClock => {
            buffer[0] = TIMING_CLOCK;
        },
        MidiMessage::Start => {
            buffer[0] = START;
        },
        MidiMessage::Continue => {
            buffer[0] = CONTINUE;
        },
        MidiMessage::Stop => {
            buffer[0] = STOP;
        },
        MidiMessage::ActiveSensing => {
            buffer[0] = ACTIVE_SENSING;
        },
        MidiMessage::Reset => {
            buffer[0] = RESET;
        },
    }
    proof {
        let rest = old(buffer)@.skip(len as int);
        lemma_parse_reads_rendered_message(*message, rest);
        assert(buffer@.take(len as int) == encoding(*message));
    }
    Ok(len)
}

/// The data byte of a message with one data byte, read from the buffer that
/// holds the message.
fn one_data_byte(buffer: &[u8]) -> (r: Result<u8, ParseError>)
    ensures
        buffer@.len() < 2 ==> r == Err::<u8, ParseError>(ParseError::BufferTooShort),
        buffer@.len() >= 2 ==> r == Ok::<u8, ParseError>(buffer@[1]),
{
    if buffer.len() < 2 {
        Err(ParseError::BufferTooShort)
    } else {
        Ok(buffer[1])
    }
}

/// The data bytes of a message with two data bytes, read from the buffer that
/// holds the message.
fn two_data_bytes(buffer: &[u8]) -> (r: Result<(u8, u8), ParseError>)
    ensures
        buffer@.len() < 3 ==> r == Err::<(u8, u8), ParseError>(ParseError::BufferTooShort),
        buffer@.len() >= 3 ==> r == Ok::<(u8, u8), ParseError>((buffer@[1], buffer@[2])),
{
    if buffer.len() < 3 {
        Err(ParseError::BufferTooShort)
    } else {
        Ok((buffer[1], buffer[2]))
    }
}

/// Parses the message that begins `buffer`. Bytes behind that message are ignored.
///
/// Fails with `BufferTooShort` where the buffer is empty or ends before the
/// message does, and with `MessageNotFound` where the first byte is not the
/// status byte of a message.
pub fn parse(buffer: &[u8]) -> (r: Result<MidiMessage, ParseError>)
    ensures
        r == decode(buffer@),
        r != Err::<MidiMessage, ParseError>(ParseError::PartialData),
{
    if buffer.len() == 0 {
        return Err(ParseError::BufferTooShort);
    }
    let status = buffer[0];
    if !is_status_byte(status) {
        return Err(ParseError::MessageNotFound);
    }
    if is_system_message(status) {
        match status {
            QUARTER_FRAME => match one_data_byte(buffer) {
                Ok(frame) => Ok(MidiMessage::QuarterFrame(QuarterFrame::new(frame))),
                Err(e) => Err(e),
            },
            SONG_POSITION_POINTER => match two_data_bytes(buffer) {
                Ok((lsb, msb)) => Ok(MidiMessage::SongPositionPointer(Value14::new(msb, lsb))),
                Err(e) => Err(e),
            },
            SONG_SELECT => match one_data_byte(buffer) {
                Ok(song) => Ok(MidiMessage::SongSelect(Value7::new(song))),
                Err(e) => Err(e),
            },
            TUNE_REQUEST => Ok(MidiMessage::TuneRequest),
            TIMING_CLOCK => Ok(MidiMessage::TimingClock),
            START => Ok(MidiMessage::Start),
            CONTINUE => Ok(MidiMessage::Continue),
            STOP => Ok(MidiMessage::Stop),
            ACTIVE_SENSING => Ok(MidiMessage::ActiveSensing),
            RESET => Ok(MidiMessage::Reset),
            _ => Err(ParseError::MessageNotFound),
        }
    } else {
        let (kind, channel) = split_message_and_channel(status);
        match kind {
            NOTE_OFF => match two_data_bytes(buffer) {
                Ok((note, velocity)) => Ok(
                    MidiMessage::NoteOff(channel, Note::new(note), Value7::new(velocity)),
                ),
                Err(e) => Err(e),
            },
            NOTE_ON => match two_data_bytes(buffer) {
                Ok((note, velocity)) => Ok(
                    MidiMessage::NoteOn(channel, Note::new(note), Value7::new(velocity)),
                ),
                Err(e) => Err(e),
            },
            KEY_PRESSURE => match two_data_bytes(buffer) {
                Ok((note, pressure)) => Ok(
                    MidiMessage::KeyPressure(channel, Note::new(note), Value7::new(pressure)),
                ),
                Err(e) => Err(e),
            },
            CONTROL_CHANGE => match two_data_bytes(buffer) {
                Ok((control, value)) => Ok(
                    MidiMessage::ControlChange(channel, Control::new(control), Value7::new(value)),
                ),
                Err(e) => Err(e),
            },
            PROGRAM_CHANGE => match one_data_byte(buffer) {
                Ok(program) => Ok(MidiMessage::ProgramChange(channel, Program::new(program))),
                Err(e) => Err(e),
            },
            CHANNEL_PRESSURE => match one_data_byte(buffer) {
                Ok(pressure) => Ok(MidiMessage::ChannelPressure(channel, Value7::new(pressure))),
                Err(e) => Err(e),
            },
            PITCH_BEND_CHANGE => match two_data_bytes(buffer) {
                Ok((lsb, msb)) => Ok(
                    MidiMessage::PitchBendChange(channel, Value14::new(msb, lsb)),
                ),
                Err(e) => Err(e),
            },
            // No other value is left: the status lies between 0x80 and 0xEF.
            _ => Err(ParseError::MessageNotFound),
        }
    }
}

/// A message takes as many bytes on the wire as [`MidiMessage::len`] says, and
/// parsing those bytes, with whatever follows them, gives the message back.
pub proof fn lemma_parse_reads_rendered_message(message: MidiMessage, rest: Seq<u8>)
    requires
        message.wf(),
    ensures
        encoding(message).len() == message.len(),
        decode(encoding(message)) == Ok::<MidiMessage, ParseError>(message),
        decode(encoding(message) + rest) == Ok::<MidiMessage, ParseError>(message),
{
}

/// Bytes that end before their message does are refused as too short, however
/// many of them there are.
pub proof fn lemma_parse_refuses_cut_message(message: MidiMessage, len: int)
    requires
        message.wf(),
        0 <= len < message.len(),
    ensures
        decode(encoding(message).take(len)) == Err::<MidiMessage, ParseError>(
            ParseError::BufferTooShort,
        ),
{
}

/// The bytes that begin no message: the data bytes, the two bytes that frame
/// system exclusive data, and the four status bytes that MIDI leaves undefined.
pub proof fn lemma_bytes_without_message(status: u8, first: u8, second: u8)
    ensures
        message_for(status, first, second).is_none() <==> status < 0x80 || status == 0xF0
            || status == 0xF4 || status == 0xF5 || status == 0xF7 || status == 0xF9 || status
            == 0xFD,
        message_for(status, first, second) matches Some(message) ==> message.wf() && status_of(
            message,
        ) == status,
{
}

/// Where the data bytes of a parsed message were data bytes indeed, none above
/// 127, rendering the message gives the parsed bytes back.
pub proof fn lemma_render_writes_parsed_bytes(bytes: Seq<u8>, message: MidiMessage)
    requires
        decode(bytes) == Ok::<MidiMessage, ParseError>(message),
        forall|i: int| 1 <= i < message.len() ==> bytes[i] <= 127,
    ensures
        bytes.len() >= message.len(),
        encoding(message) == bytes.take(message.len() as int),
{
    assert(bytes.len() > 1 ==> byte_at(bytes, 1) == bytes[1]);
    assert(bytes.len() > 2 ==> byte_at(bytes, 2) == bytes[2]);
    assert(encoding(message) =~= bytes.take(message.len() as int));
}

/// A 14 bit value travels with its less significant byte first: of the two data
/// bytes of a pitch bend or of a song position, the first counts once and the
/// second 128 times in the number of the value.
pub proof fn lemma_value14_travels_low_byte_first(status: u8, first: u8, second: u8)
    requires
        0xE0 <= status <= 0xEF || status == 0xF2,
        first <= 127,
        second <= 127,
    ensures
        status != 0xF2 ==> (message_for(status, first, second) matches Some(
            MidiMessage::PitchBendChange(_, bend),
        ) && bend@ == second * 128 + first),
        status == 0xF2 ==> (message_for(status, first, second) matches Some(
            MidiMessage::SongPositionPointer(position),
        ) && position@ == second * 128 + first),
        message_for(status, first, second) matches Some(message) && encoding(message)
            == seq![status, first, second],
{
    let message = message_for(status, first, second).unwrap();
    assert(encoding(message) =~= seq![status, first, second]);
}

} // verus!
