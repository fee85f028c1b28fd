//! Parsing a stream of bytes into MIDI messages, one byte at a time.

use crate::codec::{data_of, encoding, message_for, status_of};
use crate::message::{Channel, Control, MidiMessage, Program, QuarterFrame, Value14, Value7};
use crate::note::Note;
use crate::status::{
    CHANNEL_PRESSURE, CONTROL_CHANGE, KEY_PRESSURE, NOTE_OFF, NOTE_ON, PITCH_BEND_CHANGE,
    PROGRAM_CHANGE, QUARTER_FRAME, SONG_POSITION_POINTER, SONG_SELECT,
};
use vstd::prelude::*;

verus! {

/// Whether the most significant bit of `byte` is set: a status byte has it set, a
/// data byte has not.
pub fn is_status_byte(byte: u8) -> (r: bool)
    ensures
        r == (byte >= 0x80),
{
    assert((byte & 0x80 == 0x80) == (byte >= 0x80)) by (bit_vector);
    byte & 0x80 == 0x80
}

/// Whether the four high bits of `byte` are all set: such a status byte belongs to
/// a system common or a system real time message.
pub fn is_system_message(byte: u8) -> (r: bool)
    ensures
        r == (byte >= 0xf0),
{
    assert((byte & 0xf0 == 0xf0) == (byte >= 0xf0)) by (bit_vector);
    byte & 0xf0 == 0xf0
}

/// Splits a channel voice status byte into the message type, which is the byte
/// with its low four bits cleared, and the channel, which those four bits hold.
pub fn split_message_and_channel(byte: u8) -> (r: (u8, Channel))
    ensures
        r.0 == byte - byte % 16,
        r.1@ == byte % 16,
        r.1 == Channel::new(byte % 16),
{
    assert(byte & 0xf0 == byte - byte % 16 && byte & 0x0f == byte % 16) by (bit_vector);
    (byte & 0xf0u8, Channel::new(byte & 0x0fu8))
}

/// What a stream parser remembers between two bytes.
#[derive(Debug, PartialEq, Eq, Copy, Clone, Structural)]
pub enum StreamState {
    /// No status byte governs the bytes to come: data bytes are dropped.
    Idle,
    /// The status byte `status` was read, and the first data byte of a message is
    /// awaited.
    AwaitingData { status: u8 },
    /// The status byte `status` and the data byte `first` were read, and the second
    /// data byte of the message is awaited.
    AwaitingSecond { status: u8, first: u8 },
}

/// The number of data bytes that follow the status byte `status`, or `None`
/// where `status` begins no message.
pub open spec fn data_len(status: u8) -> Option<int> {
    match message_for(status, 0, 0) {
        Some(message) => Some(message.len() - 1),
        None => None,
    }
}

impl StreamState {
    /// The status that is remembered has data bytes to come: two of them where a
    /// first one is kept, and that one is a data byte.
    pub open spec fn wf(&self) -> bool {
        match *self {
            StreamState::Idle => true,
            StreamState::AwaitingData { status } => data_len(status) == Some(1int) || data_len(
                status,
            ) == Some(2int),
            StreamState::AwaitingSecond { status, first } => data_len(status) == Some(2int)
                && first <= 127,
        }
    }
}

/// The state that the byte `byte` leaves a parser in that was in `state`, and the
/// message that it completes, if it completes one.
///
/// - A real time status byte, `0xF8` and above, gives its message, if it has one,
///   and leaves the state as it was.
/// - Any other status byte ends the message that was being read. One that has
///   data bytes to come is remembered; `0xF6` gives its message at once; the
///   others, which begin no message, leave the parser idle.
/// - A data byte is dropped where no status is remembered. Else it completes a
///   message with one data byte, is kept as the first data byte of a message
///   with two, or completes such a message. The status stays remembered, so
///   that more data bytes give more messages of the same kind.
pub open spec fn step(state: StreamState, byte: u8) -> (StreamState, Option<MidiMessage>) {
    if byte >= 0xF8 {
        (state, message_for(byte, 0, 0))
    } else if byte >= 0xF0 {
        if data_len(byte) == Some(0int) || data_len(byte).is_none() {
            (StreamState::Idle, message_for(byte, 0, 0))
        } else {
            (StreamState::AwaitingData { status: byte }, None)
        }
    } else if byte >= 0x80 {
        (StreamState::AwaitingData { status: byte }, None)
    } else {
        match state {
            StreamState::Idle => (state, None),
            StreamState::AwaitingData { status } => if data_len(status) == Some(2int) {
                (StreamState::AwaitingSecond { status, first: byte }, None)
            } else {
                (state, message_for(status, byte, 0))
            },
            StreamState::AwaitingSecond { status, first } => (
                StreamState::AwaitingData { status },
                message_for(status, first, byte),
            ),
        }
    }
}

#[derive(Debug, Clone, Copy, PartialEq, Eq)]
enum MidiParserState {
    Idle,
    NoteOnRecvd(Channel),
    NoteOnNoteRecvd(Channel, Note),
    NoteOffRecvd(Channel),
    NoteOffNoteRecvd(Channel, Note),
    KeyPressureRecvd(Channel),
    KeyPressureNoteRecvd(Channel, Note),
    ControlChangeRecvd(Channel),
    ControlChangeControlRecvd(Channel, Control),
    ProgramChangeRecvd(Channel),
    ChannelPressureRecvd(Channel),
    PitchBendRecvd(Channel),
    PitchBendFirstByteRecvd(Channel, u8),
    QuarterFrameRecvd,
    SongPositionRecvd,
    SongPositionLsbRecvd(u8),
    SongSelectRecvd,
}

impl MidiParserState {
    /// The values that the state holds are in their ranges.
    spec fn wf(&self) -> bool {
        match *self {
            MidiParserState::NoteOnRecvd(channel)
            | MidiParserState::NoteOffRecvd(channel)
            | MidiParserState::KeyPressureRecvd(channel)
            | MidiParserState::ControlChangeRecvd(channel)
            | MidiParserState::ProgramChangeRecvd(channel)
            | MidiParserState::ChannelPressureRecvd(channel)
            | MidiParserState::PitchBendRecvd(channel) => channel.wf(),
            MidiParserState::PitchBendFirstByteRecvd(channel, first) => channel.wf() && first
                <= 127,
            MidiParserState::SongPositionLsbRecvd(first) => first <= 127,
            MidiParserState::NoteOnNoteRecvd(channel, note)
            | MidiParserState::NoteOffNoteRecvd(channel, note)
            | MidiParserState::KeyPressureNoteRecvd(channel, note) => channel.wf() && note.wf(),
            MidiParserState::ControlChangeControlRecvd(channel, control) => channel.wf()
                && control.wf(),
            _ => true,
        }
    }

    spec fn view(&self) -> StreamState {
        match *self {
            MidiParserState::Idle => StreamState::Idle,
            MidiParserState::NoteOnRecvd(channel) => StreamState::AwaitingData {
                status: (NOTE_ON + channel@) as u8,
            },
            MidiParserState::NoteOnNoteRecvd(channel, note) => StreamState::AwaitingSecond {
                status: (NOTE_ON + channel@) as u8,
                first: note@,
            },
            MidiParserState::NoteOffRecvd(channel) => StreamState::AwaitingData {
                status: (NOTE_OFF + channel@) as u8,
            },
            MidiParserState::NoteOffNoteRecvd(channel, note) => StreamState::AwaitingSecond {
                status: (NOTE_OFF + channel@) as u8,
                first: note@,
            },
            MidiParserState::KeyPressureRecvd(channel) => StreamState::AwaitingData {
                status: (KEY_PRESSURE + channel@) as u8,
            },
            MidiParserState::KeyPressureNoteRecvd(channel, note) => StreamState::AwaitingSecond {
                status: (KEY_PRESSURE + channel@) as u8,
                first: note@,
            },
            MidiParserState::ControlChangeRecvd(channel) => StreamState::AwaitingData {
                status: (CONTROL_CHANGE + channel@) as u8,
            },
            MidiParserState::ControlChangeControlRecvd(channel, control) => {
                StreamState::AwaitingSecond {
                    status: (CONTROL_CHANGE + channel@) as u8,
                    first: control@,
                }
            },
            MidiParserState::ProgramChangeRecvd(channel) => StreamState::AwaitingData {
                status: (PROGRAM_CHANGE + channel@) as u8,
            },
            MidiParserState::ChannelPressureRecvd(channel) => StreamState::AwaitingData {
                status: (CHANNEL_PRESSURE + channel@) as u8,
            },
            MidiParserState::PitchBendRecvd(channel) => StreamState::AwaitingData {
                status: (PITCH_BEND_CHANGE + channel@) as u8,
            },
            MidiParserState::PitchBendFirstByteRecvd(channel, first) => {
                StreamState::AwaitingSecond { status: (PITCH_BEND_CHANGE + channel@) as u8, first }
            },
            MidiParserState::QuarterFrameRecvd => StreamState::AwaitingData {
                status: QUARTER_FRAME,
            },
            MidiParserState::SongPositionRecvd => StreamState::AwaitingData {
                status: SONG_POSITION_POINTER,
            },
            MidiParserState::SongPositionLsbRecvd(first) => StreamState::AwaitingSecond {
                status: SONG_POSITION_POINTER,
                first,
            },
            MidiParserState::SongSelectRecvd => StreamState::AwaitingData { status: SONG_SELECT },
        }
    }
}

/// A parser for a stream of MIDI bytes. It takes the bytes one at a time, in the
/// order in which they were sent, and gives each message as its last byte comes in.
#[derive(Debug, PartialEq, Eq)]
pub struct MidiByteStreamParser {
    state: MidiParserState,
}

impl Clone for MidiByteStreamParser {
    /// A second parser in the same state.
    fn clone(&self) -> (r: MidiByteStreamParser)
        ensures
            r@ == self@,
            r@.wf(),
    {
        proof {
            use_type_invariant(self);
        }
        MidiByteStreamParser { state: self.state }
    }
}

impl MidiByteStreamParser {
    #[verifier::type_invariant]
    spec fn inv(&self) -> bool {
        self.state.wf()
    }

    /// What the parser remembers of the bytes it has taken.
    pub closed spec fn view(&self) -> StreamState {
        self.state@
    }

    /// A parser that has seen no byte yet.
    pub fn new() -> (r: MidiByteStreamParser)
        ensures
            r@ == StreamState::Idle,
            r@.wf(),
    {
        MidiByteStreamParser { state: MidiParserState::Idle }
    }

    /// Takes the next byte of the stream, and returns the message that this byte
    /// completes, if it completes one.
    #[verifier::rlimit(40)]
    pub fn parse_byte(&mut self, byte: u8) -> (r: Option<MidiMessage>)
        ensures
            (final(self)@, r) == step(old(self)@, byte),
            old(self)@.wf(),
            final(self)@.wf(),
    {
        proof {
            use_type_invariant(&*self);
            lemma_step_keeps_wf(self@, byte);
        }
        if is_status_byte(byte) {
            if is_system_message(byte) {
                match byte {
                    // System common messages: these end the message that was being read.
                    0xf0 => {
                        // System exclusive
                        self.state = MidiParserState::Idle;
                        None
                    },
                    0xf1 => {
                        // MIDI time code quarter frame
                        self.state = MidiParserState::QuarterFrameRecvd;
                        None
                    },
                    0xf2 => {
                        // Song position pointer
                        self.state = MidiParserState::SongPositionRecvd;
                        None
                    },
                    0xf3 => {
                        // Song select
                        self.state = MidiParserState::SongSelectRecvd;
                        None
                    },
                    0xf6 => {
                        // Tune request
                        self.state = MidiParserState::Idle;
                        Some(MidiMessage::TuneRequest)
                    },
                    0xf7 => {
                        // End of exclusive
                        self.state = MidiParserState::Idle;
                        None
                    },
                    // System real time messages: these leave the state alone.
                    0xf8 => Some(MidiMessage::TimingClock),
                    0xf9 => None,  // Reserved
                    0xfa => Some(MidiMessage::Start),
                    0xfb => Some(MidiMessage::Continue),
                    0xfc => Some(MidiMessage::Stop),
                    0xfd => None,  // Reserved
                    0xfe => Some(MidiMessage::ActiveSensing),
                    0xff => Some(MidiMessage::Reset),
                    _ => {
                        // Undefined: 0xf4 and 0xf5
                        self.state = MidiParserState::Idle;
                        None
                    },
                }
            } else {
                // Channel voice message
                let (message, channel) = split_message_and_channel(byte);
                match message {
                    0x80 => {
                        self.state = MidiParserState::NoteOffRecvd(channel);
                        None
                    },
                    0x90 => {
                        self.state = MidiParserState::NoteOnRecvd(channel);
                        None
                    },
                    0xA0 => {
                        self.state = MidiParserState::KeyPressureRecvd(channel);
                        None
                    },
                    0xB0 => {
                        self.state = MidiParserState::ControlChangeRecvd(channel);
                        None
                    },
                    0xC0 => {
                        self.state = MidiParserState::ProgramChangeRecvd(channel);
                        None
                    },
                    0xD0 => {
                        self.state = MidiParserState::ChannelPressureRecvd(channel);
                        None
                    },
                    0xE0 => {
                        self.state = MidiParserState::PitchBendRecvd(channel);
                        None
                    },
                    // No other value is left: the byte lies between 0x80 and 0xEF.
                    _ => None,
                }
            }
        } else {
            match self.state {
                MidiParserState::NoteOffRecvd(channel) => {
                    self.state = MidiParserState::NoteOffNoteRecvd(channel, Note::new(byte));
                    None
                },
                MidiParserState::NoteOffNoteRecvd(channel, note) => {
                    self.state = MidiParserState::NoteOffRecvd(channel);
                    Some(MidiMessage::NoteOff(channel, note, Value7::new(byte)))
                },
                MidiParserState::NoteOnRecvd(channel) => {
                    self.state = MidiParserState::NoteOnNoteRecvd(channel, Note::new(byte));
                    None
                },
                MidiParserState::NoteOnNoteRecvd(channel, note) => {
                    self.state = MidiParserState::NoteOnRecvd(channel);
                    Some(MidiMessage::NoteOn(channel, note, Value7::new(byte)))
                },
                MidiParserState::KeyPressureRecvd(channel) => {
                    self.state = MidiParserState::KeyPressureNoteRecvd(channel, Note::new(byte));
                    None
                },
                MidiParserState::KeyPressureNoteRecvd(channel, note) => {
                    self.state = MidiParserState::KeyPressureRecvd(channel);
                    Some(MidiMessage::KeyPressure(channel, note, Value7::new(byte)))
                },
                MidiParserState::ControlChangeRecvd(channel) => {
                    self.state = MidiParserState::ControlChangeControlRecvd(
                        channel,
                        Control::new(byte),
                    );
                    None
                },
                MidiParserState::ControlChangeControlRecvd(channel, control) => {
                    self.state = MidiParserState::ControlChangeRecvd(channel);
                    Some(MidiMessage::ControlChange(channel, control, Value7::new(byte)))
                },
                MidiParserState::ProgramChangeRecvd(channel) => {
                    Some(MidiMessage::ProgramChange(channel, Program::new(byte)))
                },
                MidiParserState::ChannelPressureRecvd(channel) => {
                    Some(MidiMessage::ChannelPressure(channel, Value7::new(byte)))
                },
                MidiParserState::PitchBendRecvd(channel) => {
                    self.state = MidiParserState::PitchBendFirstByteRecvd(channel, byte);
                    None
                },
                MidiParserState::PitchBendFirstByteRecvd(channel, lsb) => {
                    self.state = MidiParserState::PitchBendRecvd(channel);
                    Some(MidiMessage::PitchBendChange(channel, Value14::new(byte, lsb)))
                },
                MidiParserState::QuarterFrameRecvd => {
                    Some(MidiMessage::QuarterFrame(QuarterFrame::new(byte)))
                },
                MidiParserState::SongPositionRecvd => {
                    self.state = MidiParserState::SongPositionLsbRecvd(byte);
                    None
                },
                MidiParserState::SongPositionLsbRecvd(lsb) => {
                    self.state = MidiParserState::SongPositionRecvd;
                    Some(MidiMessage::SongPositionPointer(Value14::new(byte, lsb)))
                },
                MidiParserState::SongSelectRecvd => Some(MidiMessage::SongSelect(Value7::new(byte))),
                _ => None,
            }
        }
    }
}

/// The state that the bytes `bytes`, taken in order, leave a parser in that was in
/// `state`, and the messages that they complete, in the order of their completion.
pub open spec fn run(state: StreamState, bytes: Seq<u8>) -> (StreamState, Seq<MidiMessage>)
    decreases bytes.len(),
{
    if bytes.len() == 0 {
        (state, Seq::empty())
    } else {
        let (next, message) = step(state, bytes[0]);
        let (last, rest) = run(next, bytes.drop_first());
        match message {
            Some(message) => (last, seq![message] + rest),
            None => (last, rest),
        }
    }
}

/// Whatever byte comes, the parser stays in a state that [`StreamState::wf`]
/// admits, and the message it gives, if any, holds values in their ranges.
pub proof fn lemma_step_keeps_wf(state: StreamState, byte: u8)
    requires
        state.wf(),
    ensures
        step(state, byte).0.wf(),
        step(state, byte).1 matches Some(message) ==> message.wf(),
{
}

/// A real time byte leaves the parser in the state it was in, whatever message
/// was being read.
pub proof fn lemma_real_time_keeps_state(state: StreamState, byte: u8)
    requires
        byte >= 0xF8,
    ensures
        step(state, byte).0 == state,
        step(state, byte).1 == message_for(byte, 0, 0),
{
}

/// A status byte that is no real time byte starts afresh: what it leads to does
/// not depend on the state the parser was in.
pub proof fn lemma_status_byte_starts_afresh(before: StreamState, other: StreamState, byte: u8)
    requires
        0x80 <= byte < 0xF8,
    ensures
        step(before, byte) == step(other, byte),
{
}

/// An idle parser drops data bytes.
pub proof fn lemma_idle_drops_data(byte: u8)
    requires
        byte < 0x80,
    ensures
        step(StreamState::Idle, byte) == (StreamState::Idle, None::<MidiMessage>),
{
}

/// Bytes may come in any portions: two runs, the second from the state that the
/// first has left, give what one run over all the bytes gives.
pub proof fn lemma_run_in_portions(state: StreamState, head: Seq<u8>, tail: Seq<u8>)
    ensures
        run(state, head + tail).0 == run(run(state, head).0, tail).0,
        run(state, head + tail).1 == run(state, head).1 + run(run(state, head).0, tail).1,
    decreases head.len(),
{
    if head.len() == 0 {
        assert(head + tail == tail);
        assert(run(state, head).1 + run(state, tail).1 == run(state, tail).1);
    } else {
        let (next, message) = step(state, head[0]);
        assert((head + tail).drop_first() == head.drop_first() + tail);
        lemma_run_in_portions(next, head.drop_first(), tail);
        let first = run(next, head.drop_first());
        let second = run(first.0, tail);
        if let Some(message) = message {
            assert(seq![message] + (first.1 + second.1) == (seq![message] + first.1) + second.1);
        }
    }
}

/// The bytes of a message, as [`encoding`] gives them, make a parser in any state
/// give that message and no other. They leave the parser in the state in which
/// the status byte alone would have left it.
pub proof fn lemma_stream_reads_rendered_message(state: StreamState, message: MidiMessage)
    requires
        message.wf(),
    ensures
        run(state, encoding(message)).1 == seq![message],
        run(state, encoding(message)).0 == step(state, status_of(message)).0,
{
    let bytes = encoding(message);
    let after_status = step(state, bytes[0]).0;
    assert(run(after_status, data_of(message)).0 == after_status && run(
        after_status,
        data_of(message),
    ).1 == if message.len() == 1 {
        Seq::<MidiMessage>::empty()
    } else {
        seq![message]
    }) by {
        lemma_data_completes_message(after_status, message);
    }
    assert(bytes.drop_first() == data_of(message));
    assert(step(state, bytes[0]).1 == if message.len() == 1 {
        Some(message)
    } else {
        None
    });
}

/// The data bytes of a message complete it in a parser that remembers its status
/// byte, and leave the parser as it was.
proof fn lemma_data_completes_message(state: StreamState, message: MidiMessage)
    requires
        message.wf(),
        message.len() == 1 || state == (StreamState::AwaitingData { status: status_of(message) }),
    ensures
        run(state, data_of(message)).0 == state,
        run(state, data_of(message)).1 == if message.len() == 1 {
            Seq::<MidiMessage>::empty()
        } else {
            seq![message]
        },
{
    let data = data_of(message);
    reveal_with_fuel(run, 3);
    if data.len() == 1 {
        assert(data.drop_first().len() == 0);
    } else if data.len() == 2 {
        assert(data.drop_first().drop_first().len() == 0);
    }
}

/// Running status: after a message with data bytes, the data bytes of a second
/// message with the same status byte give that second message, with no status
/// byte between the two.
pub proof fn lemma_running_status(state: StreamState, message: MidiMessage, next: MidiMessage)
    requires
        message.wf(),
        next.wf(),
        message.len() > 1,
        status_of(message) == status_of(next),
    ensures
        run(state, encoding(message) + data_of(next)).1 == seq![message, next],
        run(state, encoding(message) + data_of(next)).0 == run(state, encoding(message)).0,
{
    lemma_run_in_portions(state, encoding(message), data_of(next));
    lemma_stream_reads_rendered_message(state, message);
    lemma_data_completes_message(run(state, encoding(message)).0, next);
    assert(seq![message] + seq![next] == seq![message, next]);
}

} // verus!
