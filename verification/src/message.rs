//! The value types carried by MIDI messages, and the message type itself.
//!
//! Every value type wraps a byte (two, for [`Value14`]) whose range is fixed
//! when the value is built: constructors saturate, so a value out of range
//! cannot be observed.

use crate::note::Note;
use vstd::math::min;
use vstd::prelude::*;
use vstd::std_specs::convert::FromSpec;

verus! {

/// The largest value a MIDI data byte can carry.
pub const DATA_MAX: u8 = 127;

/// The largest channel number.
pub const CHANNEL_MAX: u8 = 15;

/// The largest number a 14 bit value can carry.
pub const VALUE14_MAX: u16 = 16383;

/// `value`, or `bound` where `value` lies above it.
pub open spec fn saturate(value: u8, bound: u8) -> u8 {
    if value > bound {
        bound
    } else {
        value
    }
}

/// A MIDI channel. Channels are numbered 0 to 15 here; devices show them as 1 to 16.
#[derive(Debug, PartialEq, Eq, Copy, Clone, Structural)]
pub struct Channel(pub(crate) u8);

impl Channel {
    /// The channel number.
    pub open(crate) spec fn view(&self) -> u8 {
        self.0
    }

    /// The channel number never exceeds 15.
    #[verifier::type_invariant]
    pub open spec fn wf(&self) -> bool {
        self@ <= CHANNEL_MAX
    }

    /// The value that [`Channel::new`] builds from `channel`.
    pub open(crate) spec fn spec_new(channel: u8) -> Channel {
        Channel(saturate(channel, CHANNEL_MAX))
    }

    /// Builds a channel from its 0 based number. Numbers above 15 give channel 15.
    #[verifier::when_used_as_spec(spec_new)]
    pub fn new(channel: u8) -> (r: Channel)
        ensures
            r == Channel::spec_new(channel),
            r@ == min(channel as int, 15),
    {
        Channel(
            if channel > CHANNEL_MAX {
                CHANNEL_MAX
            } else {
                channel
            },
        )
    }

    /// The number that [`Channel::value`] returns.
    pub open spec fn spec_value(self) -> u8 {
        self@
    }

    /// The 0 based channel number.
    #[verifier::when_used_as_spec(spec_value)]
    pub fn value(self) -> (r: u8)
        ensures
            r == self@,
            r <= 15,
    {
        proof {
            use_type_invariant(&self);
        }
        self.0
    }
}

impl From<u8> for Channel {
    /// The same as [`Channel::new`].
    fn from(channel: u8) -> (r: Channel)
        ensures
            r == Channel::new(channel),
            r@ == min(channel as int, 15),
    {
        Channel::new(channel)
    }
}

impl vstd::std_specs::convert::FromSpecImpl<u8> for Channel {
    open spec fn obeys_from_spec() -> bool {
        true
    }

    open spec fn from_spec(channel: u8) -> Channel {
        Channel::new(channel)
    }
}

impl From<Channel> for u8 {
    /// The same as [`Channel::value`].
    fn from(channel: Channel) -> (r: u8)
        ensures
            r == channel@,
            r <= 15,
    {
        channel.value()
    }
}

impl vstd::std_specs::convert::FromSpecImpl<Channel> for u8 {
    open spec fn obeys_from_spec() -> bool {
        true
    }

    open spec fn from_spec(channel: Channel) -> u8 {
        channel@
    }
}

/// A MIDI controller number, 0 to 127.
#[derive(Debug, PartialEq, Eq, Copy, Clone, Structural)]
pub struct Control(pub(crate) u8);

impl Control {
    /// The controller number.
    pub open(crate) spec fn view(&self) -> u8 {
        self.0
    }

    /// The controller number never exceeds 127.
    #[verifier::type_invariant]
    pub open spec fn wf(&self) -> bool {
        self@ <= DATA_MAX
    }

    /// The value that [`Control::new`] builds from `control`.
    pub open(crate) spec fn spec_new(control: u8) -> Control {
        Control(saturate(control, DATA_MAX))
    }

    /// Builds a controller number. Numbers above 127 give 127.
    #[verifier::when_used_as_spec(spec_new)]
    pub fn new(control: u8) -> (r: Control)
        ensures
            r == Control::spec_new(control),
            r@ == min(control as int, 127),
    {
        Control(
            if control > DATA_MAX {
                DATA_MAX
            } else {
                control
            },
        )
    }

    /// The number that [`Control::value`] returns.
    pub open spec fn spec_value(self) -> u8 {
        self@
    }

    /// The controller number.
    #[verifier::when_used_as_spec(spec_value)]
    pub fn value(self) -> (r: u8)
        ensures
            r == self@,
            r <= 127,
    {
        proof {
            use_type_invariant(&self);
        }
        self.0
    }
}

impl From<u8> for Control {
    /// The same as [`Control::new`].
    fn from(control: u8) -> (r: Control)
        ensures
            r == Control::new(control),
            r@ == min(control as int, 127),
    {
        Control::new(control)
    }
}

impl vstd::std_specs::convert::FromSpecImpl<u8> for Control {
    open spec fn obeys_from_spec() -> bool {
        true
    }

    open spec fn from_spec(control: u8) -> Control {
        Control::new(control)
    }
}

impl From<Control> for u8 {
    /// The same as [`Control::value`].
    fn from(control: Control) -> (r: u8)
        ensures
            r == control@,
            r <= 127,
    {
        control.value()
    }
}

impl vstd::std_specs::convert::FromSpecImpl<Control> for u8 {
    open spec fn obeys_from_spec() -> bool {
        true
    }

    open spec fn from_spec(control: Control) -> u8 {
        control@
    }
}

/// A MIDI program number, 0 to 127. Devices usually map these to presets.
#[derive(Debug, PartialEq, Eq, Copy, Clone, Structural)]
pub struct Program(pub(crate) u8);

impl Program {
    /// The program number.
    pub open(crate) spec fn view(&self) -> u8 {
        self.0
    }

    /// The program number never exceeds 127.
    #[verifier::type_invariant]
    pub open spec fn wf(&self) -> bool {
        self@ <= DATA_MAX
    }

    /// The value that [`Program::new`] builds from `program`.
    pub open(crate) spec fn spec_new(program: u8) -> Program {
        Program(saturate(program, DATA_MAX))
    }

    /// Builds a program number. Numbers above 127 give 127.
    #[verifier::when_used_as_spec(spec_new)]
    pub fn new(program: u8) -> (r: Program)
        ensures
            r == Program::spec_new(program),
            r@ == min(program as int, 127),
    {
        Program(
            if program > DATA_MAX {
                DATA_MAX
            } else {
                program
            },
        )
    }

    /// The number that [`Program::value`] returns.
    pub open spec fn spec_value(self) -> u8 {
        self@
    }

    /// The program number.
    #[verifier::when_used_as_spec(spec_value)]
    pub fn value(self) -> (r: u8)
        ensures
            r == self@,
            r <= 127,
    {
        proof {
            use_type_invariant(&self);
        }
        self.0
    }
}

impl From<u8> for Program {
    /// The same as [`Program::new`].
    fn from(program: u8) -> (r: Program)
        ensures
            r == Program::new(program),
            r@ == min(program as int, 127),
    {
        Program::new(program)
    }
}

impl vstd::std_specs::convert::FromSpecImpl<u8> for Program {
    open spec fn obeys_from_spec() -> bool {
        true
    }

    open spec fn from_spec(program: u8) -> Program {
        Program::new(program)
    }
}

impl From<Program> for u8 {
    /// The same as [`Program::value`].
    fn from(program: Program) -> (r: u8)
        ensures
            r == program@,
            r <= 127,
    {
        program.value()
    }
}

impl vstd::std_specs::convert::FromSpecImpl<Program> for u8 {
    open spec fn obeys_from_spec() -> bool {
        true
    }

    open spec fn from_spec(program: Program) -> u8 {
        program@
    }
}

/// A 7 bit MIDI data value, 0 to 127: the most significant bit of its byte is never set.
#[derive(Debug, PartialEq, Eq, Copy, Clone, Structural)]
pub struct Value7(pub(crate) u8);

impl Value7 {
    /// The value.
    pub open(crate) spec fn view(&self) -> u8 {
        self.0
    }

    /// The value never exceeds 127.
    #[verifier::type_invariant]
    pub open spec fn wf(&self) -> bool {
        self@ <= DATA_MAX
    }

    /// The value that [`Value7::new`] builds from `value`.
    pub open(crate) spec fn spec_new(value: u8) -> Value7 {
        Value7(saturate(value, DATA_MAX))
    }

    /// Builds a 7 bit value. Numbers above 127 give 127.
    #[verifier::when_used_as_spec(spec_new)]
    pub fn new(value: u8) -> (r: Value7)
        ensures
            r == Value7::spec_new(value),
            r@ == min(value as int, 127),
    {
        Value7(
            if value > DATA_MAX {
                DATA_MAX
            } else {
                value
            },
        )
    }

    /// The number that [`Value7::value`] returns.
    pub open spec fn spec_value(self) -> u8 {
        self@
    }

    /// The value as a byte.
    #[verifier::when_used_as_spec(spec_value)]
    pub fn value(self) -> (r: u8)
        ensures
            r == self@,
            r <= 127,
    {
        proof {
            use_type_invariant(&self);
        }
        self.0
    }
}

impl From<u8> for Value7 {
    /// The same as [`Value7::new`].
    fn from(value: u8) -> (r: Value7)
        ensures
            r == Value7::new(value),
            r@ == min(value as int, 127),
    {
        Value7::new(value)
    }
}

impl vstd::std_specs::convert::FromSpecImpl<u8> for Value7 {
    open spec fn obeys_from_spec() -> bool {
        true
    }

    open spec fn from_spec(value: u8) -> Value7 {
        Value7::new(value)
    }
}

impl From<Value7> for u8 {
    /// The same as [`Value7::value`].
    fn from(value: Value7) -> (r: u8)
        ensures
            r == value@,
            r <= 127,
    {
        value.value()
    }
}

impl vstd::std_specs::convert::FromSpecImpl<Value7> for u8 {
    open spec fn obeys_from_spec() -> bool {
        true
    }

    open spec fn from_spec(value: Value7) -> u8 {
        value@
    }
}

/// A 14 bit MIDI value, 0 to 16383, kept as two 7 bit data bytes.
///
/// Read as a signed number it runs from -8192 to 8191, with 8192 stored for zero.
#[derive(Debug, PartialEq, Eq, Copy, Clone, Structural)]
pub struct Value14(pub(crate) u8, pub(crate) u8);

impl Value14 {
    /// The more significant data byte.
    pub open(crate) spec fn msb(&self) -> u8 {
        self.0
    }

    /// The less significant data byte.
    pub open(crate) spec fn lsb(&self) -> u8 {
        self.1
    }

    /// The 14 bit number.
    pub open spec fn view(&self) -> int {
        self.msb() * 128 + self.lsb()
    }

    /// Neither data byte exceeds 127, so the number never exceeds 16383.
    #[verifier::type_invariant]
    pub open spec fn wf(&self) -> bool {
        self.msb() <= DATA_MAX && self.lsb() <= DATA_MAX
    }

    /// The signed reading of the value: its number less 8192.
    pub open spec fn signed(&self) -> int {
        self@ - 8192
    }

    /// The value that [`Value14::new`] builds from the two bytes.
    pub open(crate) spec fn spec_new(msb: u8, lsb: u8) -> Value14 {
        Value14(saturate(msb, DATA_MAX), saturate(lsb, DATA_MAX))
    }

    /// Builds a 14 bit value from its two data bytes. A byte above 127 counts as 127.
    #[verifier::when_used_as_spec(spec_new)]
    pub fn new(msb: u8, lsb: u8) -> (r: Value14)
        ensures
            r == Value14::spec_new(msb, lsb),
            r.msb() == min(msb as int, 127),
            r.lsb() == min(lsb as int, 127),
            r@ == min(msb as int, 127) * 128 + min(lsb as int, 127),
    {
        Value14(
            if msb >= DATA_MAX {
                DATA_MAX
            } else {
                msb
            },
            if lsb >= DATA_MAX {
                DATA_MAX
            } else {
                lsb
            },
        )
    }

    /// The value with the number `number`, or with 0 or 16383 where `number` lies
    /// below the one or above the other.
    pub open(crate) spec fn with_number(number: int) -> Value14 {
        let number = if number < 0 {
            0
        } else {
            min(number, VALUE14_MAX as int)
        };
        Value14((number / 128) as u8, (number % 128) as u8)
    }
}

impl From<(u8, u8)> for Value14 {
    /// Builds the value from the pair of its more and its less significant byte,
    /// as [`Value14::new`] does.
    fn from(value: (u8, u8)) -> (r: Value14)
        ensures
            r == Value14::new(value.0, value.1),
            r@ == min(value.0 as int, 127) * 128 + min(value.1 as int, 127),
    {
        Value14::new(value.0, value.1)
    }
}

impl vstd::std_specs::convert::FromSpecImpl<(u8, u8)> for Value14 {
    open spec fn obeys_from_spec() -> bool {
        true
    }

    open spec fn from_spec(value: (u8, u8)) -> Value14 {
        Value14::new(value.0, value.1)
    }
}

impl From<Value14> for (u8, u8) {
    /// The more significant byte, then the less significant one.
    fn from(value: Value14) -> (r: (u8, u8))
        ensures
            r == (value.msb(), value.lsb()),
            r.0 <= 127,
            r.1 <= 127,
            r.0 * 128 + r.1 == value@,
    {
        proof {
            use_type_invariant(&value);
        }
        (value.0, value.1)
    }
}

impl vstd::std_specs::convert::FromSpecImpl<Value14> for (u8, u8) {
    open spec fn obeys_from_spec() -> bool {
        true
    }

    open spec fn from_spec(value: Value14) -> (u8, u8) {
        (value.msb(), value.lsb())
    }
}

impl From<u16> for Value14 {
    /// Builds the value from its number. Numbers above 16383 give 16383.
    fn from(value: u16) -> (r: Value14)
        ensures
            r == Value14::with_number(value as int),
            r@ == min(value as int, 16383),
    {
        let value: u16 = if value > VALUE14_MAX {
            VALUE14_MAX
        } else {
            value
        };
        assert((value & 0x3f80) >> 7 == value / 128 && value & 0x007f == value % 128) by (bit_vector)
            requires
                value <= 16383,
        ;
        Value14(((value & 0x3f80) >> 7) as u8, (value & 0x007f) as u8)
    }
}

impl vstd::std_specs::convert::FromSpecImpl<u16> for Value14 {
    open spec fn obeys_from_spec() -> bool {
        true
    }

    open spec fn from_spec(value: u16) -> Value14 {
        Value14::with_number(value as int)
    }
}

impl From<Value14> for u16 {
    /// The 14 bit number.
    fn from(value: Value14) -> (r: u16)
        ensures
            r == value@,
            r <= 16383,
    {
        proof {
            use_type_invariant(&value);
        }
        let msb: u16 = value.0 as u16;
        assert(msb << 7 == msb * 128) by (bit_vector)
            requires
                msb <= 127,
        ;
        (msb << 7) + value.1 as u16
    }
}

impl vstd::std_specs::convert::FromSpecImpl<Value14> for u16 {
    open spec fn obeys_from_spec() -> bool {
        true
    }

    open spec fn from_spec(value: Value14) -> u16 {
        value@ as u16
    }
}

impl From<i16> for Value14 {
    /// Builds the value from its signed reading. Numbers below -8192 give -8192,
    /// numbers above 8191 give 8191.
    fn from(value: i16) -> (r: Value14)
        ensures
            r == Value14::with_number(value + 8192),
            value < -8192 ==> r.signed() == -8192,
            -8192 <= value <= 8191 ==> r.signed() == value,
            value > 8191 ==> r.signed() == 8191,
    {
        let value: i16 = if value < -8192 {
            -8192
        } else if value > 8191 {
            8191
        } else {
            value
        };
        let value: i16 = value + 8192;
        assert((value & 0x3f80) >> 7 == value / 128 && value & 0x007f == value % 128) by (bit_vector)
            requires
                0 <= value <= 16383,
        ;
        Value14::new(((value & 0x3f80) >> 7) as u8, (value & 0x007f) as u8)
    }
}

impl vstd::std_specs::convert::FromSpecImpl<i16> for Value14 {
    open spec fn obeys_from_spec() -> bool {
        true
    }

    open spec fn from_spec(value: i16) -> Value14 {
        Value14::with_number(value + 8192)
    }
}

impl From<Value14> for i16 {
    /// The signed reading, -8192 to 8191.
    fn from(value: Value14) -> (r: i16)
        ensures
            r == value.signed(),
            -8192 <= r <= 8191,
    {
        let v: u16 = value.into();
        (v as i16) - 8192
    }
}

impl vstd::std_specs::convert::FromSpecImpl<Value14> for i16 {
    open spec fn obeys_from_spec() -> bool {
        true
    }

    open spec fn from_spec(value: Value14) -> i16 {
        value.signed() as i16
    }
}

/// The data byte of a MIDI time code quarter frame message, 0 to 127.
#[derive(Debug, PartialEq, Eq, Copy, Clone, Structural)]
pub struct QuarterFrame(pub(crate) u8);

impl QuarterFrame {
    /// The data byte.
    pub open(crate) spec fn view(&self) -> u8 {
        self.0
    }

    /// The data byte never exceeds 127.
    #[verifier::type_invariant]
    pub open spec fn wf(&self) -> bool {
        self@ <= DATA_MAX
    }

    /// The value that [`QuarterFrame::new`] builds from `frame`.
    pub open(crate) spec fn spec_new(frame: u8) -> QuarterFrame {
        QuarterFrame(saturate(frame, DATA_MAX))
    }

    /// Builds a quarter frame value. Numbers above 127 give 127.
    #[verifier::when_used_as_spec(spec_new)]
    pub fn new(frame: u8) -> (r: QuarterFrame)
        ensures
            r == QuarterFrame::spec_new(frame),
            r@ == min(frame as int, 127),
    {
        QuarterFrame(
            if frame > DATA_MAX {
                DATA_MAX
            } else {
                frame
            },
        )
    }

    /// The number that [`QuarterFrame::value`] returns.
    pub open spec fn spec_value(self) -> u8 {
        self@
    }

    /// The data byte.
    #[verifier::when_used_as_spec(spec_value)]
    pub fn value(self) -> (r: u8)
        ensures
            r == self@,
            r <= 127,
    {
        proof {
            use_type_invariant(&self);
        }
        self.0
    }
}

impl From<u8> for QuarterFrame {
    /// The same as [`QuarterFrame::new`].
    fn from(frame: u8) -> (r: QuarterFrame)
        ensures
            r == QuarterFrame::new(frame),
            r@ == min(frame as int, 127),
    {
        QuarterFrame::new(frame)
    }
}

impl vstd::std_specs::convert::FromSpecImpl<u8> for QuarterFrame {
    open spec fn obeys_from_spec() -> bool {
        true
    }

    open spec fn from_spec(frame: u8) -> QuarterFrame {
        QuarterFrame::new(frame)
    }
}

impl From<QuarterFrame> for u8 {
    /// The same as [`QuarterFrame::value`].
    fn from(frame: QuarterFrame) -> (r: u8)
        ensures
            r == frame@,
            r <= 127,
    {
        frame.value()
    }
}

impl vstd::std_specs::convert::FromSpecImpl<QuarterFrame> for u8 {
    open spec fn obeys_from_spec() -> bool {
        true
    }

    open spec fn from_spec(frame: QuarterFrame) -> u8 {
        frame@
    }
}

/// A MIDI message: one of the seven channel voice messages, or a system message.
#[derive(Debug, PartialEq, Eq, Copy, Clone, Structural)]
pub enum MidiMessage {
    /// A key was released.
    NoteOff(Channel, Note, Value7),
    /// A key was pressed.
    NoteOn(Channel, Note, Value7),
    /// The pressure on one key changed (polyphonic aftertouch).
    KeyPressure(Channel, Note, Value7),
    /// A controller changed its value.
    ControlChange(Channel, Control, Value7),
    /// Another program was selected.
    ProgramChange(Channel, Program),
    /// The pressure on the channel as a whole changed (channel aftertouch).
    ChannelPressure(Channel, Value7),
    /// The pitch bend wheel moved.
    PitchBendChange(Channel, Value14),
    /// A quarter frame of MIDI time code.
    QuarterFrame(QuarterFrame),
    /// The position in the song to continue from.
    SongPositionPointer(Value14),
    /// The song or sequence to play.
    SongSelect(Value7),
    /// A request to tune the oscillators.
    TuneRequest,
    /// A tick of the timing clock.
    TimingClock,
    /// Start the sequence.
    Start,
    /// Continue the sequence where it stopped.
    Continue,
    /// Stop the sequence.
    Stop,
    /// The sender is still there.
    ActiveSensing,
    /// Return to the state after power up.
    Reset,
}

impl MidiMessage {
    /// Every value that the message carries is in its range.
    pub open spec fn wf(&self) -> bool {
        match *self {
            MidiMessage::NoteOff(channel, note, velocity) => channel.wf() && note.wf()
                && velocity.wf(),
            MidiMessage::NoteOn(channel, note, velocity) => channel.wf() && note.wf()
                && velocity.wf(),
            MidiMessage::KeyPressure(channel, note, pressure) => channel.wf() && note.wf()
                && pressure.wf(),
            MidiMessage::ControlChange(channel, control, value) => channel.wf() && control.wf()
                && value.wf(),
            MidiMessage::ProgramChange(channel, program) => channel.wf() && program.wf(),
            MidiMessage::ChannelPressure(channel, pressure) => channel.wf() && pressure.wf(),
            MidiMessage::PitchBendChange(channel, bend) => channel.wf() && bend.wf(),
            MidiMessage::QuarterFrame(frame) => frame.wf(),
            MidiMessage::SongPositionPointer(position) => position.wf(),
            MidiMessage::SongSelect(song) => song.wf(),
            _ => true,
        }
    }

    /// The number of bytes that the message takes on the wire, its status byte included.
    pub open spec fn spec_len(&self) -> usize {
        match *self {
            MidiMessage::NoteOff(..)
            | MidiMessage::NoteOn(..)
            | MidiMessage::KeyPressure(..)
            | MidiMessage::ControlChange(..)
            | MidiMessage::PitchBendChange(..)
            | MidiMessage::SongPositionPointer(..) => 3,
            MidiMessage::ProgramChange(..)
            | MidiMessage::ChannelPressure(..)
            | MidiMessage::QuarterFrame(..)
            | MidiMessage::SongSelect(..) => 2,
            MidiMessage::TuneRequest
            | MidiMessage::TimingClock
            | MidiMessage::Start
            | MidiMessage::Continue
            | MidiMessage::Stop
            | MidiMessage::ActiveSensing
            | MidiMessage::Reset => 1,
        }
    }

    /// The number of bytes that the message takes on the wire, its status byte included.
    #[verifier::when_used_as_spec(spec_len)]
    pub fn len(&self) -> (r: usize)
        ensures
            r == self.spec_len(),
            1 <= r <= 3,
    {
        match self {
            MidiMessage::NoteOff(..)
            | MidiMessage::NoteOn(..)
            | MidiMessage::KeyPressure(..)
            | MidiMessage::ControlChange(..)
            | MidiMessage::PitchBendChange(..)
            | MidiMessage::SongPositionPointer(..) => 3,
            MidiMessage::ProgramChange(..)
            | MidiMessage::ChannelPressure(..)
            | MidiMessage::QuarterFrame(..)
            | MidiMessage::SongSelect(..) => 2,
            MidiMessage::TuneRequest
            | MidiMessage::TimingClock
            | MidiMessage::Start
            | MidiMessage::Continue
            | MidiMessage::Stop
            | MidiMessage::ActiveSensing
            | MidiMessage::Reset => 1,
        }
    }
}

/// A channel built from any byte is that byte, or 15 where the byte lies above 15.
pub proof fn lemma_channel_saturates(value: u8)
    ensures
        Channel::new(value).wf(),
        Channel::new(value).value() <= 15,
        Channel::new(value).value() == min(value as int, 15),
{
}

/// A value of one of the 7 bit types built from any byte is that byte, or 127
/// where the byte lies above 127.
pub proof fn lemma_data_values_saturate(value: u8)
    ensures
        Value7::new(value).wf(),
        Control::new(value).wf(),
        Program::new(value).wf(),
        QuarterFrame::new(value).wf(),
        Note::new(value).wf(),
        Value7::new(value).value() == min(value as int, 127),
        Control::new(value).value() == min(value as int, 127),
        Program::new(value).value() == min(value as int, 127),
        QuarterFrame::new(value).value() == min(value as int, 127),
        Note::new(value).value() == min(value as int, 127),
{
}

/// A value of one of the one byte types is found again from its byte.
pub proof fn lemma_byte_values_found_again(
    channel: Channel,
    control: Control,
    program: Program,
    value: Value7,
    frame: QuarterFrame,
    note: Note,
)
    requires
        channel.wf(),
        control.wf(),
        program.wf(),
        value.wf(),
        frame.wf(),
        note.wf(),
    ensures
        Channel::new(channel.value()) == channel,
        Control::new(control.value()) == control,
        Program::new(program.value()) == program,
        Value7::new(value.value()) == value,
        QuarterFrame::new(frame.value()) == frame,
        Note::new(note.value()) == note,
{
}

/// The number of a 14 bit value built from two data bytes is 128 times the first
/// plus the second, and the value gives the two bytes back.
pub proof fn lemma_value14_from_bytes(msb: u8, lsb: u8)
    requires
        msb <= 127,
        lsb <= 127,
    ensures
        Value14::new(msb, lsb).wf(),
        Value14::new(msb, lsb)@ == msb * 128 + lsb,
        u16::from_spec(Value14::new(msb, lsb)) == msb * 128 + lsb,
        <(u8, u8)>::from_spec(Value14::new(msb, lsb)) == (msb, lsb),
        Value14::from_spec((msb, lsb)) == Value14::new(msb, lsb),
{
}

/// A 14 bit value built from a number gives that number back, or 16383 where the
/// number lies above 16383.
pub proof fn lemma_value14_from_number(number: u16)
    ensures
        Value14::from_spec(number).wf(),
        Value14::from_spec(number)@ == min(number as int, 16383),
        u16::from_spec(Value14::from_spec(number)) == min(number as int, 16383),
{
}

/// A 14 bit value built from a signed number between -8192 and 8191 gives that
/// number back; a number below gives -8192 and a number above gives 8191.
pub proof fn lemma_value14_from_signed(number: i16)
    ensures
        Value14::from_spec(number).wf(),
        -8192 <= number <= 8191 ==> i16::from_spec(Value14::from_spec(number)) == number,
        number < -8192 ==> i16::from_spec(Value14::from_spec(number)) == -8192,
        number > 8191 ==> i16::from_spec(Value14::from_spec(number)) == 8191,
{
}

/// A 14 bit value is found again from its number, from its signed reading and
/// from its two bytes.
pub proof fn lemma_value14_found_again(value: Value14)
    requires
        value.wf(),
    ensures
        0 <= value@ <= 16383,
        -8192 <= value.signed() <= 8191,
        Value14::from_spec(u16::from_spec(value)) == value,
        Value14::from_spec(i16::from_spec(value)) == value,
        Value14::from_spec(<(u8, u8)>::from_spec(value)) == value,
{
}

} // verus!
