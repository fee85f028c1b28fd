//! MIDI note numbers, and their names in the twelve tone scale.

use crate::message::{saturate, DATA_MAX};
use vstd::math::min;
use vstd::prelude::*;

verus! {

/// A MIDI note number, 0 to 127.
///
/// Note 0 is C in octave -2 and note 127 is G in octave 8.
#[derive(Debug, PartialEq, Eq, Copy, Clone, Structural)]
pub struct Note(pub(crate) u8);

impl Note {
    /// The note number.
    pub open(crate) spec fn view(&self) -> u8 {
        self.0
    }

    /// The note number never exceeds 127.
    #[verifier::type_invariant]
    pub open spec fn wf(&self) -> bool {
        self@ <= DATA_MAX
    }

    /// The value that [`Note::new`] builds from `val`.
    pub open(crate) spec fn spec_new(val: u8) -> Note {
        Note(saturate(val, DATA_MAX))
    }

    /// Builds a note from its number. Numbers above 127 give note 127.
    #[verifier::when_used_as_spec(spec_new)]
    pub fn new(val: u8) -> (r: Note)
        ensures
            r == Note::spec_new(val),
            r@ == min(val as int, 127),
    {
        Note(
            if val > DATA_MAX {
                DATA_MAX
            } else {
                val
            },
        )
    }

    /// The number that [`Note::value`] returns.
    pub open spec fn spec_value(self) -> u8 {
        self@
    }

    /// The note number.
    #[verifier::when_used_as_spec(spec_value)]
    pub fn value(self) -> (r: u8)
        ensures
            r == self@,
            r <= 127,
    {
        proof {
            use_type_invariant(&self);
        }
        self.0
    }
}

impl From<u8> for Note {
    /// The same as [`Note::new`].
    fn from(note: u8) -> (r: Note)
        ensures
            r == Note::new(note),
            r@ == min(note as int, 127),
    {
        Note::new(note)
    }
}

impl vstd::std_specs::convert::FromSpecImpl<u8> for Note {
    open spec fn obeys_from_spec() -> bool {
        true
    }

    open spec fn from_spec(note: u8) -> Note {
        Note::new(note)
    }
}

impl From<Note> for u8 {
    /// The same as [`Note::value`].
    fn from(note: Note) -> (r: u8)
        ensures
            r == note@,
            r <= 127,
    {
        note.value()
    }
}

impl vstd::std_specs::convert::FromSpecImpl<Note> for u8 {
    open spec fn obeys_from_spec() -> bool {
        true
    }

    open spec fn from_spec(note: Note) -> u8 {
        note@
    }
}

/// The twelve tones of an octave, by their English names. `Cs` is C sharp.
#[derive(Debug, PartialEq, Eq, Copy, Clone, Structural)]
pub enum NoteName {
    C,
    Cs,
    D,
    Ds,
    E,
    F,
    Fs,
    G,
    Gs,
    A,
    As,
    B,
}

#[allow(non_upper_case_globals)]
impl NoteName {
    /// D flat, the same tone as C sharp.
    pub const Db: NoteName = NoteName::Cs;

    /// E flat, the same tone as D sharp.
    pub const Eb: NoteName = NoteName::Ds;

    /// G flat, the same tone as F sharp.
    pub const Gb: NoteName = NoteName::Fs;

    /// A flat, the same tone as G sharp.
    pub const Ab: NoteName = NoteName::Gs;

    /// B flat, the same tone as A sharp.
    pub const Bb: NoteName = NoteName::As;

    /// The place of the tone in its octave: 0 for C, 11 for B.
    pub open spec fn number(self) -> u8 {
        match self {
            NoteName::C => 0,
            NoteName::Cs => 1,
            NoteName::D => 2,
            NoteName::Ds => 3,
            NoteName::E => 4,
            NoteName::F => 5,
            NoteName::Fs => 6,
            NoteName::G => 7,
            NoteName::Gs => 8,
            NoteName::A => 9,
            NoteName::As => 10,
            NoteName::B => 11,
        }
    }

    /// The tone at place `number % 12` of an octave.
    pub open spec fn at(number: int) -> NoteName {
        let place = number % 12;
        if place == 0 {
            NoteName::C
        } else if place == 1 {
            NoteName::Cs
        } else if place == 2 {
            NoteName::D
        } else if place == 3 {
            NoteName::Ds
        } else if place == 4 {
            NoteName::E
        } else if place == 5 {
            NoteName::F
        } else if place == 6 {
            NoteName::Fs
        } else if place == 7 {
            NoteName::G
        } else if place == 8 {
            NoteName::Gs
        } else if place == 9 {
            NoteName::A
        } else if place == 10 {
            NoteName::As
        } else {
            NoteName::B
        }
    }
}

impl From<NoteName> for u8 {
    /// The place of the tone in its octave: 0 for C, 11 for B.
    fn from(value: NoteName) -> (r: u8)
        ensures
            r == value.number(),
            r <= 11,
    {
        match value {
            NoteName::C => 0,
            NoteName::Cs => 1,
            NoteName::D => 2,
            NoteName::Ds => 3,
            NoteName::E => 4,
            NoteName::F => 5,
            NoteName::Fs => 6,
            NoteName::G => 7,
            NoteName::Gs => 8,
            NoteName::A => 9,
            NoteName::As => 10,
            NoteName::B => 11,
        }
    }
}

impl vstd::std_specs::convert::FromSpecImpl<NoteName> for u8 {
    open spec fn obeys_from_spec() -> bool {
        true
    }

    open spec fn from_spec(value: NoteName) -> u8 {
        value.number()
    }
}

impl Note {
    /// The tone of the note within its octave.
    pub open spec fn name(&self) -> NoteName {
        NoteName::at(self@ as int)
    }

    /// The octave of the note, -2 to 8.
    pub open spec fn octave(&self) -> int {
        self@ / 12 - 2
    }

    /// The note that [`Note::with_name`] builds.
    pub open spec fn spec_with_name(name: NoteName, octave: i8) -> Note {
        if octave < -2 {
            Note::new(0)
        } else if octave > 8 {
            Note::new(127)
        } else {
            Note::new((name.number() + (octave + 2) * 12) as u8)
        }
    }

    /// Builds the note with the given name in the given octave.
    ///
    /// Octaves run from -2 to 8. An octave below -2 gives note 0; an octave
    /// above 8, or a tone of octave 8 above G, gives note 127.
    #[verifier::when_used_as_spec(spec_with_name)]
    pub fn with_name(name: NoteName, octave: i8) -> (r: Note)
        ensures
            r == Note::spec_with_name(name, octave),
            octave < -2 ==> r@ == 0,
            octave > 8 ==> r@ == 127,
            -2 <= octave <= 8 ==> r@ == min(name.number() + (octave + 2) * 12, 127),
    {
        if octave < -2i8 {
            Note(0)
        } else if octave > 8 {
            Note(DATA_MAX)
        } else {
            let number: u8 = u8::from(name) + (octave + 2) as u8 * 12;
            if number > DATA_MAX {
                Note(DATA_MAX)
            } else {
                Note::new(number)
            }
        }
    }
}

impl From<Note> for (NoteName, i8) {
    /// The name of the note and its octave.
    fn from(note: Note) -> (r: (NoteName, i8))
        ensures
            r.0 == note.name(),
            r.1 == note.octave(),
            -2 <= r.1 <= 8,
            r.0.number() + (r.1 + 2) * 12 == note@,
    {
        proof {
            use_type_invariant(&note);
        }
        let octave: i8 = note.0 as i8 / 12 - 2;
        let note_name = match note.0 % 12 {
            0 => NoteName::C,
            1 => NoteName::Cs,
            2 => NoteName::D,
            3 => NoteName::Ds,
            4 => NoteName::E,
            5 => NoteName::F,
            6 => NoteName::Fs,
            7 => NoteName::G,
            8 => NoteName::Gs,
            9 => NoteName::A,
            10 => NoteName::As,
            _ => NoteName::B,
        };
        (note_name, octave)
    }
}

impl vstd::std_specs::convert::FromSpecImpl<Note> for (NoteName, i8) {
    open spec fn obeys_from_spec() -> bool {
        true
    }

    open spec fn from_spec(note: Note) -> (NoteName, i8) {
        (note.name(), note.octave() as i8)
    }
}

/// A note is found again from its name and its octave.
pub proof fn lemma_note_from_its_name(note: Note)
    requires
        note.wf(),
    ensures
        -2 <= note.octave() <= 8,
        Note::with_name(note.name(), note.octave() as i8) == note,
{
}

/// Where the tone `name` exists in `octave`, the note built from the two has that
/// name and that octave.
pub proof fn lemma_name_of_named_note(name: NoteName, octave: i8)
    requires
        -2 <= octave <= 8,
        name.number() + (octave + 2) * 12 <= 127,
    ensures
        Note::with_name(name, octave).name() == name,
        Note::with_name(name, octave).octave() == octave,
        Note::with_name(name, octave).value() == name.number() + (octave + 2) * 12,
{
}

} // verus!
