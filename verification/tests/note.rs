use midi_types::{Note, NoteName};

#[test]
fn note_conv() {
    let note = Note::C2m();
    assert_eq!(0u8, note.into());
    let (n, o): (NoteName, i8) = note.into();
    assert_eq!(NoteName::C, n);
    assert_eq!(o, -2);

    let note = Note::G8();
    assert_eq!(127u8, note.into());
    let (n, o): (NoteName, i8) = note.into();
    assert_eq!(NoteName::G, n);
    assert_eq!(o, 8);

    assert_eq!(127u8, Note::MAX().into());
    assert_eq!(0u8, Note::MIN().into());

    let note: Note = Note::with_name(NoteName::C, 0);
    assert_eq!(Note::C0(), note);

    let note: Note = Note::with_name(NoteName::Cs, 0);
    assert_eq!(Note::Cs0(), note);

    let note: Note = Note::with_name(NoteName::C, -1);
    assert_eq!(Note::C1m(), note);

    let note = Note::with_name(NoteName::C, -2);
    assert_eq!(Note::C2m(), note);

    let note = Note::with_name(NoteName::A, 1);
    assert_eq!(Note::A1(), note);

    let note = Note::with_name(NoteName::G, 8);
    assert_eq!(Note::G8(), note);

    let note = Note::with_name(NoteName::A, 8);
    assert_eq!(Note::MAX(), note);

    let note = Note::with_name(NoteName::C, 9);
    assert_eq!(Note::MAX(), note);

    let note = Note::with_name(NoteName::C, -3);
    assert_eq!(Note::MIN(), note);
}

const NAMES: [NoteName; 12] = [
    NoteName::C,
    NoteName::Cs,
    NoteName::D,
    NoteName::Ds,
    NoteName::E,
    NoteName::F,
    NoteName::Fs,
    NoteName::G,
    NoteName::Gs,
    NoteName::A,
    NoteName::As,
    NoteName::B,
];

#[test]
fn note_names_number_the_octave() {
    for (place, name) in NAMES.iter().enumerate() {
        assert_eq!(u8::from(*name), place as u8);
    }
    assert_eq!(u8::from(NoteName::Fs), 6);
}

#[test]
fn flat_names_are_the_sharp_tones() {
    assert_eq!(NoteName::Db, NoteName::Cs);
    assert_eq!(NoteName::Eb, NoteName::Ds);
    assert_eq!(NoteName::Gb, NoteName::Fs);
    assert_eq!(NoteName::Ab, NoteName::Gs);
    assert_eq!(NoteName::Bb, NoteName::As);
}

#[test]
fn note_is_found_again_from_name_and_octave() {
    for number in 0..=127u8 {
        let note = Note::new(number);
        let (name, octave): (NoteName, i8) = note.into();
        assert_eq!(name, NAMES[(number % 12) as usize]);
        assert_eq!(octave, (number / 12) as i8 - 2);
        assert_eq!(Note::with_name(name, octave), note);
    }
}

#[test]
fn with_name_counts_twelve_tones_an_octave() {
    for octave in -2..=8i8 {
        for name in NAMES {
            let number = u8::from(name) as i16 + (octave as i16 + 2) * 12;
            let note = Note::with_name(name, octave);
            assert_eq!(note.value() as i16, number.min(127));
        }
    }
    assert_eq!(Note::with_name(NoteName::C, 3).value(), 60);
    assert_eq!(Note::with_name(NoteName::A, 3).value(), 69);
}

#[test]
fn with_name_saturates_outside_the_octaves() {
    for name in NAMES {
        assert_eq!(Note::with_name(name, -3), Note::new(0));
        assert_eq!(Note::with_name(name, i8::MIN), Note::new(0));
        assert_eq!(Note::with_name(name, 9), Note::new(127));
        assert_eq!(Note::with_name(name, i8::MAX), Note::new(127));
    }
    assert_eq!(Note::with_name(NoteName::Gs, 8), Note::new(127));
    assert_eq!(Note::with_name(NoteName::B, 8), Note::new(127));
    assert_eq!(Note::with_name(NoteName::Fs, 8), Note::new(126));
}

#[test]
fn named_notes_have_their_numbers() {
    assert_eq!(Note::C2m().value(), 0);
    assert_eq!(Note::B2m().value(), 11);
    assert_eq!(Note::C1m().value(), 12);
    assert_eq!(Note::C0().value(), 24);
    assert_eq!(Note::C3().value(), 60);
    assert_eq!(Note::A3().value(), 69);
    assert_eq!(Note::C4().value(), 72);
    assert_eq!(Note::Fs8().value(), 126);
    assert_eq!(Note::G8().value(), 127);
    assert_eq!(Note::Ds5(), Note::with_name(NoteName::Ds, 5));
    assert_eq!(Note::As7(), Note::with_name(NoteName::Bb, 7));
}
