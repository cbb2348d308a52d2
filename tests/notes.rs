use tonestep::{get_all_notes, relative_note_to_absolute, Note};

fn piano_frequency(key: i32) -> f32 {
    440.0 * 2.0_f32.powf((key - 49) as f32 / 12.0)
}

fn root_note_to_frequency(note: Note) -> f32 {
    piano_frequency(note.to_keyboard_c1_note())
}

fn relative_note_to_frequency(note: Note) -> f32 {
    piano_frequency(note.to_keyboard_c5_note())
}

#[test]
fn test_root_note_to_frequency() {
    assert_eq!(65.40639, root_note_to_frequency(Note::One));
    assert_eq!(69.295654, root_note_to_frequency(Note::FlatTwo));
    assert_eq!(73.4162, root_note_to_frequency(Note::Two));
    assert_eq!(77.781746, root_note_to_frequency(Note::FlatThree));
    assert_eq!(82.40688, root_note_to_frequency(Note::Three));
    assert_eq!(87.30706, root_note_to_frequency(Note::Four));
    assert_eq!(92.498604, root_note_to_frequency(Note::SharpFour));
    assert_eq!(97.99885, root_note_to_frequency(Note::Five));
    assert_eq!(103.82618, root_note_to_frequency(Note::FlatSix));
    assert_eq!(110.0, root_note_to_frequency(Note::Six));
    assert_eq!(116.54095, root_note_to_frequency(Note::FlatSeven));
    assert_eq!(123.470825, root_note_to_frequency(Note::Seven));
}

#[test]
fn test_relative_note_to_frequency() {
    assert_eq!(261.62555, relative_note_to_frequency(Note::One));
    assert_eq!(277.18265, relative_note_to_frequency(Note::FlatTwo));
    assert_eq!(293.66476, relative_note_to_frequency(Note::Two));
    assert_eq!(311.12698, relative_note_to_frequency(Note::FlatThree));
    assert_eq!(329.62756, relative_note_to_frequency(Note::Three));
    assert_eq!(349.22824, relative_note_to_frequency(Note::Four));
    assert_eq!(369.99442, relative_note_to_frequency(Note::SharpFour));
    assert_eq!(391.99542, relative_note_to_frequency(Note::Five));
    assert_eq!(415.3047, relative_note_to_frequency(Note::FlatSix));
    assert_eq!(440.0, relative_note_to_frequency(Note::Six));
    assert_eq!(466.1638, relative_note_to_frequency(Note::FlatSeven));
    assert_eq!(493.8833, relative_note_to_frequency(Note::Seven));
}

#[test]
fn test_relative_note_to_absolute() {
    assert_eq!(Note::One, relative_note_to_absolute(Note::One, Note::One));
    assert_eq!(
        Note::FlatTwo,
        relative_note_to_absolute(Note::One, Note::FlatTwo)
    );
    assert_eq!(Note::Two, relative_note_to_absolute(Note::One, Note::Two));
    assert_eq!(
        Note::FlatThree,
        relative_note_to_absolute(Note::One, Note::FlatThree)
    );
    assert_eq!(
        Note::Three,
        relative_note_to_absolute(Note::One, Note::Three)
    );
    assert_eq!(Note::Four, relative_note_to_absolute(Note::One, Note::Four));
    assert_eq!(
        Note::SharpFour,
        relative_note_to_absolute(Note::One, Note::SharpFour)
    );
    assert_eq!(Note::Five, relative_note_to_absolute(Note::One, Note::Five));
    assert_eq!(
        Note::FlatSix,
        relative_note_to_absolute(Note::One, Note::FlatSix)
    );
    assert_eq!(Note::Six, relative_note_to_absolute(Note::One, Note::Six));
    assert_eq!(
        Note::FlatSeven,
        relative_note_to_absolute(Note::One, Note::FlatSeven)
    );
    assert_eq!(
        Note::Seven,
        relative_note_to_absolute(Note::One, Note::Seven)
    );

    assert_eq!(
        Note::FlatSix,
        relative_note_to_absolute(Note::Three, Note::One)
    );
    assert_eq!(
        Note::Six,
        relative_note_to_absolute(Note::Three, Note::FlatTwo)
    );
    assert_eq!(
        Note::FlatSeven,
        relative_note_to_absolute(Note::Three, Note::Two)
    );
    assert_eq!(
        Note::Seven,
        relative_note_to_absolute(Note::Three, Note::FlatThree)
    );
    assert_eq!(
        Note::One,
        relative_note_to_absolute(Note::Three, Note::Three)
    );
    assert_eq!(
        Note::FlatTwo,
        relative_note_to_absolute(Note::Three, Note::Four)
    );
    assert_eq!(
        Note::Two,
        relative_note_to_absolute(Note::Three, Note::SharpFour)
    );
    assert_eq!(
        Note::FlatThree,
        relative_note_to_absolute(Note::Three, Note::Five)
    );
    assert_eq!(
        Note::Three,
        relative_note_to_absolute(Note::Three, Note::FlatSix)
    );
    assert_eq!(
        Note::Four,
        relative_note_to_absolute(Note::Three, Note::Six)
    );
    assert_eq!(
        Note::SharpFour,
        relative_note_to_absolute(Note::Three, Note::FlatSeven)
    );
    assert_eq!(
        Note::Five,
        relative_note_to_absolute(Note::Three, Note::Seven)
    );
}

#[test]
fn absolute_interval_ignores_transposition() {
    // a major third above One, and above FlatSix (wrapping past the octave)
    assert_eq!(
        relative_note_to_absolute(Note::One, Note::Three),
        relative_note_to_absolute(Note::FlatSix, Note::One)
    );
    assert_eq!(
        relative_note_to_absolute(Note::Two, Note::Five),
        relative_note_to_absolute(Note::Seven, Note::Three)
    );
    assert_eq!(Note::Four, relative_note_to_absolute(Note::Two, Note::Five));
}

#[test]
fn from_number_and_keyboard_note_are_inverse() {
    for n in 0..12 {
        let note = Note::from_number(n);
        assert_eq!(n + 1, note.to_keyboard_note());
        assert_eq!(n + 16, note.to_keyboard_c1_note());
        assert_eq!(n + 40, note.to_keyboard_c5_note());
    }
    assert_eq!(Note::FlatThree, Note::from_number(3));
    assert_eq!(Note::Three, Note::from_number(4));
    assert_eq!(Note::Seven, Note::from_number(11));
}

#[test]
fn all_notes_in_order() {
    let notes = get_all_notes();
    assert_eq!(12, notes.len());
    for (i, note) in notes.iter().enumerate() {
        assert_eq!(Note::from_number(i as i32), *note);
    }
}

#[test]
fn note_labels() {
    assert_eq!("1", Note::One.label());
    assert_eq!("b2", Note::FlatTwo.label());
    assert_eq!("b3", Note::FlatThree.label());
    assert_eq!("#4", Note::SharpFour.label());
    assert_eq!("b6", Note::FlatSix.label());
    assert_eq!("b7", Note::FlatSeven.label());
    assert_eq!("7", Note::Seven.label());
}
