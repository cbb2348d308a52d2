use vstd::prelude::*;

verus! {

/// One of the twelve scale degrees of the chromatic octave.
#[derive(Hash, Debug, Copy, Clone, PartialEq, Eq, Structural)]
pub enum Note {
    One,
    FlatTwo,
    Two,
    Three,
    FlatThree,
    Four,
    SharpFour,
    Five,
    FlatSix,
    Six,
    FlatSeven,
    Seven,
}

/// Position of a note in the octave, from 0 (`One`) to 11 (`Seven`).
pub open spec fn index_of(n: Note) -> int {
    match n {
        Note::One => 0,
        Note::FlatTwo => 1,
        Note::Two => 2,
        Note::FlatThree => 3,
        Note::Three => 4,
        Note::Four => 5,
        Note::SharpFour => 6,
        Note::Five => 7,
        Note::FlatSix => 8,
        Note::Six => 9,
        Note::FlatSeven => 10,
        Note::Seven => 11,
    }
}

/// The note at a position of the octave.
pub open spec fn note_at(i: int) -> Note
    recommends
        0 <= i < 12,
{
    if i == 0 {
        Note::One
    } else if i == 1 {
        Note::FlatTwo
    } else if i == 2 {
        Note::Two
    } else if i == 3 {
        Note::FlatThree
    } else if i == 4 {
        Note::Three
    } else if i == 5 {
        Note::Four
    } else if i == 6 {
        Note::SharpFour
    } else if i == 7 {
        Note::Five
    } else if i == 8 {
        Note::FlatSix
    } else if i == 9 {
        Note::Six
    } else if i == 10 {
        Note::FlatSeven
    } else {
        Note::Seven
    }
}

/// The interval from `root` up to `relative`, as a position of the octave.
pub open spec fn interval(root: Note, relative: Note) -> int {
    (index_of(relative) - index_of(root) + 12) % 12
}

/// The note that stands at the interval from `root` up to `relative`.
pub open spec fn absolute_of(root: Note, relative: Note) -> Note {
    note_at(interval(root, relative))
}

/// Display label of a note (`"b2"`, `"#4"`, ...).
pub open spec fn label_of(n: Note) -> Seq<char> {
    match n {
        Note::One => "1"@,
        Note::FlatTwo => "b2"@,
        Note::Two => "2"@,
        Note::FlatThree => "b3"@,
        Note::Three => "3"@,
        Note::Four => "4"@,
        Note::SharpFour => "#4"@,
        Note::Five => "5"@,
        Note::FlatSix => "b6"@,
        Note::Six => "6"@,
        Note::FlatSeven => "b7"@,
        Note::Seven => "7"@,
    }
}

pub proof fn lemma_index_bounds(n: Note)
    ensures
        0 <= index_of(n) < 12,
        note_at(index_of(n)) == n,
{
}

pub proof fn lemma_note_at(i: int)
    requires
        0 <= i < 12,
    ensures
        index_of(note_at(i)) == i,
{
}

/// Two notes are equal exactly when their positions are.
pub proof fn lemma_index_injective(a: Note, b: Note)
    ensures
        (index_of(a) == index_of(b)) <==> (a == b),
{
}

impl Note {
    /// The note at position `n` of the octave (0 is `One`, 11 is `Seven`).
    pub fn from_number(n: i32) -> (r: Note)
        requires
            0 <= n < 12,
        ensures
            index_of(r) == n,
    {
        match n {
            0 => Note::One,
            1 => Note::FlatTwo,
            2 => Note::Two,
            3 => Note::FlatThree,
            4 => Note::Three,
            5 => Note::Four,
            6 => Note::SharpFour,
            7 => Note::Five,
            8 => Note::FlatSix,
            9 => Note::Six,
            10 => Note::FlatSeven,
            _ => Note::Seven,
        }
    }

    /// Key number of the note within one octave of a piano keyboard, 1 to 12.
    pub fn to_keyboard_note(&self) -> (r: i32)
        ensures
            r == index_of(*self) + 1,
    {
        match self {
            Note::One => 1,
            Note::FlatTwo => 2,
            Note::Two => 3,
            Note::FlatThree => 4,
            Note::Three => 5,
            Note::Four => 6,
            Note::SharpFour => 7,
            Note::Five => 8,
            Note::FlatSix => 9,
            Note::Six => 10,
            Note::FlatSeven => 11,
            Note::Seven => 12,
        }
    }

    /// Piano key of the note in the low (root) register, starting at C2.
    pub fn to_keyboard_c1_note(&self) -> (r: i32)
        ensures
            r == index_of(*self) + 16,
    {
        self.to_keyboard_note() + 15
    }

    /// Piano key of the note in the high (interval) register, starting at C4.
    pub fn to_keyboard_c5_note(&self) -> (r: i32)
        ensures
            r == index_of(*self) + 40,
    {
        self.to_keyboard_note() + 39
    }

    /// Display label of the note.
    pub fn label(&self) -> (r: &'static str)
        ensures
            r@ == label_of(*self),
    {
        match self {
            Note::One => "1",
            Note::FlatTwo => "b2",
            Note::Two => "2",
            Note::FlatThree => "b3",
            Note::Three => "3",
            Note::Four => "4",
            Note::SharpFour => "#4",
            Note::Five => "5",
            Note::FlatSix => "b6",
            Note::Six => "6",
            Note::FlatSeven => "b7",
            Note::Seven => "7",
        }
    }
}

/// The twelve notes, in order of position.
pub open spec fn all_notes() -> Seq<Note> {
    Seq::new(12, |i: int| note_at(i))
}

/// The twelve notes are distinct.
pub proof fn lemma_all_notes_distinct()
    ensures
        all_notes().no_duplicates(),
        all_notes().len() == 12,
{
    assert forall|i: int, j: int|
        0 <= i < 12 && 0 <= j < 12 && i != j implies all_notes()[i] != all_notes()[j] by {
        lemma_note_at(i);
        lemma_note_at(j);
    }
}

/// Every note of the octave, in order of position.
pub fn get_all_notes() -> (r: Vec<Note>)
    ensures
        r@ == all_notes(),
        r@.len() == 12,
        forall|i: int| 0 <= i < 12 ==> index_of(#[trigger] r@[i]) == i,
{
    let mut notes: Vec<Note> = Vec::new();
    let mut i: i32 = 0;
    while i < 12
        invariant
            0 <= i <= 12,
            notes@.len() == i,
            forall|j: int| 0 <= j < i ==> index_of(#[trigger] notes@[j]) == j,
        decreases 12 - i,
    {
        notes.push(Note::from_number(i));
        i = i + 1;
    }
    assert forall|j: int| 0 <= j < 12 implies notes@[j] == all_notes()[j] by {
        lemma_index_bounds(notes@[j]);
    }
    assert(notes@ =~= all_notes());
    notes
}

/// The interval from `root` up to `relative`, expressed as the note at that
/// distance above `One`.
pub fn relative_note_to_absolute(root: Note, relative: Note) -> (r: Note)
    ensures
        r == absolute_of(root, relative),
        index_of(r) == interval(root, relative),
{
    let difference = (relative.to_keyboard_note() - root.to_keyboard_note() + 12) % 12;
    Note::from_number(difference)
}

/// The interval note depends only on the distance between the two notes, so
/// transposing root and relative together leaves it unchanged.
pub proof fn lemma_absolute_transposition(root: Note, relative: Note, root2: Note, relative2: Note)
    requires
        (index_of(relative) - index_of(root)) % 12 == (index_of(relative2) - index_of(root2)) % 12,
    ensures
        absolute_of(root, relative) == absolute_of(root2, relative2),
{
    lemma_distance_mod(index_of(relative) - index_of(root));
    lemma_distance_mod(index_of(relative2) - index_of(root2));
}

proof fn lemma_distance_mod(d: int)
    requires
        -12 < d < 12,
    ensures
        d % 12 == (d + 12) % 12,
        (d + 12) % 12 == if d >= 0 { d } else { d + 12 },
{
    if d >= 0 {
        assert(d % 12 == d);
        assert((d + 12) % 12 == d);
    } else {
        assert(d % 12 == d + 12);
        assert((d + 12) % 12 == d + 12);
    }
}

} // verus!
