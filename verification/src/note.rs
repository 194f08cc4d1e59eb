//! Note names and the twelve pitch classes they stand for.
//!
//! A [`Note`] remembers how it was written, so that `A#` and `Bb` are two
//! values. They name one pitch class, and `==` compares pitch classes: the
//! two are equal. Interval arithmetic is done on the circle of twelve
//! semitones and answers with the sharp spelling of a black key.

use vstd::prelude::*;

verus! {

/// A note name. Seven naturals, five sharps and five flats can be written;
/// a sharp and the flat of the next natural name the same pitch class.
#[derive(Debug, Clone, Copy)]
pub enum Note {
    A,
    B,
    C,
    D,
    E,
    F,
    G,
    ASHARP,
    CSHARP,
    DSHARP,
    FSHARP,
    GSHARP,
    DFLAT,
    EFLAT,
    GFLAT,
    AFLAT,
    BFLAT,
}

/// The natural note written with the letter `letter`, if there is one.
pub open spec fn natural_of(letter: char) -> Option<Note> {
    if letter == 'A' {
        Some(Note::A)
    } else if letter == 'B' {
        Some(Note::B)
    } else if letter == 'C' {
        Some(Note::C)
    } else if letter == 'D' {
        Some(Note::D)
    } else if letter == 'E' {
        Some(Note::E)
    } else if letter == 'F' {
        Some(Note::F)
    } else if letter == 'G' {
        Some(Note::G)
    } else {
        None
    }
}

/// The note written as `letter` followed by `#`, if that can be written.
/// E and B take no sharp.
pub open spec fn sharp_of(letter: char) -> Option<Note> {
    if letter == 'A' {
        Some(Note::ASHARP)
    } else if letter == 'C' {
        Some(Note::CSHARP)
    } else if letter == 'D' {
        Some(Note::DSHARP)
    } else if letter == 'F' {
        Some(Note::FSHARP)
    } else if letter == 'G' {
        Some(Note::GSHARP)
    } else {
        None
    }
}

/// The note written as `letter` followed by `b`, if that can be written.
/// C and F take no flat.
pub open spec fn flat_of(letter: char) -> Option<Note> {
    if letter == 'A' {
        Some(Note::AFLAT)
    } else if letter == 'B' {
        Some(Note::BFLAT)
    } else if letter == 'D' {
        Some(Note::DFLAT)
    } else if letter == 'E' {
        Some(Note::EFLAT)
    } else if letter == 'G' {
        Some(Note::GFLAT)
    } else {
        None
    }
}

/// The note that the text `s` spells: a letter alone, a letter and `#`, or
/// a letter and `b`. Any other text spells no note.
pub open spec fn note_named(s: Seq<char>) -> Option<Note> {
    if s.len() == 1 {
        natural_of(s[0])
    } else if s.len() == 2 && s[1] == '#' {
        sharp_of(s[0])
    } else if s.len() == 2 && s[1] == 'b' {
        flat_of(s[0])
    } else {
        None
    }
}

/// The note that stands for the pitch class `p` in results of interval
/// arithmetic: the natural for a white key, the sharp for a black one.
pub open spec fn sharp_spelling(p: int) -> Note {
    if p == 0 {
        Note::C
    } else if p == 1 {
        Note::CSHARP
    } else if p == 2 {
        Note::D
    } else if p == 3 {
        Note::DSHARP
    } else if p == 4 {
        Note::E
    } else if p == 5 {
        Note::F
    } else if p == 6 {
        Note::FSHARP
    } else if p == 7 {
        Note::G
    } else if p == 8 {
        Note::GSHARP
    } else if p == 9 {
        Note::A
    } else if p == 10 {
        Note::ASHARP
    } else {
        Note::B
    }
}

/// The note `semitones` steps above `note` on the circle of twelve.
pub open spec fn raised(note: Note, semitones: nat) -> Note {
    sharp_spelling((note.pitch_class() + semitones) % 12)
}

/// The note reached from `note` by stepping up one semitone `steps` times.
#[verifier::opaque]
pub open spec fn stepped(note: Note, steps: nat) -> Note
    decreases steps,
{
    if steps == 0 {
        note
    } else {
        raised(stepped(note, (steps - 1) as nat), 1)
    }
}

impl Note {
    /// The position of this note on the circle of twelve semitones, counted
    /// upwards from C.
    pub open spec fn pitch_class(self) -> int {
        match self {
            Note::C => 0,
            Note::CSHARP | Note::DFLAT => 1,
            Note::D => 2,
            Note::DSHARP | Note::EFLAT => 3,
            Note::E => 4,
            Note::F => 5,
            Note::FSHARP | Note::GFLAT => 6,
            Note::G => 7,
            Note::GSHARP | Note::AFLAT => 8,
            Note::A => 9,
            Note::ASHARP | Note::BFLAT => 10,
            Note::B => 11,
        }
    }

    /// The text that writes this note.
    pub open spec fn spelling(self) -> Seq<char> {
        match self {
            Note::A => seq!['A'],
            Note::B => seq!['B'],
            Note::C => seq!['C'],
            Note::D => seq!['D'],
            Note::E => seq!['E'],
            Note::F => seq!['F'],
            Note::G => seq!['G'],
            Note::ASHARP => seq!['A', '#'],
            Note::CSHARP => seq!['C', '#'],
            Note::DSHARP => seq!['D', '#'],
            Note::FSHARP => seq!['F', '#'],
            Note::GSHARP => seq!['G', '#'],
            Note::DFLAT => seq!['D', 'b'],
            Note::EFLAT => seq!['E', 'b'],
            Note::GFLAT => seq!['G', 'b'],
            Note::AFLAT => seq!['A', 'b'],
            Note::BFLAT => seq!['B', 'b'],
        }
    }

    /// The position of this note on the circle of twelve semitones, C being
    /// 0 and B being 11.
    pub fn position(self) -> (p: u8)
        ensures
            p == self.pitch_class(),
            p < 12,
    {
        match self {
            Note::C => 0,
            Note::CSHARP | Note::DFLAT => 1,
            Note::D => 2,
            Note::DSHARP | Note::EFLAT => 3,
            Note::E => 4,
            Note::F => 5,
            Note::FSHARP | Note::GFLAT => 6,
            Note::G => 7,
            Note::GSHARP | Note::AFLAT => 8,
            Note::A => 9,
            Note::ASHARP | Note::BFLAT => 10,
            Note::B => 11,
        }
    }

    /// The note at position `p` of the circle, a black key spelled as a
    /// sharp. Positions are taken modulo twelve.
    pub fn at_position(p: u8) -> (note: Note)
        ensures
            note == sharp_spelling((p % 12) as int),
            note.pitch_class() == p % 12,
    {
        let q: u8 = p % 12;
        if q == 0 {
            Note::C
        } else if q == 1 {
            Note::CSHARP
        } else if q == 2 {
            Note::D
        } else if q == 3 {
            Note::DSHARP
        } else if q == 4 {
            Note::E
        } else if q == 5 {
            Note::F
        } else if q == 6 {
            Note::FSHARP
        } else if q == 7 {
            Note::G
        } else if q == 8 {
            Note::GSHARP
        } else if q == 9 {
            Note::A
        } else if q == 10 {
            Note::ASHARP
        } else {
            Note::B
        }
    }

    /// The spelling that interval arithmetic gives this note's pitch class:
    /// a flat becomes the sharp below it, every other note is kept.
    pub fn canonical(self) -> (note: Note)
        ensures
            note == sharp_spelling(self.pitch_class()),
            note.pitch_class() == self.pitch_class(),
    {
        Note::at_position(self.position())
    }

    /// The natural note written with `letter`.
    pub fn natural(letter: char) -> (note: Option<Note>)
        ensures
            note == natural_of(letter),
    {
        if letter == 'A' {
            Some(Note::A)
        } else if letter == 'B' {
            Some(Note::B)
        } else if letter == 'C' {
            Some(Note::C)
        } else if letter == 'D' {
            Some(Note::D)
        } else if letter == 'E' {
            Some(Note::E)
        } else if letter == 'F' {
            Some(Note::F)
        } else if letter == 'G' {
            Some(Note::G)
        } else {
            None
        }
    }

    /// The note written as `letter` and `#`.
    pub fn sharp(letter: char) -> (note: Option<Note>)
        ensures
            note == sharp_of(letter),
    {
        if letter == 'A' {
            Some(Note::ASHARP)
        } else if letter == 'C' {
            Some(Note::CSHARP)
        } else if letter == 'D' {
            Some(Note::DSHARP)
        } else if letter == 'F' {
            Some(Note::FSHARP)
        } else if letter == 'G' {
            Some(Note::GSHARP)
        } else {
            None
        }
    }

    /// The note written as `letter` and `b`.
    pub fn flat(letter: char) -> (note: Option<Note>)
        ensures
            note == flat_of(letter),
    {
        if letter == 'A' {
            Some(Note::AFLAT)
        } else if letter == 'B' {
            Some(Note::BFLAT)
        } else if letter == 'D' {
            Some(Note::DFLAT)
        } else if letter == 'E' {
            Some(Note::EFLAT)
        } else if letter == 'G' {
            Some(Note::GFLAT)
        } else {
            None
        }
    }

    /// The text that writes this note, as it would be read back by
    /// [`to_note`].
    pub fn name(self) -> (s: String)
        ensures
            s@ == self.spelling(),
    {
        proof {
            reveal_strlit("A");
            reveal_strlit("B");
            reveal_strlit("C");
            reveal_strlit("D");
            reveal_strlit("E");
            reveal_strlit("F");
            reveal_strlit("G");
            reveal_strlit("A#");
            reveal_strlit("C#");
            reveal_strlit("D#");
            reveal_strlit("F#");
            reveal_strlit("G#");
            reveal_strlit("Db");
            reveal_strlit("Eb");
            reveal_strlit("Gb");
            reveal_strlit("Ab");
            reveal_strlit("Bb");
        }
        let text: &str = match self {
            Note::A => "A",
            Note::B => "B",
            Note::C => "C",
            Note::D => "D",
            Note::E => "E",
            Note::F => "F",
            Note::G => "G",
            Note::ASHARP => "A#",
            Note::CSHARP => "C#",
            Note::DSHARP => "D#",
            Note::FSHARP => "F#",
            Note::GSHARP => "G#",
            Note::DFLAT => "Db",
            Note::EFLAT => "Eb",
            Note::GFLAT => "Gb",
            Note::AFLAT => "Ab",
            Note::BFLAT => "Bb",
        };
        String::from_str(text)
    }

    /// One name for each pitch class, the same for every spelling of it:
    /// the name of the sharp spelling.
    pub fn canonical_name(self) -> (s: String)
        ensures
            s@ == sharp_spelling(self.pitch_class()).spelling(),
    {
        self.canonical().name()
    }
}

impl PartialEq for Note {
    /// Two notes are equal when they name the same pitch class, however
    /// they are spelled.
    fn eq(&self, other: &Self) -> (r: bool) {
        self.position() == other.position()
    }
}

impl vstd::std_specs::cmp::PartialEqSpecImpl for Note {
    open spec fn obeys_eq_spec() -> bool {
        true
    }

    open spec fn eq_spec(&self, other: &Self) -> bool {
        self.pitch_class() == other.pitch_class()
    }
}

/// Reads a note name: one of the seven letters A to G, alone or followed by
/// the `#` or `b` that the letter can take. Anything else is no note.
pub fn to_note(string_rep: &str) -> (note: Option<Note>)
    ensures
        note == note_named(string_rep@),
{
    let len: usize = string_rep.unicode_len();
    if len == 1 {
        Note::natural(string_rep.get_char(0))
    } else if len == 2 {
        let letter: char = string_rep.get_char(0);
        let accidental: char = string_rep.get_char(1);
        if accidental == '#' {
            Note::sharp(letter)
        } else if accidental == 'b' {
            Note::flat(letter)
        } else {
            None
        }
    } else {
        None
    }
}

/// The note one semitone above `note`; above B the circle starts again at C.
pub fn next_note(note: Note) -> (next: Note)
    ensures
        next == raised(note, 1),
        next.pitch_class() == (note.pitch_class() + 1) % 12,
{
    match note {
        Note::A => Note::ASHARP,
        Note::B => Note::C,
        Note::C => Note::CSHARP,
        Note::D => Note::DSHARP,
        Note::E => Note::F,
        Note::F => Note::FSHARP,
        Note::G => Note::GSHARP,
        Note::ASHARP => Note::B,
        Note::CSHARP => Note::D,
        Note::DSHARP => Note::E,
        Note::FSHARP => Note::G,
        Note::GSHARP => Note::A,
        Note::DFLAT => Note::D,
        Note::EFLAT => Note::E,
        Note::GFLAT => Note::G,
        Note::AFLAT => Note::A,
        Note::BFLAT => Note::B,
    }
}

/// Every note lies on the circle of twelve.
pub proof fn lemma_pitch_class_in_range(note: Note)
    ensures
        0 <= note.pitch_class() < 12,
{
}

/// The note a minor third, three semitones, above `note`.
pub fn plus_minor_third(note: Note) -> (third: Note)
    ensures
        third == raised(note, 3),
        third.pitch_class() == (note.pitch_class() + 3) % 12,
{
    proof {
        lemma_pitch_class_in_range(note);
    }
    let one = next_note(note);
    let two = next_note(one);
    assert(two.pitch_class() == (note.pitch_class() + 2) % 12);
    next_note(two)
}

/// The note a major third, four semitones, above `note`.
pub fn plus_major_third(note: Note) -> (third: Note)
    ensures
        third == raised(note, 4),
        third.pitch_class() == (note.pitch_class() + 4) % 12,
{
    proof {
        lemma_pitch_class_in_range(note);
    }
    next_note(plus_minor_third(note))
}

/// The note a perfect fifth, seven semitones, above `note`.
pub fn plus_perfect_fifth(note: Note) -> (fifth: Note)
    ensures
        fifth == raised(note, 7),
        fifth.pitch_class() == (note.pitch_class() + 7) % 12,
{
    proof {
        lemma_pitch_class_in_range(note);
    }
    let one = next_note(note);
    let two = next_note(one);
    assert(two.pitch_class() == (note.pitch_class() + 2) % 12);
    let three = next_note(two);
    assert(three.pitch_class() == (note.pitch_class() + 3) % 12);
    let four = next_note(three);
    assert(four.pitch_class() == (note.pitch_class() + 4) % 12);
    let five = next_note(four);
    assert(five.pitch_class() == (note.pitch_class() + 5) % 12);
    let six = next_note(five);
    assert(six.pitch_class() == (note.pitch_class() + 6) % 12);
    next_note(six)
}

} // verus!
