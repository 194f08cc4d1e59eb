//! Chords, and the notes they are made of.

use vstd::prelude::*;

use crate::error::ParseError;
use crate::note::{
    note_named, plus_major_third, plus_minor_third, plus_perfect_fifth, raised, to_note, Note,
};

verus! {

/// A major or a minor triad on a tonic.
#[derive(Debug, Clone, Copy)]
pub enum Chord {
    MajorChord(Note),
    MinorChord(Note),
}

/// The chord on `tonic` of the quality that `minor` tells.
pub open spec fn chord_on(tonic: Note, minor: bool) -> Chord {
    if minor {
        Chord::MinorChord(tonic)
    } else {
        Chord::MajorChord(tonic)
    }
}

/// What a tonic text and a quality make: the chord on the note that the
/// text spells, or an error where it spells none.
pub open spec fn chord_named(tonic: Seq<char>, minor: bool) -> Result<Chord, ParseError> {
    match note_named(tonic) {
        Some(note) => Ok(chord_on(note, minor)),
        None => Err(ParseError::UnknownTonic),
    }
}

impl Chord {
    /// The note the chord is built on.
    pub open spec fn root(self) -> Note {
        match self {
            Chord::MajorChord(tonic) => tonic,
            Chord::MinorChord(tonic) => tonic,
        }
    }

    /// Whether this is a minor chord.
    pub open spec fn minor(self) -> bool {
        self is MinorChord
    }

    /// The number of semitones from the tonic to the third: three in a
    /// minor chord, four in a major one.
    pub open spec fn third_interval(self) -> nat {
        if self.minor() {
            3
        } else {
            4
        }
    }

    /// Tonic, third and fifth, in this order. The tonic is kept as it was
    /// written; third and fifth are three or four, and seven semitones
    /// above it.
    pub open spec fn notes(self) -> Seq<Note> {
        seq![self.root(), raised(self.root(), self.third_interval()), raised(self.root(), 7)]
    }

    /// The text that writes this chord: the tonic, and `m` after it for a
    /// minor chord.
    pub open spec fn notation(self) -> Seq<char> {
        if self.minor() {
            self.root().spelling().push('m')
        } else {
            self.root().spelling()
        }
    }

    /// The note the chord is built on.
    pub fn tonic(&self) -> (note: Note)
        ensures
            note == self.root(),
    {
        match self {
            Chord::MajorChord(tonic) => *tonic,
            Chord::MinorChord(tonic) => *tonic,
        }
    }

    /// Whether this is a minor chord.
    pub fn is_minor(&self) -> (minor: bool)
        ensures
            minor == self.minor(),
    {
        match self {
            Chord::MajorChord(_) => false,
            Chord::MinorChord(_) => true,
        }
    }

    /// Builds the chord from the two parts of a chord token: the text of
    /// the tonic and whether the minor marker follows it. A tonic text that
    /// spells no note gives `UnknownTonic`.
    pub fn from_parts(tonic: &str, minor: bool) -> (chord: Result<Chord, ParseError>)
        ensures
            chord == chord_named(tonic@, minor),
    {
        match to_note(tonic) {
            Some(note) => {
                if minor {
                    Ok(Chord::MinorChord(note))
                } else {
                    Ok(Chord::MajorChord(note))
                }
            },
            None => Err(ParseError::UnknownTonic),
        }
    }
}

impl PartialEq for Chord {
    /// Two chords are equal when they have the same quality and their
    /// tonics name the same pitch class.
    fn eq(&self, other: &Self) -> (r: bool) {
        self.is_minor() == other.is_minor() && self.tonic() == other.tonic()
    }
}

impl vstd::std_specs::cmp::PartialEqSpecImpl for Chord {
    open spec fn obeys_eq_spec() -> bool {
        true
    }

    open spec fn eq_spec(&self, other: &Self) -> bool {
        self.minor() == other.minor() && self.root().pitch_class() == other.root().pitch_class()
    }
}

/// The notes of a chord: its tonic, its third and its fifth, in this order.
pub fn map_chord_to_notes(chord: Chord) -> (notes: Vec<Note>)
    ensures
        notes@ == chord.notes(),
{
    match chord {
        Chord::MinorChord(tonic) => {
            let minor_third = plus_minor_third(tonic);
            let perfect_fifth = plus_perfect_fifth(tonic);
            vec![tonic, minor_third, perfect_fifth]
        },
        Chord::MajorChord(tonic) => {
            let major_third = plus_major_third(tonic);
            let perfect_fifth = plus_perfect_fifth(tonic);
            vec![tonic, major_third, perfect_fifth]
        },
    }
}

} // verus!
