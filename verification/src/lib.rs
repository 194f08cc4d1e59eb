//! Chord notation: a recogniser for single chord tokens such as `C#m` or
//! `Bb`, and the interval arithmetic that turns a parsed chord into the
//! three pitch classes it is made of.

pub mod chord;
pub mod error;
pub mod grammar;
pub mod laws;
pub mod note;
pub mod parser;

pub use chord::{map_chord_to_notes, Chord};
pub use error::ParseError;
pub use grammar::Rule;
pub use note::{next_note, plus_major_third, plus_minor_third, plus_perfect_fifth, to_note, Note};
pub use parser::{parse_root, ChordParser, ParsedRoot};
