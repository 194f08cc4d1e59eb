//! Reading a chord from text.
//!
//! [`ChordParser::parse`] matches one rule of the grammar at the start of a
//! text. [`parse_root`] reads a whole text as one chord: the text has to be
//! a chord token, with whitespace before and behind it at most, and nothing
//! may be left over.

use vstd::prelude::*;

use crate::chord::{chord_named, Chord};
use crate::error::ParseError;
use crate::grammar::{
    blank_len, blank_run, chars_of, chord_at, match_len, match_rule, minor_marker_at, root_len,
    tonic_len, Rule,
};
use crate::note::note_named;

verus! {

/// The parser of chord notation.
#[derive(Debug, Clone, Copy)]
pub struct ChordParser;

/// The two parts of a chord token: the text of the tonic, and whether the
/// minor marker stands behind it.
#[derive(Debug)]
pub struct ParsedRoot {
    pub tonic: String,
    pub minor: bool,
}

/// The parts of the chord token that `s` holds, where all of `s` is a
/// `root`: whitespace, a chord, whitespace, and nothing more.
pub open spec fn root_parts(s: Seq<char>) -> Option<(Seq<char>, bool)> {
    let token = s.skip(blank_len(s) as int);
    if root_len(s) == Some(s.len()) {
        let t = tonic_len(token).unwrap();
        Some((token.take(t as int), minor_marker_at(token, t)))
    } else {
        None
    }
}

/// The chord that the text `s` denotes, or the reason why it denotes none.
pub open spec fn parsed_chord(s: Seq<char>) -> Result<Chord, ParseError> {
    match root_parts(s) {
        Some((tonic, minor)) => chord_named(tonic, minor),
        None => Err(ParseError::Syntax),
    }
}

/// What the grammar takes as a tonic spells a note.
pub proof fn lemma_tonic_is_named(s: Seq<char>)
    requires
        tonic_len(s) is Some,
    ensures
        tonic_len(s).unwrap() <= s.len(),
        note_named(s.take(tonic_len(s).unwrap() as int)) is Some,
{
}

/// No text is read as a chord with an unknown tonic: a text is a chord, or
/// it is malformed.
pub proof fn lemma_tonic_always_known(s: Seq<char>)
    ensures
        parsed_chord(s) != Err::<Chord, ParseError>(ParseError::UnknownTonic),
{
    if root_len(s) == Some(s.len()) {
        lemma_tonic_is_named(s.skip(blank_len(s) as int));
    }
}

impl ChordParser {
    /// Matches `rule` at the start of `input` and returns the text that the
    /// rule has taken, which may be less than all of `input`. Where the
    /// rule does not match there, the result is a syntax error.
    pub fn parse<'a>(rule: Rule, input: &'a str) -> (matched: Result<&'a str, ParseError>)
        ensures
            match match_len(rule, input@) {
                Some(n) => matched is Ok && matched->Ok_0@ == input@.take(n as int),
                None => matched == Err::<&str, ParseError>(ParseError::Syntax),
            },
    {
        let chars = chars_of(input);
        match match_rule(rule, chars.as_slice()) {
            Some(n) => Ok(input.substring_char(0, n)),
            None => Err(ParseError::Syntax),
        }
    }

    /// Reads all of `input` as one chord token and returns its two parts.
    /// Whitespace before and behind the token is passed over; anything else
    /// around it, or no token at all, is a syntax error.
    pub fn parse_parts(input: &str) -> (parts: Result<ParsedRoot, ParseError>)
        ensures
            match root_parts(input@) {
                Some((tonic, minor)) => parts is Ok && parts->Ok_0.tonic@ == tonic
                    && parts->Ok_0.minor == minor,
                None => parts == Err::<ParsedRoot, ParseError>(ParseError::Syntax),
            },
    {
        let chars = chars_of(input);
        let text = chars.as_slice();
        let lead: usize = blank_run(text, 0);
        assert(text@.skip(0) =~= text@);
        match chord_at(text, lead) {
            Some((t, minor)) => {
                let len: usize = text.len();
                assert(lead + t <= len);
                let end: usize = if minor {
                    lead + t + 1
                } else {
                    lead + t
                };
                let trail: usize = blank_run(text, end);
                if end + trail == len {
                    let tonic = input.substring_char(lead, lead + t);
                    assert(tonic@ =~= input@.skip(lead as int).take(t as int));
                    Ok(ParsedRoot { tonic: String::from_str(tonic), minor })
                } else {
                    Err(ParseError::Syntax)
                }
            },
            None => Err(ParseError::Syntax),
        }
    }
}

/// Reads `input` as a chord. The text is one chord token: a tonic, and `m`
/// behind it for a minor chord, with whitespace before and behind at most.
pub fn parse_root(input: &str) -> (chord: Result<Chord, ParseError>)
    ensures
        chord == parsed_chord(input@),
        chord != Err::<Chord, ParseError>(ParseError::UnknownTonic),
{
    proof {
        lemma_tonic_always_known(input@);
    }
    match ChordParser::parse_parts(input) {
        Ok(parts) => Chord::from_parts(parts.tonic.as_str(), parts.minor),
        Err(_) => Err(ParseError::Syntax),
    }
}

} // verus!
