//! The grammar of a chord token, rule by rule.
//!
//! ```text
//! bare_note    := 'A' | 'B' | 'C' | 'D' | 'E' | 'F' | 'G'
//! sharped_note := ('A' | 'C' | 'D' | 'F' | 'G') '#'
//! flatted_note := ('A' | 'B' | 'D' | 'E' | 'G') 'b'
//! tonic        := sharped_note | flatted_note | bare_note
//! minor_chord  := tonic 'm'
//! major_chord  := tonic, with no 'm' behind it
//! chord        := minor_chord | major_chord
//! delimitor    := one or more whitespace characters
//! root         := delimitor? chord delimitor?
//! ```
//!
//! A rule is matched at the start of a text, takes the first alternative
//! that fits and as much whitespace as there is, and says how many
//! characters it has taken. What follows the match is not its concern.

use vstd::prelude::*;

use crate::note::{flat_of, natural_of, sharp_of, Note};

verus! {

/// The rules of the grammar.
#[derive(Debug, Clone, Copy, PartialEq, Eq, Structural)]
pub enum Rule {
    BareNote,
    SharpedNote,
    FlattedNote,
    Tonic,
    MinorChord,
    MajorChord,
    Chord,
    Delimitor,
    Root,
}

/// Whether `c` is whitespace: a character with the Unicode property
/// White_Space.
pub open spec fn is_blank(c: char) -> bool {
    ||| '\u{9}' <= c <= '\u{d}'
    ||| c == ' '
    ||| c == '\u{85}'
    ||| c == '\u{a0}'
    ||| c == '\u{1680}'
    ||| '\u{2000}' <= c <= '\u{200a}'
    ||| c == '\u{2028}'
    ||| c == '\u{2029}'
    ||| c == '\u{202f}'
    ||| c == '\u{205f}'
    ||| c == '\u{3000}'
}

/// Whether `s` is made of whitespace only.
pub open spec fn all_blank(s: Seq<char>) -> bool {
    forall|i: int| 0 <= i < s.len() ==> is_blank(#[trigger] s[i])
}

/// The number of whitespace characters at the start of `s`.
pub open spec fn blank_len(s: Seq<char>) -> nat
    decreases s.len(),
{
    if s.len() > 0 && is_blank(s[0]) {
        1 + blank_len(s.skip(1))
    } else {
        0
    }
}

/// What `bare_note` takes from the start of `s`.
pub open spec fn bare_note_len(s: Seq<char>) -> Option<nat> {
    if s.len() >= 1 && natural_of(s[0]) is Some {
        Some(1)
    } else {
        None
    }
}

/// What `sharped_note` takes from the start of `s`.
pub open spec fn sharped_note_len(s: Seq<char>) -> Option<nat> {
    if s.len() >= 2 && sharp_of(s[0]) is Some && s[1] == '#' {
        Some(2)
    } else {
        None
    }
}

/// What `flatted_note` takes from the start of `s`.
pub open spec fn flatted_note_len(s: Seq<char>) -> Option<nat> {
    if s.len() >= 2 && flat_of(s[0]) is Some && s[1] == 'b' {
        Some(2)
    } else {
        None
    }
}

/// What `tonic` takes from the start of `s`: a sharped note, else a flatted
/// note, else a bare note.
pub open spec fn tonic_len(s: Seq<char>) -> Option<nat> {
    if sharped_note_len(s) is Some {
        sharped_note_len(s)
    } else if flatted_note_len(s) is Some {
        flatted_note_len(s)
    } else {
        bare_note_len(s)
    }
}

/// Whether the character at index `at` of `s` is the minor marker.
pub open spec fn minor_marker_at(s: Seq<char>, at: nat) -> bool {
    at < s.len() && s[at as int] == 'm'
}

/// What `minor_chord` takes from the start of `s`.
pub open spec fn minor_chord_len(s: Seq<char>) -> Option<nat> {
    match tonic_len(s) {
        Some(t) => if minor_marker_at(s, t) {
            Some(t + 1)
        } else {
            None
        },
        None => None,
    }
}

/// What `major_chord` takes from the start of `s`.
pub open spec fn major_chord_len(s: Seq<char>) -> Option<nat> {
    match tonic_len(s) {
        Some(t) => if minor_marker_at(s, t) {
            None
        } else {
            Some(t)
        },
        None => None,
    }
}

/// What `chord` takes from the start of `s`: a minor chord, else a major
/// chord.
pub open spec fn chord_len(s: Seq<char>) -> Option<nat> {
    if minor_chord_len(s) is Some {
        minor_chord_len(s)
    } else {
        major_chord_len(s)
    }
}

/// What `delimitor` takes from the start of `s`.
pub open spec fn delimitor_len(s: Seq<char>) -> Option<nat> {
    if blank_len(s) >= 1 {
        Some(blank_len(s))
    } else {
        None
    }
}

/// What `root` takes from the start of `s`: the whitespace there, a chord,
/// and the whitespace behind the chord.
pub open spec fn root_len(s: Seq<char>) -> Option<nat> {
    let lead = blank_len(s);
    match chord_len(s.skip(lead as int)) {
        Some(c) => Some(lead + c + blank_len(s.skip((lead + c) as int))),
        None => None,
    }
}

/// The number of characters that `rule` takes from the start of `s`, or
/// `None` where the rule does not match there.
pub open spec fn match_len(rule: Rule, s: Seq<char>) -> Option<nat> {
    match rule {
        Rule::BareNote => bare_note_len(s),
        Rule::SharpedNote => sharped_note_len(s),
        Rule::FlattedNote => flatted_note_len(s),
        Rule::Tonic => tonic_len(s),
        Rule::MinorChord => minor_chord_len(s),
        Rule::MajorChord => major_chord_len(s),
        Rule::Chord => chord_len(s),
        Rule::Delimitor => delimitor_len(s),
        Rule::Root => root_len(s),
    }
}

/// Whether `c` is whitespace.
pub fn is_whitespace(c: char) -> (blank: bool)
    ensures
        blank == is_blank(c),
{
    ('\u{9}' <= c && c <= '\u{d}') || c == ' ' || c == '\u{85}' || c == '\u{a0}' || c
        == '\u{1680}' || ('\u{2000}' <= c && c <= '\u{200a}') || c == '\u{2028}' || c
        == '\u{2029}' || c == '\u{202f}' || c == '\u{205f}' || c == '\u{3000}'
}

/// The characters of `text`, one by one.
pub fn chars_of(text: &str) -> (chars: Vec<char>)
    ensures
        chars@ == text@,
{
    let mut chars: Vec<char> = Vec::new();
    for c in it: text.chars()
        invariant
            chars@ == it.seq().take(it.index()),
            it.seq() == text@,
    {
        chars.push(c);
    }
    chars
}

/// Stepping over one whitespace character: the whitespace at the start of
/// `s.skip(i)` is one more than that at the start of `s.skip(i + 1)`.
proof fn lemma_blank_len_step(s: Seq<char>, i: int)
    requires
        0 <= i < s.len(),
    ensures
        is_blank(s[i]) ==> blank_len(s.skip(i)) == 1 + blank_len(s.skip(i + 1)),
        !is_blank(s[i]) ==> blank_len(s.skip(i)) == 0,
{
    assert(s.skip(i).skip(1) =~= s.skip(i + 1));
}

/// The number of whitespace characters of `text` from index `from` on.
pub fn blank_run(text: &[char], from: usize) -> (n: usize)
    requires
        from <= text@.len(),
    ensures
        n == blank_len(text@.skip(from as int)),
        from + n <= text@.len(),
{
    let mut i: usize = from;
    while i < text.len() && is_whitespace(text[i])
        invariant
            from <= i <= text@.len(),
            blank_len(text@.skip(from as int)) == (i - from) + blank_len(text@.skip(i as int)),
        decreases text@.len() - i,
    {
        proof {
            lemma_blank_len_step(text@, i as int);
        }
        i = i + 1;
    }
    proof {
        if i < text@.len() {
            lemma_blank_len_step(text@, i as int);
        }
    }
    i - from
}

/// Matches `tonic` in `text` at index `from`.
pub fn tonic_at(text: &[char], from: usize) -> (n: Option<usize>)
    requires
        from <= text@.len(),
    ensures
        n is Some <==> tonic_len(text@.skip(from as int)) is Some,
        n matches Some(t) ==> tonic_len(text@.skip(from as int)) == Some(t as nat) && from + t
            <= text@.len(),
{
    let left: usize = text.len() - from;
    if left == 0 {
        return None;
    }
    let letter: char = text[from];
    if left >= 2 {
        let mark: char = text[from + 1];
        if mark == '#' && Note::sharp(letter).is_some() {
            return Some(2);
        }
        if mark == 'b' && Note::flat(letter).is_some() {
            return Some(2);
        }
    }
    if Note::natural(letter).is_some() {
        Some(1)
    } else {
        None
    }
}

/// Matches `chord` in `text` at index `from`, and tells the length of the
/// tonic and whether the minor marker follows it.
pub fn chord_at(text: &[char], from: usize) -> (parts: Option<(usize, bool)>)
    requires
        from <= text@.len(),
    ensures
        parts is Some <==> tonic_len(text@.skip(from as int)) is Some,
        parts matches Some((t, minor)) ==> {
            &&& tonic_len(text@.skip(from as int)) == Some(t as nat)
            &&& minor == minor_marker_at(text@.skip(from as int), t as nat)
            &&& chord_len(text@.skip(from as int)) == Some(
                if minor {
                    (t + 1) as nat
                } else {
                    t as nat
                },
            )
            &&& from + t + (if minor {
                1nat
            } else {
                0nat
            }) <= text@.len()
        },
{
    match tonic_at(text, from) {
        Some(t) => {
            let len: usize = text.len();
            let minor: bool = from + t < len && text[from + t] == 'm';
            Some((t, minor))
        },
        None => None,
    }
}

/// Matches `rule` at the start of `text` and tells how many characters it
/// takes.
pub fn match_rule(rule: Rule, text: &[char]) -> (n: Option<usize>)
    ensures
        n is Some <==> match_len(rule, text@) is Some,
        n matches Some(len) ==> match_len(rule, text@) == Some(len as nat) && len <= text@.len(),
{
    assert(text@.skip(0) =~= text@);
    match rule {
        Rule::BareNote => {
            if text.len() >= 1 && Note::natural(text[0]).is_some() {
                Some(1)
            } else {
                None
            }
        },
        Rule::SharpedNote => {
            if text.len() >= 2 && Note::sharp(text[0]).is_some() && text[1] == '#' {
                Some(2)
            } else {
                None
            }
        },
        Rule::FlattedNote => {
            if text.len() >= 2 && Note::flat(text[0]).is_some() && text[1] == 'b' {
                Some(2)
            } else {
                None
            }
        },
        Rule::Tonic => tonic_at(text, 0),
        Rule::MinorChord => {
            match chord_at(text, 0) {
                Some((t, true)) => Some(t + 1),
                _ => None,
            }
        },
        Rule::MajorChord => {
            match chord_at(text, 0) {
                Some((t, false)) => Some(t),
                _ => None,
            }
        },
        Rule::Chord => {
            match chord_at(text, 0) {
                Some((t, minor)) => Some(
                    if minor {
                        t + 1
                    } else {
                        t
                    },
                ),
                None => None,
            }
        },
        Rule::Delimitor => {
            let n: usize = blank_run(text, 0);
            if n >= 1 {
                Some(n)
            } else {
                None
            }
        },
        Rule::Root => {
            let len: usize = text.len();
            let lead: usize = blank_run(text, 0);
            match chord_at(text, lead) {
                Some((t, minor)) => {
                    assert(lead + t <= len);
                    let end: usize = if minor {
                        lead + t + 1
                    } else {
                        lead + t
                    };
                    let trail: usize = blank_run(text, end);
                    Some(end + trail)
                },
                None => None,
            }
        },
    }
}

} // verus!
