//! What holds of notes, of the grammar and of the parser, whatever the
//! input.

use vstd::prelude::*;

use crate::chord::Chord;
use crate::error::ParseError;
use crate::grammar::{
    all_blank, blank_len, chord_len, is_blank, match_len, minor_marker_at, tonic_len, Rule,
};
use crate::note::{
    flat_of, lemma_pitch_class_in_range, natural_of, note_named, raised, sharp_of, sharp_spelling,
    stepped, Note,
};
use crate::parser::{parsed_chord, root_parts};
use vstd::std_specs::cmp::PartialEqSpec;

verus! {

/// Equality of notes is an equivalence: every note equals itself, two equal
/// notes are equal in either order, and two notes equal to a third are
/// equal.
pub proof fn lemma_note_equality(a: Note, b: Note, c: Note)
    ensures
        a.eq_spec(&a),
        a.eq_spec(&b) ==> b.eq_spec(&a),
        a.eq_spec(&b) && b.eq_spec(&c) ==> a.eq_spec(&c),
        a == b ==> a.eq_spec(&b),
{
}

/// A sharp and the flat of the natural a whole tone above name the same
/// pitch class: read back from their spellings, the two notes are equal.
pub proof fn lemma_sharp_equals_next_flat(lower: char, upper: char)
    requires
        sharp_of(lower) is Some,
        flat_of(upper) is Some,
        natural_of(lower) is Some,
        natural_of(upper) is Some,
        natural_of(upper).unwrap().pitch_class() == (natural_of(lower).unwrap().pitch_class() + 2)
            % 12,
    ensures
        note_named(seq![lower, '#']) == sharp_of(lower),
        note_named(seq![upper, 'b']) == flat_of(upper),
        sharp_of(lower).unwrap().eq_spec(&flat_of(upper).unwrap()),
        note_named(seq![lower, '#']).eq_spec(&note_named(seq![upper, 'b'])),
{
}

/// Notes that spell the same pitch class are read back as equal notes from
/// their spellings, and have one canonical spelling.
pub proof fn lemma_same_pitch_class_reads_equal(a: Note, b: Note)
    requires
        a.pitch_class() == b.pitch_class(),
    ensures
        note_named(a.spelling()) == Some(a),
        note_named(b.spelling()) == Some(b),
        note_named(a.spelling()).eq_spec(&note_named(b.spelling())),
        sharp_spelling(a.pitch_class()) == sharp_spelling(b.pitch_class()),
{
    lemma_spelling_reads_back(a);
    lemma_spelling_reads_back(b);
}

/// A note is read back from its own spelling, which is one or two
/// characters long.
pub proof fn lemma_spelling_reads_back(note: Note)
    ensures
        note_named(note.spelling()) == Some(note),
        1 <= note.spelling().len() <= 2,
{
}

/// A text that spells a note is the spelling of that note.
pub proof fn lemma_named_is_spelled(s: Seq<char>, note: Note)
    requires
        note_named(s) == Some(note),
    ensures
        s == note.spelling(),
{
    assert(s =~= note.spelling());
}

/// Stepping up by semitones adds on the circle of twelve: `steps` single
/// steps from `note` end on the sharp spelling of the pitch class `steps`
/// above it.
pub proof fn lemma_stepped_is_raised(note: Note, steps: nat)
    requires
        steps >= 1,
    ensures
        stepped(note, steps) == raised(note, steps),
        stepped(note, steps).pitch_class() == (note.pitch_class() + steps) % 12,
    decreases steps,
{
    reveal_with_fuel(stepped, 2);
    lemma_pitch_class_in_range(note);
    if steps == 1 {
        assert(stepped(note, 0) == note);
        assert(stepped(note, 1) == raised(stepped(note, 0), 1));
    } else {
        let before = (steps - 1) as nat;
        lemma_stepped_is_raised(note, before);
        let p = (note.pitch_class() + before) % 12;
        assert(stepped(note, steps) == raised(stepped(note, before), 1));
        assert((p + 1) % 12 == (note.pitch_class() + steps) % 12) by {
            lemma_add_one_mod_12(note.pitch_class() + before);
        }
        lemma_sharp_spelling_position(p);
        lemma_sharp_spelling_position((note.pitch_class() + steps) % 12);
    }
}

/// One more than a number, on the circle of twelve.
proof fn lemma_add_one_mod_12(x: int)
    requires
        x >= 0,
    ensures
        (x % 12 + 1) % 12 == (x + 1) % 12,
{
}

/// The sharp spelling of a position lies at that position.
pub proof fn lemma_sharp_spelling_position(p: int)
    requires
        0 <= p < 12,
    ensures
        sharp_spelling(p).pitch_class() == p,
{
}

/// The semitone cycle: twelve single steps lead back to the pitch class
/// they started from; three of them make a minor third, four a major third
/// and seven a perfect fifth.
pub proof fn lemma_semitone_cycle(note: Note)
    ensures
        stepped(note, 12).eq_spec(&note),
        stepped(note, 12) == sharp_spelling(note.pitch_class()),
        stepped(note, 3) == raised(note, 3),
        stepped(note, 4) == raised(note, 4),
        stepped(note, 7) == raised(note, 7),
        stepped(note, 1) == raised(note, 1),
{
    assert(stepped(note, 12) == sharp_spelling(note.pitch_class()) && stepped(note, 12).eq_spec(
        &note,
    )) by {
        lemma_pitch_class_in_range(note);
        lemma_stepped_is_raised(note, 12);
        assert((note.pitch_class() + 12) % 12 == note.pitch_class());
    }
    assert(stepped(note, 3) == raised(note, 3)) by {
        lemma_stepped_is_raised(note, 3);
    }
    assert(stepped(note, 4) == raised(note, 4)) by {
        lemma_stepped_is_raised(note, 4);
    }
    assert(stepped(note, 7) == raised(note, 7)) by {
        lemma_stepped_is_raised(note, 7);
    }
    assert(stepped(note, 1) == raised(note, 1)) by {
        lemma_stepped_is_raised(note, 1);
    }
}

/// The grammar and the table of note names agree: `tonic` takes all of a
/// text exactly when the text spells a note.
pub proof fn lemma_tonic_accepts_note_names(s: Seq<char>)
    ensures
        match_len(Rule::Tonic, s) == Some(s.len()) <==> note_named(s) is Some,
{
}

/// `tonic` takes the whole spelling of every note.
pub proof fn lemma_tonic_accepts_spelling(note: Note)
    ensures
        match_len(Rule::Tonic, note.spelling()) == Some(note.spelling().len()),
        note_named(note.spelling()) == Some(note),
        !is_blank(note.spelling()[0]),
{
}

/// Whitespace is none of the characters that a chord token is made of.
pub proof fn lemma_blank_is_no_token_char(c: char)
    requires
        is_blank(c),
    ensures
        c != '#',
        c != 'b',
        c != 'm',
        natural_of(c) is None,
{
}

/// The whitespace at the start of a text is whitespace, is no longer than
/// the text, and ends before the first character that is none.
pub proof fn lemma_blank_len_is_prefix(s: Seq<char>)
    ensures
        blank_len(s) <= s.len(),
        all_blank(s.take(blank_len(s) as int)),
        blank_len(s) < s.len() ==> !is_blank(s[blank_len(s) as int]),
        blank_len(s) == s.len() <==> all_blank(s),
    decreases s.len(),
{
    if s.len() > 0 && is_blank(s[0]) {
        let rest = s.skip(1);
        lemma_blank_len_is_prefix(rest);
        let n = blank_len(s) as int;
        assert forall|i: int| 0 <= i < n implies is_blank(#[trigger] s.take(n)[i]) by {
            if i > 0 {
                assert(s.take(n)[i] == rest.take(n - 1)[i - 1]);
            }
        }
        if all_blank(s) {
            assert forall|i: int| 0 <= i < rest.len() implies is_blank(#[trigger] rest[i]) by {
                assert(rest[i] == s[i + 1]);
            }
        }
        if all_blank(rest) {
            assert forall|i: int| 0 <= i < s.len() implies is_blank(#[trigger] s[i]) by {
                if i > 0 {
                    assert(s[i] == rest[i - 1]);
                }
            }
        }
    } else {
        assert(s.take(0).len() == 0);
    }
}

/// Whitespace put before a text adds to the whitespace at its start.
pub proof fn lemma_blank_len_after_blanks(lead: Seq<char>, s: Seq<char>)
    requires
        all_blank(lead),
    ensures
        blank_len(lead + s) == lead.len() + blank_len(s),
    decreases lead.len(),
{
    if lead.len() == 0 {
        assert(lead + s =~= s);
    } else {
        let whole = lead + s;
        assert(is_blank(lead[0]));
        assert(whole[0] == lead[0]);
        assert(whole.skip(1) =~= lead.skip(1) + s);
        assert forall|i: int| 0 <= i < lead.skip(1).len() implies is_blank(
            #[trigger] lead.skip(1)[i],
        ) by {
            assert(lead.skip(1)[i] == lead[i + 1]);
        }
        lemma_blank_len_after_blanks(lead.skip(1), s);
    }
}

/// Whitespace put behind a text adds to the whitespace at its start only
/// where the text is whitespace itself.
pub proof fn lemma_blank_len_before_blanks(s: Seq<char>, trail: Seq<char>)
    requires
        all_blank(trail),
    ensures
        blank_len(s + trail) == if blank_len(s) == s.len() {
            s.len() + trail.len()
        } else {
            blank_len(s)
        },
    decreases s.len(),
{
    if s.len() == 0 {
        assert(s + trail =~= trail);
        lemma_blank_len_is_prefix(trail);
    } else {
        let whole = s + trail;
        assert(whole[0] == s[0]);
        if is_blank(s[0]) {
            assert(whole.skip(1) =~= s.skip(1) + trail);
            lemma_blank_len_before_blanks(s.skip(1), trail);
        }
    }
}

/// What `tonic` and the minor marker take from a token does not change
/// when whitespace follows the token.
pub proof fn lemma_chord_len_before_blanks(token: Seq<char>, trail: Seq<char>)
    requires
        all_blank(trail),
        token.len() > 0,
    ensures
        tonic_len(token + trail) == tonic_len(token),
        tonic_len(token) matches Some(t) ==> {
            &&& minor_marker_at(token + trail, t) == minor_marker_at(token, t)
            &&& (token + trail).take(t as int) == token.take(t as int)
        },
        chord_len(token + trail) == chord_len(token),
{
    let whole = token + trail;
    assert(whole[0] == token[0]);
    if token.len() >= 2 {
        assert(whole[1] == token[1]);
    } else if trail.len() > 0 {
        assert(whole[1] == trail[0]);
        lemma_blank_is_no_token_char(trail[0]);
    }
    if tonic_len(token) is Some {
        let t = tonic_len(token).unwrap();
        if t < token.len() {
            assert(whole[t as int] == token[t as int]);
        } else if trail.len() > 0 {
            assert(whole[t as int] == trail[0]);
            lemma_blank_is_no_token_char(trail[0]);
        }
        assert(whole.take(t as int) =~= token.take(t as int));
    }
}

/// Whitespace tolerance: whitespace before and behind a text changes
/// neither whether it is read as a chord nor the chord that is read.
pub proof fn lemma_blanks_around_change_nothing(lead: Seq<char>, s: Seq<char>, trail: Seq<char>)
    requires
        all_blank(lead),
        all_blank(trail),
    ensures
        root_parts(lead + s + trail) == root_parts(s),
        parsed_chord(lead + s + trail) == parsed_chord(s),
{
    let whole = lead + s + trail;
    let a = blank_len(s);
    lemma_blank_len_is_prefix(s);
    lemma_blank_len_before_blanks(s, trail);
    assert(whole =~= lead + (s + trail));
    lemma_blank_len_after_blanks(lead, s + trail);
    if a == s.len() {
        assert(blank_len(whole) == whole.len());
        assert(whole.skip(whole.len() as int).len() == 0);
        assert(s.skip(s.len() as int).len() == 0);
    } else {
        let b = lead.len() + a;
        assert(blank_len(whole) == b);
        let token = s.skip(a as int);
        assert(whole.skip(b as int) =~= token + trail);
        lemma_chord_len_before_blanks(token, trail);
        if chord_len(token) is Some {
            let c = chord_len(token).unwrap();
            let rest = s.skip((a + c) as int);
            assert(a + c <= s.len());
            assert(whole.skip((b + c) as int) =~= rest + trail);
            lemma_blank_len_before_blanks(rest, trail);
            lemma_blank_len_is_prefix(rest);
        }
    }
}

/// A chord is read back from its own notation.
pub proof fn lemma_notation_reads_back(chord: Chord)
    ensures
        parsed_chord(chord.notation()) == Ok::<Chord, ParseError>(chord),
{
    let note = chord.root();
    let word = note.spelling();
    let s = chord.notation();
    lemma_tonic_accepts_spelling(note);
    assert(s[0] == word[0]);
    assert(blank_len(s) == 0);
    assert(s.skip(0) =~= s);
    let t = word.len();
    if chord.minor() {
        assert(s =~= word.push('m'));
        assert(s[t as int] == 'm');
        if t == 2 {
            assert(s[1] == word[1]);
        }
        assert(tonic_len(s) == Some(t));
        assert(s.skip((t + 1) as int).len() == 0);
    } else {
        assert(s.skip(t as int).len() == 0);
    }
    assert(s.take(t as int) =~= word);
}

/// Whether `s` is `token` with whitespace before and behind it at most.
pub open spec fn is_padded(s: Seq<char>, lead: Seq<char>, token: Seq<char>, trail: Seq<char>) -> bool {
    all_blank(lead) && all_blank(trail) && s == lead + token + trail
}

/// A text that is read as a chord is that chord's notation, with
/// whitespace before and behind it at most.
pub proof fn lemma_parsed_is_padded_notation(s: Seq<char>, chord: Chord)
    requires
        parsed_chord(s) == Ok::<Chord, ParseError>(chord),
    ensures
        chord.notation().len() + blank_len(s) <= s.len(),
        is_padded(
            s,
            s.take(blank_len(s) as int),
            chord.notation(),
            s.skip((blank_len(s) + chord.notation().len()) as int),
        ),
{
    let a = blank_len(s);
    lemma_blank_len_is_prefix(s);
    let token = s.skip(a as int);
    let t = tonic_len(token).unwrap();
    let c = chord_len(token).unwrap();
    let tonic = token.take(t as int);
    lemma_named_is_spelled(tonic, chord.root());
    let rest = s.skip((a + c) as int);
    lemma_blank_len_is_prefix(rest);
    assert(chord.notation() =~= token.take(c as int));
    assert(s =~= s.take(a as int) + chord.notation() + rest);
}

/// What the parser accepts: a text is read as `chord` exactly when it is
/// the notation of `chord` with whitespace before and behind it at most.
pub proof fn lemma_parsed_iff_padded_notation(s: Seq<char>, chord: Chord)
    ensures
        parsed_chord(s) == Ok::<Chord, ParseError>(chord) <==> exists|
            lead: Seq<char>,
            trail: Seq<char>,
        | #[trigger] is_padded(s, lead, chord.notation(), trail),
{
    if parsed_chord(s) == Ok::<Chord, ParseError>(chord) {
        lemma_parsed_is_padded_notation(s, chord);
    }
    if exists|lead: Seq<char>, trail: Seq<char>| #[trigger]
        is_padded(s, lead, chord.notation(), trail) {
        let (lead, trail) = choose|lead: Seq<char>, trail: Seq<char>| #[trigger]
            is_padded(s, lead, chord.notation(), trail);
        lemma_blanks_around_change_nothing(lead, chord.notation(), trail);
        lemma_notation_reads_back(chord);
    }
}

} // verus!
