use chord_mapper::map_chord_to_notes;
use chord_mapper::Chord;
use chord_mapper::Chord::{MajorChord, MinorChord};
use chord_mapper::Note;
use chord_mapper::Note::{
    A, AFLAT, ASHARP, B, BFLAT, C, CSHARP, D, DFLAT, DSHARP, E, EFLAT, F, FSHARP, G, GFLAT,
    GSHARP,
};

fn assert_equal(vec1: Vec<Note>, vec2: Vec<Note>) -> bool {
    for i in 0..vec1.len() {
        if vec1[i] != vec2[i] {
            return false;
        }
    }

    true
}

fn notes_of(chord: Chord) -> Vec<Note> {
    let notes = map_chord_to_notes(chord);
    assert_eq!(notes.len(), 3);
    notes
}

#[test]
fn minor_chord_mapping_test() {
    assert!(assert_equal(notes_of(MinorChord(A)), vec![A, C, E]));
    assert!(assert_equal(
        notes_of(MinorChord(ASHARP)),
        vec![BFLAT, DFLAT, F],
    ));
    assert!(assert_equal(notes_of(MinorChord(BFLAT)), vec![BFLAT, DFLAT, F]));
    assert!(assert_equal(notes_of(MinorChord(C)), vec![C, EFLAT, G]));
    assert!(assert_equal(notes_of(MinorChord(DFLAT)), vec![DFLAT, E, AFLAT]));
    assert!(assert_equal(
        notes_of(MinorChord(CSHARP)),
        vec![DFLAT, E, AFLAT],
    ));
    assert!(assert_equal(notes_of(MinorChord(D)), vec![D, F, A]));
    assert!(assert_equal(
        notes_of(MinorChord(EFLAT)),
        vec![EFLAT, GFLAT, BFLAT],
    ));
    assert!(assert_equal(
        notes_of(MinorChord(DSHARP)),
        vec![EFLAT, GFLAT, BFLAT],
    ));
    assert!(assert_equal(notes_of(MinorChord(E)), vec![E, G, B]));
    assert!(assert_equal(notes_of(MinorChord(F)), vec![F, AFLAT, C]));
    assert!(assert_equal(notes_of(MinorChord(GFLAT)), vec![GFLAT, A, DFLAT]));
    assert!(assert_equal(
        notes_of(MinorChord(FSHARP)),
        vec![GFLAT, A, DFLAT],
    ));
    assert!(assert_equal(notes_of(MinorChord(G)), vec![G, BFLAT, D]));
    assert!(assert_equal(notes_of(MinorChord(AFLAT)), vec![AFLAT, B, EFLAT]));
    assert!(assert_equal(notes_of(MinorChord(GSHARP)), vec![GSHARP, B, DSHARP]));
    assert!(assert_equal(notes_of(MinorChord(B)), vec![B, D, FSHARP]));
}

#[test]
fn major_chord_mapping_test() {
    assert!(assert_equal(notes_of(MajorChord(A)), vec![A, CSHARP, E]));
    assert!(assert_equal(notes_of(MajorChord(ASHARP)), vec![BFLAT, D, F]));
    assert!(assert_equal(notes_of(MajorChord(BFLAT)), vec![BFLAT, D, F]));
    assert!(assert_equal(notes_of(MajorChord(C)), vec![C, E, G]));
    assert!(assert_equal(notes_of(MajorChord(DFLAT)), vec![DFLAT, F, AFLAT]));
    assert!(assert_equal(
        notes_of(MajorChord(CSHARP)),
        vec![DFLAT, F, AFLAT],
    ));
    assert!(assert_equal(notes_of(MajorChord(D)), vec![D, FSHARP, A]));
    assert!(assert_equal(notes_of(MajorChord(EFLAT)), vec![EFLAT, G, BFLAT]));
    assert!(assert_equal(
        notes_of(MajorChord(DSHARP)),
        vec![EFLAT, G, BFLAT],
    ));
    assert!(assert_equal(notes_of(MajorChord(E)), vec![E, GSHARP, B]));
    assert!(assert_equal(notes_of(MajorChord(F)), vec![F, A, C]));
    assert!(assert_equal(
        notes_of(MajorChord(GFLAT)),
        vec![GFLAT, ASHARP, DFLAT],
    ));
    assert!(assert_equal(
        notes_of(MajorChord(FSHARP)),
        vec![GFLAT, ASHARP, DFLAT],
    ));
    assert!(assert_equal(notes_of(MajorChord(G)), vec![G, B, D]));
    assert!(assert_equal(notes_of(MajorChord(AFLAT)), vec![AFLAT, C, EFLAT]));
    assert!(assert_equal(notes_of(MajorChord(GSHARP)), vec![GSHARP, C, DSHARP]));
    assert!(assert_equal(notes_of(MajorChord(B)), vec![B, DSHARP, FSHARP]));
}

#[test]
fn a_wrong_note_is_told_apart() {
    assert!(!assert_equal(notes_of(MinorChord(A)), vec![A, CSHARP, E]));
    assert!(!assert_equal(notes_of(MajorChord(A)), vec![A, C, E]));
    assert!(!assert_equal(notes_of(MajorChord(C)), vec![C, E, GSHARP]));
    assert!(!assert_equal(notes_of(MajorChord(C)), vec![B, E, G]));
}
