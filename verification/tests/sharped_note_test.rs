use chord_mapper::ChordParser;
use chord_mapper::ParseError;
use chord_mapper::Rule;

#[test]
fn sharped_note_test_sharped_notes_test() -> Result<(), ParseError> {
    let sharped_notes = vec!["A#", "C#", "D#", "F#", "G#"];

    for note in sharped_notes {
        ChordParser::parse(Rule::SharpedNote, note)?;
    }

    Ok(())
}

#[test]
fn sharped_note_test_non_sharpable_notes_test() {
    let non_sharpable_notes = vec!["E#", "B#"];

    for note in non_sharpable_notes {
        let result = ChordParser::parse(Rule::SharpedNote, note);
        assert!(result.is_err());
    }
}
