use chord_mapper::ChordParser;
use chord_mapper::ParseError;
use chord_mapper::Rule;

#[test]
fn bare_note_test_bare_notes_test() -> Result<(), ParseError> {
    let bare_notes = vec!["A", "B", "C", "D", "E", "F", "G"];

    for note in bare_notes {
        ChordParser::parse(Rule::BareNote, note)?;
    }

    assert_eq!(ChordParser::parse(Rule::BareNote, "H"), Err(ParseError::Syntax));

    Ok(())
}

#[test]
fn bare_note_test_non_bare_notes_test() {
    let non_bare_notes = vec![
        "Ab", "Bb", "Db", "Eb", "Gb", "A#", "C#", "D#", "F#", "G#", "E#", "B#", "Cb", "Fb",
    ];

    for note in non_bare_notes {
        let result = ChordParser::parse(Rule::BareNote, note);
        let parsed_note = result.clone().into_iter().next().unwrap();
        assert!(parsed_note != note || result.is_err());
    }
}
