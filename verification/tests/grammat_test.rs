use chord_mapper::ChordParser;
use chord_mapper::ParseError;
use chord_mapper::Rule;

fn check_str_matches_the_rule(note: &str, rule: Rule) -> Result<bool, ParseError> {
    let matched = ChordParser::parse(rule, note)?;
    Ok(matched == note)
}

fn test_template_rule_matching(samples: &Vec<&str>, rule: Rule) -> Result<(), ParseError> {
    for note in samples {
        assert!(
            check_str_matches_the_rule(note, rule)?,
            "Bare note {} not parsed.",
            note
        );
    }

    Ok(())
}

fn test_template_rule_not_matching(samples: &Vec<&str>, rule: Rule) -> Result<(), ParseError> {
    for note in samples {
        let check = check_str_matches_the_rule(note, rule);
        assert!(
            check.is_err() || !check.unwrap(),
            "Non-bare note {} parsed.",
            note
        );
    }

    Ok(())
}

#[test]
fn grammat_test_bare_notes_test() -> Result<(), ParseError> {
    let bare_notes = vec!["A", "B", "C", "D", "E", "F", "G"];
    test_template_rule_matching(&bare_notes, Rule::BareNote)
}

#[test]
fn grammat_test_non_bare_notes_test() -> Result<(), ParseError> {
    let non_bare_notes = vec![
        "Ab", "Bb", "Db", "Eb", "Gb", "A#", "C#", "D#", "F#", "G#", "E#", "B#", "Cb", "Fb", "H",
        "AA", "RCDSGSFD",
    ];

    test_template_rule_not_matching(&non_bare_notes, Rule::BareNote)
}

#[test]
fn grammat_test_flatted_notes_test() -> Result<(), ParseError> {
    let flatted_notes = vec!["Ab", "Bb", "Db", "Eb", "Gb"];
    test_template_rule_matching(&flatted_notes, Rule::FlattedNote)
}

#[test]
fn grammat_test_non_flattable_notes_test() -> Result<(), ParseError> {
    let non_flattable_notes = vec!["Cb", "Fb", "CFb", "AA", "RCDSGSFD"];
    test_template_rule_not_matching(&non_flattable_notes, Rule::FlattedNote)
}

#[test]
fn grammat_test_sharped_notes_test() -> Result<(), ParseError> {
    let sharped_notes = vec!["A#", "C#", "D#", "F#", "G#"];
    test_template_rule_matching(&sharped_notes, Rule::SharpedNote)
}

#[test]
fn grammat_test_non_sharpable_notes_test() -> Result<(), ParseError> {
    let non_sharpable_notes = vec!["E#", "B#", "EB#", "AA", "RCDSGSFD"];
    test_template_rule_not_matching(&non_sharpable_notes, Rule::SharpedNote)
}

#[test]
fn tonic_test() -> Result<(), ParseError> {
    let tonics = vec![
        "A", "A#", "B", "C", "C#", "D", "D#", "E", "F", "F#", "G", "G#", "Ab", "Bb", "Db", "Eb",
        "Gb",
    ];
    test_template_rule_matching(&tonics, Rule::Tonic)
}

#[test]
fn non_tonic_test() -> Result<(), ParseError> {
    let non_tonics = vec!["AA", "RCDSGSFD", "B#", "Fb"];
    test_template_rule_not_matching(&non_tonics, Rule::Tonic)
}

#[test]
fn minor_chord_test() -> Result<(), ParseError> {
    let minor_chords = vec![
        "Am", "A#m", "Bm", "Cm", "C#m", "Dm", "D#m", "Em", "Fm", "F#m", "Gm", "G#m", "Abm", "Bbm",
        "Dbm", "Ebm", "Gbm",
    ];
    test_template_rule_matching(&minor_chords, Rule::MinorChord)
}

#[test]
fn non_minor_chord_test() -> Result<(), ParseError> {
    let non_minor_chords = vec![
        "A", "B", "C", "D", "E", "F", "G", "G#", "AA", "RCDSGSFD", "B#", "Fb",
    ];
    test_template_rule_not_matching(&non_minor_chords, Rule::MinorChord)
}

#[test]
fn major_chord_test() -> Result<(), ParseError> {
    let major_chords = vec![
        "A", "A#", "B", "C", "C#", "D", "D#", "E", "F", "F#", "G", "G#", "Ab", "Bb", "Db", "Eb",
        "Gb",
    ];
    test_template_rule_matching(&major_chords, Rule::MajorChord)
}

#[test]
fn non_major_chord_test() -> Result<(), ParseError> {
    let non_major_chords = vec![
        "Am", "Bm", "Cm", "Dm", "Em", "Fm", "Gm", "G#m", "AA", "RCDSGSFD", "B#", "Fb",
    ];
    test_template_rule_not_matching(&non_major_chords, Rule::MajorChord)
}

#[test]
fn chord_test() -> Result<(), ParseError> {
    let chords = vec![
        "A", "A#", "B", "C", "C#", "D", "D#", "E", "F", "F#", "G", "G#", "Ab", "Bb", "Db", "Eb",
        "Gb", "Am", "A#m", "Bm", "Cm", "C#m", "Dm", "D#m", "Em", "Fm", "F#m", "Gm", "G#m", "Abm",
        "Bbm", "Dbm", "Ebm", "Gbm",
    ];
    test_template_rule_matching(&chords, Rule::Chord)
}

#[test]
fn non_chord_test() -> Result<(), ParseError> {
    let non_chords = vec!["E#", "Fbm", "AA", "RCDSGSFD", "B#", "Fb"];
    test_template_rule_not_matching(&non_chords, Rule::Chord)
}

#[test]
fn delimitor_test() -> Result<(), ParseError> {
    let delimitors = vec![" ", "  ", "    ", "           "];
    test_template_rule_matching(&delimitors, Rule::Delimitor)
}

#[test]
fn non_delimitor_test() -> Result<(), ParseError> {
    let non_delimitors = vec!["", ",", " , ", "_", "; "];
    test_template_rule_not_matching(&non_delimitors, Rule::Delimitor)
}

#[test]
fn root_test() -> Result<(), ParseError> {
    let roots = vec![" A#", " C ", "  Dbm  ", "     C#m      "];
    test_template_rule_matching(&roots, Rule::Root)
}

#[test]
fn non_root_test() -> Result<(), ParseError> {
    let non_roots = vec!["E#", " B# ", "A ;", "_ C#m"];
    test_template_rule_not_matching(&non_roots, Rule::Root)
}
