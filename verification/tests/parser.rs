use harmony_explorer::music_theory::Letter;
use harmony_explorer::music_theory::Letter::{Ab, Ash, Bb, Csh, Db, Dsh, Eb, Fsh, Gb, Gsh, A, B, C, D, E, F, G};
use harmony_explorer::parser::command_chord;
use harmony_explorer::parser::grammar::ErrorKind;
use harmony_explorer::parser::letter;
use harmony_explorer::parser::parse_command;
use harmony_explorer::parser::Command;
use harmony_explorer::parser::ParseError;
use harmony_explorer::parser::ParseError::Incomplete;

/// The letter read, by its spelling, and what was left.
fn read(input: &str) -> Option<(String, String)> {
    letter(input).ok().map(|(rest, l)| (format!("{:?}", l), rest.to_string()))
}

#[test]
fn letter_naturals() {
    assert_eq!(letter("A"), Ok(("", A)));
    assert_eq!(letter("D"), Ok(("", D)));
    assert_eq!(letter("E"), Ok(("", E)));
    assert_eq!(letter("E7b5"), Ok(("7b5", E)));

    assert_eq!(letter(""), Err(Incomplete(1)));
    assert_ne!(letter("a"), Ok(("", A)));
}

#[test]
fn letter_accidentals() {
    assert_eq!(letter("Db"), Ok(("", Db)));
    assert_eq!(letter("Eb"), Ok(("", Eb)));
    assert_eq!(letter("G#"), Ok(("", Gsh)));
    assert_eq!(letter("Bb7add9"), Ok(("7add9", Bb)));

    assert_eq!(letter(""), Err(Incomplete(1)));
    assert_ne!(letter("Db"), Ok(("", D)));
    assert_ne!(letter("E#"), Ok(("", F)));
}

#[test]
fn command_null() {
    assert_eq!(parse_command(""), Ok(("", Command::EmptyString)));
    assert_ne!(
        parse_command("asdfasdf"),
        Ok(("asdfasdf", Command::EmptyString))
    );
}

#[test]
fn command_accidentals() {
    assert_eq!(parse_command("sharps"), Ok(("", Command::Sharps)));
    assert_eq!(parse_command("flat"), Ok(("", Command::Flats)));
}

#[test]
fn command_transpose() {
    assert_eq!(
        parse_command("transpose 5 C#maj7"),
        Ok(("", Command::Transpose(5, Csh, "maj7".to_owned())))
    );

    assert_eq!(
        parse_command("transpose -7 C#maj7"),
        Ok(("", Command::Transpose(-7, Csh, "maj7".to_owned())))
    );

    assert_eq!(
        parse_command("t -7 C#maj7"),
        Ok(("", Command::Transpose(-7, Csh, "maj7".to_owned())))
    );
}

#[test]
fn every_note_name_is_read_as_spelled() {
    let names = [
        ("C", C), ("C#", Csh), ("Db", Db), ("D", D), ("D#", Dsh), ("Eb", Eb), ("E", E),
        ("F", F), ("F#", Fsh), ("Gb", Gb), ("G", G), ("G#", Gsh), ("Ab", Ab), ("A", A),
        ("A#", Ash), ("Bb", Bb), ("B", B),
    ];
    for (name, expected) in names.iter() {
        assert_eq!(
            read(name),
            Some((format!("{:?}", expected), String::new()))
        );
        let longer = format!("{}m7", name);
        assert_eq!(
            read(&longer),
            Some((format!("{:?}", expected), "m7".to_string()))
        );
    }
}

#[test]
fn names_that_are_no_notes() {
    assert_eq!(letter("Cb"), Err(ParseError::Error("Cb", ErrorKind::MapOpt)));
    assert_eq!(letter("E#"), Err(ParseError::Error("E#", ErrorKind::MapOpt)));
    assert_eq!(letter("Fb5"), Err(ParseError::Error("Fb5", ErrorKind::MapOpt)));
    assert_eq!(letter("B#"), Err(ParseError::Error("B#", ErrorKind::MapOpt)));
    assert_eq!(letter("H"), Err(ParseError::Error("H", ErrorKind::Alt)));
    assert_eq!(letter("a"), Err(ParseError::Error("a", ErrorKind::Alt)));
    assert_eq!(letter(" A"), Err(ParseError::Error(" A", ErrorKind::Alt)));
    assert_eq!(letter("#"), Err(ParseError::Error("#", ErrorKind::Alt)));
}

#[test]
fn letter_takes_one_accidental_only() {
    assert_eq!(read("C##"), Some(("Csh".to_string(), "#".to_string())));
    assert_eq!(read("Dbb"), Some(("Db".to_string(), "b".to_string())));
    assert_eq!(read("Ab#"), Some(("Ab".to_string(), "#".to_string())));
    assert_eq!(read("A b"), Some(("A".to_string(), " b".to_string())));
}

#[test]
fn chord_takes_the_rest_of_the_line() {
    assert_eq!(
        command_chord("Bb7add9"),
        Ok(("", Command::Chord(Bb, "7add9".to_string())))
    );
    assert_eq!(command_chord("C"), Ok(("", Command::Chord(C, String::new()))));
    assert_eq!(
        command_chord("C   maj7  "),
        Ok(("", Command::Chord(C, "maj7".to_string())))
    );
    assert_eq!(
        command_chord("Am\nG"),
        Ok(("\nG", Command::Chord(A, "m".to_string())))
    );
    assert_eq!(
        command_chord("Am \r\nG"),
        Ok(("\r\nG", Command::Chord(A, "m".to_string())))
    );
    assert_eq!(
        command_chord("G\n"),
        Ok(("\n", Command::Chord(G, String::new())))
    );
}

#[test]
fn chord_errors() {
    assert_eq!(command_chord(""), Err(Incomplete(1)));
    assert_eq!(
        command_chord("x"),
        Err(ParseError::Error("x", ErrorKind::Alt))
    );
    assert_eq!(
        command_chord("Cb"),
        Err(ParseError::Error("Cb", ErrorKind::MapOpt))
    );
    assert_eq!(
        command_chord("Am\rG"),
        Err(ParseError::Error("m\rG", ErrorKind::Tag))
    );
    assert_eq!(
        command_chord("Am\r"),
        Err(ParseError::Error("m\r", ErrorKind::Tag))
    );
}

#[test]
fn notation_words() {
    assert_eq!(parse_command("sharp"), Ok(("", Command::Sharps)));
    assert_eq!(parse_command("flats"), Ok(("", Command::Flats)));
    assert_eq!(parse_command("flatsy"), Ok(("y", Command::Flats)));
    assert_eq!(parse_command("flatter"), Ok(("ter", Command::Flats)));
    assert_eq!(parse_command("sharpsharp"), Ok(("harp", Command::Sharps)));
    assert_eq!(parse_command("sharp sharp"), Ok((" sharp", Command::Sharps)));
    assert_eq!(
        parse_command("fla"),
        Err(ParseError::Error("fla", ErrorKind::Alt))
    );
    assert_eq!(
        parse_command("Sharps"),
        Err(ParseError::Error("Sharps", ErrorKind::Alt))
    );
}

#[test]
fn transpose_forms() {
    assert_eq!(
        parse_command("t5C"),
        Ok(("", Command::Transpose(5, C, String::new())))
    );
    assert_eq!(
        parse_command("transpose\t\t-12 \n Ebdim7 "),
        Ok(("", Command::Transpose(-12, Eb, "dim7".to_string())))
    );
    assert_eq!(
        parse_command("t 007 G m\nrest"),
        Ok(("\nrest", Command::Transpose(7, G, "m".to_string())))
    );
    assert_eq!(
        parse_command("t -0 A"),
        Ok(("", Command::Transpose(0, A, String::new())))
    );
    assert_eq!(
        parse_command("transpose2147483647B"),
        Ok(("", Command::Transpose(i32::MAX, B, String::new())))
    );
    assert_eq!(
        parse_command("t -2147483648 B"),
        Ok(("", Command::Transpose(i32::MIN, B, String::new())))
    );
    assert_eq!(
        parse_command("t 00000000000000000000002147483647 B"),
        Ok(("", Command::Transpose(i32::MAX, B, String::new())))
    );
}

#[test]
fn transpose_numbers_out_of_range() {
    for input in [
        "t 2147483648 B",
        "t -2147483649 B",
        "t 99999999999999999999999999 B",
        "t -99999999999999999999999999 B",
    ] {
        assert_eq!(
            parse_command(input),
            Err(ParseError::Error(input, ErrorKind::Alt))
        );
    }
}

#[test]
fn unfinished_commands_ask_for_more() {
    assert_eq!(parse_command("t"), Err(Incomplete(8)));
    assert_eq!(parse_command("tr"), Err(Incomplete(7)));
    assert_eq!(parse_command("trans"), Err(Incomplete(4)));
    assert_eq!(parse_command("transpos"), Err(Incomplete(1)));
    assert_eq!(parse_command("transpose"), Err(Incomplete(1)));
    assert_eq!(parse_command("transpose "), Err(Incomplete(1)));
    assert_eq!(parse_command("t 5"), Err(Incomplete(1)));
    assert_eq!(parse_command("t 5 "), Err(Incomplete(1)));
    assert_eq!(parse_command("t -5  \n"), Err(Incomplete(1)));
}

#[test]
fn commands_that_are_none() {
    for input in [
        "asdfasdf", "t -", "t - 5 C", "tx", "t C", "t 5 H", "t 5 Cb", "c", " C", "7", "\n", " ",
        "t 5 Am\rG", "transposes 5 C", "t +5 C",
    ] {
        assert_eq!(
            parse_command(input),
            Err(ParseError::Error(input, ErrorKind::Alt))
        );
    }
}

#[test]
fn chords_as_commands() {
    assert_eq!(
        parse_command("F#m7"),
        Ok(("", Command::Chord(Fsh, "m7".to_string())))
    );
    assert_eq!(
        parse_command("Gsharp"),
        Ok(("", Command::Chord(G, "sharp".to_string())))
    );
    assert_eq!(
        parse_command("Db  "),
        Ok(("", Command::Chord(Db, String::new())))
    );
    assert_eq!(
        parse_command("A\u{a0}\u{2003}maj7\u{3000}"),
        Ok(("", Command::Chord(A, "maj7".to_string())))
    );
    assert_eq!(
        parse_command("E\u{e9}t\u{e9}"),
        Ok(("", Command::Chord(E, "\u{e9}t\u{e9}".to_string())))
    );
}

#[test]
fn letters_compare_by_pitch() {
    // The letter type compares by pitch, so these two results compare equal;
    // what was read is told apart by its spelling.
    assert_eq!(letter("C#"), Ok(("", Letter::Db)));
    assert_eq!(read("C#"), Some(("Csh".to_string(), String::new())));
    assert_eq!(read("Db"), Some(("Db".to_string(), String::new())));
}
