use harmony_explorer::music_theory::Letter;
use harmony_explorer::parser::command_chord;
use harmony_explorer::parser::command_flats;
use harmony_explorer::parser::command_null;
use harmony_explorer::parser::command_sharps;
use harmony_explorer::parser::command_transpose;
use harmony_explorer::parser::letter;
use harmony_explorer::parser::parse_command;
use harmony_explorer::parser::parse_signed_i32;
use harmony_explorer::parser::Command;
use harmony_explorer::parser::ParseError;
use nom::branch::alt;
use nom::bytes::streaming::tag;
use nom::character::complete::{digit1, multispace0, not_line_ending};
use nom::character::streaming::{char, one_of};
use nom::combinator::{complete, eof, map_opt, map_res, opt, recognize};
use nom::error::{VerboseError, VerboseErrorKind};
use nom::sequence::tuple;
use nom::IResult;
use nom::Needed;
use std::collections::HashMap;
use std::str::FromStr;

// The same grammar, put together from nom's own parsers. With nom's verbose
// error a failed choice ends in the choice's own failure, as in the grammar.

type Read<'a, T> = IResult<&'a str, T, VerboseError<&'a str>>;

fn nom_letter_accidental(i: &str) -> Read<'_, String> {
    let (i, capital) = one_of("ABCDEFG")(i)?;
    let (i, accidental) = complete(alt((char('#'), char('b'))))(i)?;
    Ok((i, [capital, accidental].iter().collect()))
}

fn nom_letter_natural(i: &str) -> Read<'_, String> {
    let (i, capital) = one_of("ABCDEFG")(i)?;
    Ok((i, capital.to_string()))
}

fn nom_select_letter(i: &str) -> Read<'_, String> {
    alt((nom_letter_accidental, nom_letter_natural))(i)
}

fn note_map() -> HashMap<String, Letter> {
    [
        ("C", Letter::C),
        ("C#", Letter::Csh),
        ("Db", Letter::Db),
        ("D", Letter::D),
        ("D#", Letter::Dsh),
        ("Eb", Letter::Eb),
        ("E", Letter::E),
        ("F", Letter::F),
        ("F#", Letter::Fsh),
        ("Gb", Letter::Gb),
        ("G", Letter::G),
        ("G#", Letter::Gsh),
        ("Ab", Letter::Ab),
        ("A", Letter::A),
        ("A#", Letter::Ash),
        ("Bb", Letter::Bb),
        ("B", Letter::B),
    ]
    .iter()
    .map(|t| ((t.0).to_string(), t.1))
    .collect()
}

fn nom_letter(i: &str) -> Read<'_, Letter> {
    map_opt(nom_select_letter, |s: String| {
        note_map().get(&s).map(|l| l.clone())
    })(i)
}

fn nom_command_chord(i: &str) -> Read<'_, Command> {
    let (i, root) = nom_letter(i)?;
    let (i, chord) = not_line_ending(i)?;
    Ok((i, Command::Chord(root, chord.trim().to_string())))
}

fn nom_command_null(i: &str) -> Read<'_, Command> {
    nom::combinator::map(eof, |_| Command::EmptyString)(i)
}

fn nom_command_sharps(i: &str) -> Read<'_, Command> {
    nom::combinator::map(alt((complete(tag("sharps")), complete(tag("sharp")))), |_| {
        Command::Sharps
    })(i)
}

fn nom_command_flats(i: &str) -> Read<'_, Command> {
    nom::combinator::map(alt((complete(tag("flats")), complete(tag("flat")))), |_| {
        Command::Flats
    })(i)
}

fn nom_signed_i32(i: &str) -> Read<'_, i32> {
    map_res(recognize(tuple((opt(char('-')), digit1))), i32::from_str)(i)
}

fn nom_command_transpose(i: &str) -> Read<'_, Command> {
    let (i, _) = alt((tag("transpose"), tag("t")))(i)?;
    let (i, _) = multispace0(i)?;
    let (i, distance) = nom_signed_i32(i)?;
    let (i, _) = multispace0(i)?;
    let (i, root) = nom_letter(i)?;
    let (i, chord) = not_line_ending(i)?;
    Ok((i, Command::Transpose(distance, root, chord.trim().to_string())))
}

fn nom_parse_command(i: &str) -> Read<'_, Command> {
    alt((
        nom_command_null,
        nom_command_flats,
        nom_command_sharps,
        nom_command_transpose,
        nom_command_chord,
    ))(i)
}

/// A result in a form that tells every difference: the value with its
/// letters as they are spelled.
fn shown<T: std::fmt::Debug>(ours: Result<(&str, T), ParseError>) -> String {
    match ours {
        Ok((rest, value)) => format!("read {:?}, left {:?}", value, rest),
        Err(ParseError::Incomplete(needed)) => format!("needs {}", needed),
        Err(ParseError::Error(at, kind)) => format!("fails at {:?} for {:?}", at, kind),
    }
}

fn shown_by_nom<T: std::fmt::Debug>(theirs: Read<'_, T>) -> String {
    match theirs {
        Ok((rest, value)) => format!("read {:?}, left {:?}", value, rest),
        Err(nom::Err::Incomplete(Needed::Size(needed))) => format!("needs {}", needed),
        Err(nom::Err::Incomplete(Needed::Unknown)) => "needs more".to_string(),
        Err(nom::Err::Error(e)) => match e.errors.last() {
            Some((at, VerboseErrorKind::Nom(kind))) => {
                format!("fails at {:?} for {:?}", at, kind)
            }
            other => format!("fails with {:?}", other),
        },
        Err(nom::Err::Failure(e)) => format!("gives up with {:?}", e),
    }
}

fn agree(input: &str) {
    assert_eq!(
        shown(parse_command(input)),
        shown_by_nom(nom_parse_command(input)),
        "parse_command on {:?}",
        input
    );
    assert_eq!(
        shown(command_chord(input)),
        shown_by_nom(nom_command_chord(input)),
        "command_chord on {:?}",
        input
    );
    assert_eq!(
        shown(letter(input)),
        shown_by_nom(nom_letter(input)),
        "letter on {:?}",
        input
    );
    assert_eq!(
        shown(parse_signed_i32(input)),
        shown_by_nom(nom_signed_i32(input)),
        "parse_signed_i32 on {:?}",
        input
    );
    assert_eq!(
        shown(command_transpose(input)),
        shown_by_nom(nom_command_transpose(input)),
        "command_transpose on {:?}",
        input
    );
    assert_eq!(
        shown(command_null(input)),
        shown_by_nom(nom_command_null(input)),
        "command_null on {:?}",
        input
    );
    assert_eq!(
        shown(command_flats(input)),
        shown_by_nom(nom_command_flats(input)),
        "command_flats on {:?}",
        input
    );
    assert_eq!(
        shown(command_sharps(input)),
        shown_by_nom(nom_command_sharps(input)),
        "command_sharps on {:?}",
        input
    );
}

fn agree_on_all(alphabet: &[char], length: usize) {
    let mut text = String::new();
    let mut digits = vec![0usize; length];
    loop {
        text.clear();
        for d in digits.iter() {
            text.push(alphabet[*d]);
        }
        agree(&text);
        let mut k = 0;
        while k < length {
            digits[k] += 1;
            if digits[k] < alphabet.len() {
                break;
            }
            digits[k] = 0;
            k += 1;
        }
        if k == length {
            break;
        }
    }
}

#[test]
fn agrees_with_nom_on_chosen_lines() {
    for input in [
        "", "A", "Db", "E7b5", "Bb7add9", "E#", "Cb", "a", "asdfasdf", "sharps", "sharp",
        "flat", "flats", "flatter", "fla", "transpose 5 C#maj7", "transpose -7 C#maj7",
        "t -7 C#maj7", "t", "tr", "transpos", "transpose", "transpose ", "t 5", "t 5 ",
        "t5C", "t - 5 C", "t -", "t +5 C", "t 2147483647 B", "t 2147483648 B",
        "t -2147483648 B", "t -2147483649 B", "t 99999999999999999999 B",
        "t 000000000000000000000000012 Ab sus", "Am\nG", "Am\r\nG", "Am\rG", "Am\r", "\r",
        "\n", " ", "t 5 Am\rG", "t 5 Am\r\nG", "t\n5\nC\nmaj", "transposes 5 C",
        "transposition", "tC", "t5", "G#", "G##", "Gbb", "C  maj7  ", "C\tm\t",
        "A\u{a0}\u{2003}maj7\u{3000}", "E\u{e9}t\u{e9}", "\u{e9}", "tr\u{e9}", "t \u{e9}",
        "t 5 \u{e9}", "C\u{e9}\r", "t 5 C\u{1f3b5}\r\n", "sharp\u{e9}", "fl\u{e9}",
        "t 1\u{0661}2 C", "t -5-5 C", "t --5 C", "-5", "5", "t 5 #", "t 5 b", "b", "#",
        "-", "--1", "-0", "0", "00", "2147483647", "2147483648", "-2147483648",
        "-2147483649", "12abc", "-12 34", "+1", "1e3", "\u{0661}", "9\u{0661}",
        "99999999999999999999999999999999999999999999", "-00000000000000000000000000000000017x",
    ] {
        agree(input);
    }
}

#[test]
fn agrees_with_nom_on_all_short_lines() {
    let alphabet = [
        't', 'r', 'a', 'n', 's', 'p', 'o', 'e', 'f', 'l', 'h', ' ', '-', '5', '0', 'C', 'E',
        '#', 'b', '\n', '\r', '\u{e9}',
    ];
    for length in 0..=3 {
        agree_on_all(&alphabet, length);
    }
}

#[test]
fn agrees_with_nom_on_all_short_transpositions() {
    let alphabet = ['t', ' ', '-', '9', '1', 'B', 'b', '#', 'm', '\n', '\r'];
    for length in 0..=5 {
        agree_on_all(&alphabet, length);
    }
}

#[test]
fn agrees_with_nom_on_words_and_their_prefixes() {
    for word in ["transpose", "sharps", "flats"] {
        for end in 0..=word.len() {
            for tail in ["", " ", "s", " 5 C", "5C", "\n", "x"] {
                agree(&format!("{}{}", &word[..end], tail));
            }
        }
    }
}
