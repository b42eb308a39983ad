//! The command grammar, as a specification.
//!
//! A parser takes the text that is left and gives a [`Parsed`]: a value and
//! the text after it, a demand for more text, or a failure. The grammar is
//! written for text that may still grow: where the text ends before a
//! parser could tell, it asks for more instead of failing, unless the rule
//! says that the text is complete.

use crate::text::trimmed;
use pitch_calc::Letter;
use vstd::prelude::*;

verus! {

/// Why a parser failed.
#[derive(PartialEq, Eq, Copy, Clone, Debug)]
pub enum ErrorKind {
    /// None of the alternatives matched.
    Alt,
    /// A given character was expected.
    Char,
    /// The text ended where more was needed and none can come.
    Complete,
    /// A digit was expected.
    Digit,
    /// The end of the text was expected.
    Eof,
    /// What was read has no meaning, as a note name.
    MapOpt,
    /// What was read has no meaning, as a number.
    MapRes,
    /// One of a set of characters was expected.
    OneOf,
    /// A given word or line end was expected.
    Tag,
}

/// What a parser makes of a text.
pub enum Parsed<T> {
    /// It read `value`, and `rest` is the text after it.
    Done { rest: Seq<char>, value: T },
    /// The text ended too soon: `needed` more bytes might decide.
    Incomplete { needed: nat },
    /// It failed on the text `at`.
    Failed { at: Seq<char>, kind: ErrorKind },
}

/// Goes on with `next` where `first` read something.
pub open spec fn then<A, B>(first: Parsed<A>, next: spec_fn(Seq<char>, A) -> Parsed<B>) -> Parsed<
    B,
> {
    match first {
        Parsed::Done { rest, value } => next(rest, value),
        Parsed::Incomplete { needed } => Parsed::Incomplete { needed },
        Parsed::Failed { at, kind } => Parsed::Failed { at, kind },
    }
}

/// Tries `second` where `first` failed. A demand for more text is final.
pub open spec fn or<T>(first: Parsed<T>, second: Parsed<T>) -> Parsed<T> {
    match first {
        Parsed::Failed { .. } => second,
        _ => first,
    }
}

/// The failure of a choice on `text`, all of whose alternatives failed.
pub open spec fn no_alternative<T>(text: Seq<char>) -> Parsed<T> {
    Parsed::Failed { at: text, kind: ErrorKind::Alt }
}

/// Takes `text` to be complete: asking for more is a failure.
pub open spec fn complete<T>(text: Seq<char>, parsed: Parsed<T>) -> Parsed<T> {
    match parsed {
        Parsed::Incomplete { .. } => Parsed::Failed { at: text, kind: ErrorKind::Complete },
        _ => parsed,
    }
}

/// Makes a failure of `parsed` on `text` into having read nothing.
pub open spec fn optional<T>(text: Seq<char>, parsed: Parsed<T>) -> Parsed<Option<T>> {
    match parsed {
        Parsed::Done { rest, value } => Parsed::Done { rest, value: Some(value) },
        Parsed::Incomplete { needed } => Parsed::Incomplete { needed },
        Parsed::Failed { .. } => Parsed::Done { rest: text, value: None },
    }
}

/// The first character of `text`, if it is the character `wanted`, which
/// is one of a single byte.
pub open spec fn character(text: Seq<char>, wanted: char) -> Parsed<char> {
    if text.len() == 0 {
        Parsed::Incomplete { needed: 1 }
    } else if text[0] == wanted {
        Parsed::Done { rest: text.skip(1), value: wanted }
    } else {
        Parsed::Failed { at: text, kind: ErrorKind::Char }
    }
}

/// `c` is the capital of a natural note.
pub open spec fn is_note_capital(c: char) -> bool {
    c == 'A' || c == 'B' || c == 'C' || c == 'D' || c == 'E' || c == 'F' || c == 'G'
}

/// The first character of `text`, if it is the capital of a natural note.
pub open spec fn note_capital(text: Seq<char>) -> Parsed<char> {
    if text.len() == 0 {
        Parsed::Incomplete { needed: 1 }
    } else if is_note_capital(text[0]) {
        Parsed::Done { rest: text.skip(1), value: text[0] }
    } else {
        Parsed::Failed { at: text, kind: ErrorKind::OneOf }
    }
}

/// The word `word`, of single-byte characters, at the start of `text`.
/// Where `text` ends within the word, the missing part of the word is
/// needed.
pub open spec fn tag(text: Seq<char>, word: Seq<char>) -> Parsed<Seq<char>> {
    if word.is_prefix_of(text) {
        Parsed::Done { rest: text.skip(word.len() as int), value: word }
    } else if text.is_prefix_of(word) {
        Parsed::Incomplete { needed: (word.len() - text.len()) as nat }
    } else {
        Parsed::Failed { at: text, kind: ErrorKind::Tag }
    }
}

/// A kind of character that a parser reads a run of.
#[derive(PartialEq, Eq, Copy, Clone, Debug)]
pub enum Run {
    /// Spaces, tabs, carriage returns and line feeds.
    Spaces,
    /// The digits 0 to 9.
    Digits,
    /// Everything but a carriage return or a line feed.
    Line,
}

/// `c` is a space, a tab, a carriage return or a line feed.
pub open spec fn is_space(c: char) -> bool {
    c == ' ' || c == '\t' || c == '\r' || c == '\n'
}

/// `c` is one of the digits 0 to 9.
pub open spec fn is_digit(c: char) -> bool {
    '0' <= c <= '9'
}

/// `c` does not start a line end.
pub open spec fn in_line(c: char) -> bool {
    c != '\r' && c != '\n'
}

/// `c` is of the kind `run`.
pub open spec fn in_run(run: Run, c: char) -> bool {
    match run {
        Run::Spaces => is_space(c),
        Run::Digits => is_digit(c),
        Run::Line => in_line(c),
    }
}

/// How many characters at the start of `text` are of the kind `run`.
pub open spec fn leading(text: Seq<char>, run: Run) -> nat
    decreases text.len(),
{
    if text.len() == 0 || !in_run(run, text[0]) {
        0
    } else {
        1 + leading(text.drop_first(), run)
    }
}

/// Any run of spaces, the empty one too.
pub open spec fn multispace0(text: Seq<char>) -> Parsed<Seq<char>> {
    let n = leading(text, Run::Spaces) as int;
    Parsed::Done { rest: text.skip(n), value: text.take(n) }
}

/// A run of digits, at least one.
pub open spec fn digit1(text: Seq<char>) -> Parsed<Seq<char>> {
    let n = leading(text, Run::Digits) as int;
    if n == 0 {
        Parsed::Failed { at: text, kind: ErrorKind::Digit }
    } else {
        Parsed::Done { rest: text.skip(n), value: text.take(n) }
    }
}

/// The text up to the end of the line, which is left unread. A carriage
/// return that no line feed follows is a failure.
pub open spec fn not_line_ending(text: Seq<char>) -> Parsed<Seq<char>> {
    let n = leading(text, Run::Line) as int;
    if n == text.len() {
        Parsed::Done { rest: text.skip(n), value: text }
    } else if text[n] == '\n' || (n + 1 < text.len() && text[n + 1] == '\n') {
        Parsed::Done { rest: text.skip(n), value: text.take(n) }
    } else {
        Parsed::Failed { at: text, kind: ErrorKind::Tag }
    }
}

/// The letter that a note name stands for: a capital from A to G, alone or
/// with `#` or `b` behind it. Cb, E#, Fb and B# are no names.
pub open spec fn note_named(name: Seq<char>) -> Option<Letter> {
    if name =~= seq!['C'] {
        Some(Letter::C)
    } else if name =~= seq!['C', '#'] {
        Some(Letter::Csh)
    } else if name =~= seq!['D', 'b'] {
        Some(Letter::Db)
    } else if name =~= seq!['D'] {
        Some(Letter::D)
    } else if name =~= seq!['D', '#'] {
        Some(Letter::Dsh)
    } else if name =~= seq!['E', 'b'] {
        Some(Letter::Eb)
    } else if name =~= seq!['E'] {
        Some(Letter::E)
    } else if name =~= seq!['F'] {
        Some(Letter::F)
    } else if name =~= seq!['F', '#'] {
        Some(Letter::Fsh)
    } else if name =~= seq!['G', 'b'] {
        Some(Letter::Gb)
    } else if name =~= seq!['G'] {
        Some(Letter::G)
    } else if name =~= seq!['G', '#'] {
        Some(Letter::Gsh)
    } else if name =~= seq!['A', 'b'] {
        Some(Letter::Ab)
    } else if name =~= seq!['A'] {
        Some(Letter::A)
    } else if name =~= seq!['A', '#'] {
        Some(Letter::Ash)
    } else if name =~= seq!['B', 'b'] {
        Some(Letter::Bb)
    } else if name =~= seq!['B'] {
        Some(Letter::B)
    } else {
        None
    }
}

/// The name that a capital and the accidental behind it make.
pub open spec fn name_of(capital: char, accidental: Option<char>) -> Seq<char> {
    match accidental {
        Some(sign) => seq![capital, sign],
        None => seq![capital],
    }
}

/// A capital with an accidental behind it. The text is taken to be
/// complete after the capital.
pub open spec fn letter_accidental(text: Seq<char>) -> Parsed<Seq<char>> {
    then(
        note_capital(text),
        |rest: Seq<char>, capital: char|
            then(
                complete(
                    rest,
                    or(character(rest, '#'), or(character(rest, 'b'), no_alternative(rest))),
                ),
                |after: Seq<char>, accidental: char|
                    Parsed::Done { rest: after, value: seq![capital, accidental] },
            ),
    )
}

/// A capital alone.
pub open spec fn letter_natural(text: Seq<char>) -> Parsed<Seq<char>> {
    then(
        note_capital(text),
        |rest: Seq<char>, capital: char| Parsed::Done { rest, value: seq![capital] },
    )
}

/// A note name: with an accidental if one follows, else without.
pub open spec fn select_letter(text: Seq<char>) -> Parsed<Seq<char>> {
    or(letter_accidental(text), or(letter_natural(text), no_alternative(text)))
}

/// A note letter: a note name that stands for one.
pub open spec fn letter(text: Seq<char>) -> Parsed<Letter> {
    match select_letter(text) {
        Parsed::Done { rest, value } => match note_named(value) {
            Some(found) => Parsed::Done { rest, value: found },
            None => Parsed::Failed { at: text, kind: ErrorKind::MapOpt },
        },
        Parsed::Incomplete { needed } => Parsed::Incomplete { needed },
        Parsed::Failed { at, kind } => Parsed::Failed { at, kind },
    }
}

/// What a command says, in plain values.
pub enum CommandView {
    EmptyString,
    Chord(Letter, Seq<char>),
    Sharps,
    Flats,
    Transpose(i32, Letter, Seq<char>),
}

/// A chord: a note letter, and the rest of the line as the chord's quality,
/// trimmed.
pub open spec fn command_chord(text: Seq<char>) -> Parsed<CommandView> {
    then(
        letter(text),
        |rest: Seq<char>, root: Letter|
            then(
                not_line_ending(rest),
                |after: Seq<char>, quality: Seq<char>|
                    Parsed::Done { rest: after, value: CommandView::Chord(root, trimmed(quality)) },
            ),
    )
}

/// Nothing at all.
pub open spec fn command_null(text: Seq<char>) -> Parsed<CommandView> {
    if text.len() == 0 {
        Parsed::Done { rest: text, value: CommandView::EmptyString }
    } else {
        Parsed::Failed { at: text, kind: ErrorKind::Eof }
    }
}

/// The word `first`, or else the word `second`, the text being complete;
/// either means `value`.
pub open spec fn either_word(
    text: Seq<char>,
    first: Seq<char>,
    second: Seq<char>,
    value: CommandView,
) -> Parsed<CommandView> {
    then(
        or(
            complete(text, tag(text, first)),
            or(complete(text, tag(text, second)), no_alternative(text)),
        ),
        |rest: Seq<char>, word: Seq<char>| Parsed::Done { rest, value },
    )
}

/// The word "sharps" or "sharp".
pub open spec fn command_sharps(text: Seq<char>) -> Parsed<CommandView> {
    either_word(text, "sharps"@, "sharp"@, CommandView::Sharps)
}

/// The word "flats" or "flat".
pub open spec fn command_flats(text: Seq<char>) -> Parsed<CommandView> {
    either_word(text, "flats"@, "flat"@, CommandView::Flats)
}

/// The value of a digit.
pub open spec fn digit_value(c: char) -> int {
    c as int - '0' as int
}

/// The number that a run of digits writes in base ten.
pub open spec fn decimal(digits: Seq<char>) -> int
    decreases digits.len(),
{
    if digits.len() == 0 {
        0
    } else {
        decimal(digits.drop_last()) * 10 + digit_value(digits.last())
    }
}

/// The 32-bit number that `text` writes, a run of digits with or without a
/// minus sign before it, if it is one.
pub open spec fn number_written(text: Seq<char>) -> Option<i32> {
    let value = if text.len() > 0 && text[0] == '-' {
        -decimal(text.skip(1))
    } else {
        decimal(text)
    };
    if i32::MIN <= value <= i32::MAX {
        Some(value as i32)
    } else {
        None
    }
}

/// A run of digits, with or without a minus sign before it.
pub open spec fn signed_digits(text: Seq<char>) -> Parsed<Seq<char>> {
    then(
        optional(text, character(text, '-')),
        |rest: Seq<char>, sign: Option<char>|
            then(
                digit1(rest),
                |after: Seq<char>, digits: Seq<char>|
                    Parsed::Done { rest: after, value: text.take(text.len() - after.len()) },
            ),
    )
}

/// A signed 32-bit number in base ten.
pub open spec fn parse_signed_i32(text: Seq<char>) -> Parsed<i32> {
    match signed_digits(text) {
        Parsed::Done { rest, value } => match number_written(value) {
            Some(number) => Parsed::Done { rest, value: number },
            None => Parsed::Failed { at: text, kind: ErrorKind::MapRes },
        },
        Parsed::Incomplete { needed } => Parsed::Incomplete { needed },
        Parsed::Failed { at, kind } => Parsed::Failed { at, kind },
    }
}

/// A transposition: the word "transpose" or "t", a signed number of
/// semitones, and a chord, with or without spaces between them.
pub open spec fn command_transpose(text: Seq<char>) -> Parsed<CommandView> {
    then(
        or(tag(text, "transpose"@), or(tag(text, "t"@), no_alternative(text))),
        |after_word: Seq<char>, word: Seq<char>|
            then(
                multispace0(after_word),
                |at_number: Seq<char>, gap: Seq<char>|
                    then(
                        parse_signed_i32(at_number),
                        |after_number: Seq<char>, distance: i32|
                            then(
                                multispace0(after_number),
                                |at_letter: Seq<char>, gap: Seq<char>|
                                    then(
                                        letter(at_letter),
                                        |at_quality: Seq<char>, root: Letter|
                                            then(
                                                not_line_ending(at_quality),
                                                |rest: Seq<char>, quality: Seq<char>|
                                                    Parsed::Done {
                                                        rest,
                                                        value: CommandView::Transpose(
                                                            distance,
                                                            root,
                                                            trimmed(quality),
                                                        ),
                                                    },
                                            ),
                                    ),
                            ),
                    ),
            ),
    )
}

/// A command: nothing, a choice of notation, a transposition or a chord,
/// tried in this order.
pub open spec fn parse_command(text: Seq<char>) -> Parsed<CommandView> {
    or(
        command_null(text),
        or(
            command_flats(text),
            or(
                command_sharps(text),
                or(command_transpose(text), or(command_chord(text), no_alternative(text))),
            ),
        ),
    )
}

/// A command that cannot be read fails on the whole text, as a choice with
/// no alternative left.
pub proof fn law_command_fails_at_the_start(text: Seq<char>)
    ensures
        parse_command(text) matches Parsed::Failed { at, kind } ==> at == text && kind
            == ErrorKind::Alt,
{
}

/// The empty text is the empty command, and no other text is.
pub proof fn law_only_nothing_is_empty(text: Seq<char>)
    ensures
        (parse_command(text) matches Parsed::Done { value, .. } && value
            is EmptyString) <==> text.len() == 0,
{
}

/// A note letter is read off the first one or two characters.
pub proof fn law_letter_reads_one_or_two(text: Seq<char>)
    ensures
        letter(text) matches Parsed::Done { rest, value } ==> (rest == text.skip(1) && note_named(
            text.take(1),
        ) == Some(value)) || (rest == text.skip(2) && note_named(text.take(2)) == Some(value)),
{
}

} // verus!
