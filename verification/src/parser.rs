//! The commands of the prompt, and the parser for them.
//!
//! [`grammar`] says what each parser reads. The parsers here read it, and
//! their contracts say that they read exactly that.

pub mod grammar;
mod reader;

use crate::parser::grammar::CommandView;
use crate::parser::grammar::ErrorKind;
use crate::parser::grammar::Parsed;
use crate::parser::reader::chars_of;
use crate::parser::reader::chord_at;
use crate::parser::reader::command_at;
use crate::parser::reader::flats_at;
use crate::parser::reader::letter_at;
use crate::parser::reader::null_at;
use crate::parser::reader::number_at;
use crate::parser::reader::reached;
use crate::parser::reader::reached_command;
use crate::parser::reader::sharps_at;
use crate::parser::reader::transpose_at;
use crate::parser::reader::within;
use crate::parser::reader::Step;
use pitch_calc::Letter;
use vstd::prelude::*;

verus! {

/// This is the abstract syntax tree of the REPL. It describes the syntax of
/// every command that can be used.
#[derive(Debug, PartialEq, Eq)]
pub enum Command {
    /// Nothing at all was typed.
    EmptyString,
    /// A valid note letter followed by the chord quality.
    Chord(Letter, String),
    /// The word "sharps"
    Sharps,
    /// The word "flats"
    Flats,
    /// The word "transpose", followed by a signed integer, followed by a chord
    Transpose(i32, Letter, String),
}

impl DeepView for Command {
    type V = CommandView;

    open spec fn deep_view(&self) -> CommandView {
        match self {
            Command::EmptyString => CommandView::EmptyString,
            Command::Chord(root, quality) => CommandView::Chord(*root, quality@),
            Command::Sharps => CommandView::Sharps,
            Command::Flats => CommandView::Flats,
            Command::Transpose(distance, root, quality) => CommandView::Transpose(
                *distance,
                *root,
                quality@,
            ),
        }
    }
}

/// How a parser did not read what it was to read.
#[derive(Debug, PartialEq, Eq)]
pub enum ParseError<'a> {
    /// The text ended too soon: this many more bytes might decide.
    Incomplete(usize),
    /// The parser failed on this text, for this reason.
    Error(&'a str, ErrorKind),
}

/// What the result of a parser says, in the terms of the grammar.
pub open spec fn told<T>(result: Result<(&str, T), ParseError>) -> Parsed<T> {
    match result {
        Ok((rest, value)) => Parsed::Done { rest: rest@, value },
        Err(ParseError::Incomplete(needed)) => Parsed::Incomplete { needed: needed as nat },
        Err(ParseError::Error(at, kind)) => Parsed::Failed { at: at@, kind },
    }
}

/// What the result of a command parser says, in the terms of the grammar.
pub open spec fn told_command(result: Result<(&str, Command), ParseError>) -> Parsed<
    CommandView,
> {
    match result {
        Ok((rest, value)) => Parsed::Done { rest: rest@, value: value.deep_view() },
        Err(ParseError::Incomplete(needed)) => Parsed::Incomplete { needed: needed as nat },
        Err(ParseError::Error(at, kind)) => Parsed::Failed { at: at@, kind },
    }
}

/// The text of `input` from position `at` on.
fn rest_from<'a>(input: &'a str, at: usize) -> (rest: &'a str)
    requires
        at <= input@.len(),
    ensures
        rest@ == input@.skip(at as int),
{
    let rest = input.substring_char(at, input.unicode_len());
    rest
}

/// What a parser got to, as a result for its caller.
fn tell<'a, T>(input: &'a str, chars: &Vec<char>, step: Step<T>) -> (result: Result<
    (&'a str, T),
    ParseError<'a>,
>)
    requires
        chars@ == input@,
        within(step, chars@.len()),
    ensures
        told(result) == reached(chars@, step),
{
    match step {
        Step::Done(next, value) => Ok((rest_from(input, next), value)),
        Step::Incomplete(needed) => Err(ParseError::Incomplete(needed)),
        Step::Failed(at, kind) => Err(ParseError::Error(rest_from(input, at), kind)),
    }
}

/// What a command parser got to, as a result for its caller.
fn tell_command<'a>(input: &'a str, chars: &Vec<char>, step: Step<Command>) -> (result: Result<
    (&'a str, Command),
    ParseError<'a>,
>)
    requires
        chars@ == input@,
        within(step, chars@.len()),
    ensures
        told_command(result) == reached_command(chars@, step),
{
    match step {
        Step::Done(next, value) => Ok((rest_from(input, next), value)),
        Step::Incomplete(needed) => Err(ParseError::Incomplete(needed)),
        Step::Failed(at, kind) => Err(ParseError::Error(rest_from(input, at), kind)),
    }
}

/// Reads a note letter: a capital from A to G, with `#` or `b` behind it or
/// without.
pub fn letter<'a>(input: &'a str) -> (result: Result<(&'a str, Letter), ParseError<'a>>)
    ensures
        told(result) == grammar::letter(input@),
{
    let chars = chars_of(input);
    assert(chars@.skip(0) =~= chars@);
    let step = letter_at(&chars, 0);
    tell(input, &chars, step)
}

/// Reads a signed 32-bit number in base ten.
pub fn parse_signed_i32<'a>(input: &'a str) -> (result: Result<(&'a str, i32), ParseError<'a>>)
    ensures
        told(result) == grammar::parse_signed_i32(input@),
{
    let chars = chars_of(input);
    assert(chars@.skip(0) =~= chars@);
    let step = number_at(&chars, 0);
    tell(input, &chars, step)
}

/// Reads the empty command: the end of the text.
pub fn command_null<'a>(input: &'a str) -> (result: Result<(&'a str, Command), ParseError<'a>>)
    ensures
        told_command(result) == grammar::command_null(input@),
{
    let chars = chars_of(input);
    assert(chars@.skip(0) =~= chars@);
    let step = null_at(&chars, 0);
    tell_command(input, &chars, step)
}

/// Reads the word "sharps" or "sharp".
pub fn command_sharps<'a>(input: &'a str) -> (result: Result<(&'a str, Command), ParseError<'a>>)
    ensures
        told_command(result) == grammar::command_sharps(input@),
{
    let chars = chars_of(input);
    assert(chars@.skip(0) =~= chars@);
    let step = sharps_at(&chars, 0);
    tell_command(input, &chars, step)
}

/// Reads the word "flats" or "flat".
pub fn command_flats<'a>(input: &'a str) -> (result: Result<(&'a str, Command), ParseError<'a>>)
    ensures
        told_command(result) == grammar::command_flats(input@),
{
    let chars = chars_of(input);
    assert(chars@.skip(0) =~= chars@);
    let step = flats_at(&chars, 0);
    tell_command(input, &chars, step)
}

/// Reads a transposition: the word "transpose" or "t", a signed number of
/// semitones, and a chord.
pub fn command_transpose<'a>(input: &'a str) -> (result: Result<
    (&'a str, Command),
    ParseError<'a>,
>)
    ensures
        told_command(result) == grammar::command_transpose(input@),
{
    let chars = chars_of(input);
    assert(chars@.skip(0) =~= chars@);
    let step = transpose_at(input, &chars, 0);
    tell_command(input, &chars, step)
}

/// Reads a chord: a note letter, and the rest of the line as its quality.
pub fn command_chord<'a>(input: &'a str) -> (result: Result<(&'a str, Command), ParseError<'a>>)
    ensures
        told_command(result) == grammar::command_chord(input@),
{
    let chars = chars_of(input);
    assert(chars@.skip(0) =~= chars@);
    let step = chord_at(input, &chars, 0);
    tell_command(input, &chars, step)
}

/// Top-level parser, containing the entire command syntax.
pub fn parse_command<'a>(input: &'a str) -> (result: Result<(&'a str, Command), ParseError<'a>>)
    ensures
        told_command(result) == grammar::parse_command(input@),
{
    let chars = chars_of(input);
    let step = command_at(input, &chars);
    tell_command(input, &chars, step)
}

} // verus!
