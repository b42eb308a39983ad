//! The parsers at work: each reads the characters of a text from a
//! position on, and says where it got to. What it reads is what
//! [`grammar`](crate::parser::grammar) says.

use crate::parser::grammar;
use crate::parser::grammar::in_run;
use crate::parser::grammar::is_note_capital;
use crate::parser::grammar::leading;
use crate::parser::grammar::name_of;
use crate::parser::grammar::note_named;
use crate::parser::grammar::CommandView;
use crate::parser::grammar::ErrorKind;
use crate::parser::grammar::Parsed;
use crate::parser::grammar::Run;
use crate::parser::Command;
use crate::text::trim;
use crate::text::trimmed;
use pitch_calc::Letter;
use vstd::prelude::*;

verus! {

/// Where a parser got to in the characters of a text.
pub(crate) enum Step<T> {
    /// It read a value and stopped before this position.
    Done(usize, T),
    /// The text ended too soon.
    Incomplete(usize),
    /// It failed on the text from this position.
    Failed(usize, ErrorKind),
}

/// The positions of `step` lie within a text of `len` characters.
pub(crate) open spec fn within<T>(step: Step<T>, len: nat) -> bool {
    match step {
        Step::Done(next, _) => next <= len,
        Step::Incomplete(_) => true,
        Step::Failed(at, _) => at <= len,
    }
}

/// What `step` says of the text `chars`, in the terms of the grammar.
pub(crate) open spec fn reached<T>(chars: Seq<char>, step: Step<T>) -> Parsed<T> {
    match step {
        Step::Done(next, value) => Parsed::Done { rest: chars.skip(next as int), value },
        Step::Incomplete(needed) => Parsed::Incomplete { needed: needed as nat },
        Step::Failed(at, kind) => Parsed::Failed { at: chars.skip(at as int), kind },
    }
}

/// What `step` says of the text `chars`, where it read a command.
pub(crate) open spec fn reached_command(chars: Seq<char>, step: Step<Command>) -> Parsed<CommandView> {
    match step {
        Step::Done(next, value) => Parsed::Done {
            rest: chars.skip(next as int),
            value: value.deep_view(),
        },
        Step::Incomplete(needed) => Parsed::Incomplete { needed: needed as nat },
        Step::Failed(at, kind) => Parsed::Failed { at: chars.skip(at as int), kind },
    }
}

/// The characters of `text`.
pub(crate) fn chars_of(text: &str) -> (chars: Vec<char>)
    ensures
        chars@ == text@,
{
    broadcast use vstd::string::group_string_axioms;

    let mut chars: Vec<char> = Vec::new();
    for c in it: text.chars()
        invariant
            chars@ == it.seq().take(it.index() as int),
            it.seq() == text@,
    {
        chars.push(c);
    }
    chars
}

/// Whether `c` is of the kind `run`.
fn is_in_run(run: Run, c: char) -> (kept: bool)
    ensures
        kept == in_run(run, c),
{
    match run {
        Run::Spaces => c == ' ' || c == '\t' || c == '\r' || c == '\n',
        Run::Digits => '0' <= c && c <= '9',
        Run::Line => c != '\r' && c != '\n',
    }
}

/// The position after the run of `run` characters that starts at `at`.
fn scan(chars: &Vec<char>, at: usize, run: Run) -> (end: usize)
    requires
        at <= chars@.len(),
    ensures
        at <= end <= chars@.len(),
        end - at == leading(chars@.skip(at as int), run),
{
    let mut end = at;
    while end < chars.len() && is_in_run(run, chars[end])
        invariant
            at <= end <= chars@.len(),
            leading(chars@.skip(at as int), run) == (end - at) + leading(
                chars@.skip(end as int),
                run,
            ),
        decreases chars@.len() - end,
    {
        assert(chars@.skip(end as int).drop_first() =~= chars@.skip(end + 1));
        end = end + 1;
    }
    end
}

/// How a text compares with a word.
enum WordMatch {
    /// The text starts with the word, which has this many characters.
    Whole(usize),
    /// The text ends within the word, this many characters short.
    Short(usize),
    /// The text differs from the word.
    No,
}

/// Compares the text from `at` with `word`.
fn at_word(chars: &Vec<char>, at: usize, word: &str) -> (found: WordMatch)
    requires
        at <= chars@.len(),
    ensures
        match found {
            WordMatch::Whole(len) => word@.is_prefix_of(chars@.skip(at as int)) && len
                == word@.len() && at + len <= chars.len(),
            WordMatch::Short(missing) => !word@.is_prefix_of(chars@.skip(at as int))
                && chars@.skip(at as int).is_prefix_of(word@) && missing == word@.len()
                - chars@.skip(at as int).len(),
            WordMatch::No => !word@.is_prefix_of(chars@.skip(at as int)) && !chars@.skip(
                at as int,
            ).is_prefix_of(word@),
        },
{
    let ghost text = chars@.skip(at as int);
    let n = word.unicode_len();
    let left = chars.len() - at;
    let mut i: usize = 0;
    while i < n && i < left
        invariant
            at <= chars@.len(),
            text == chars@.skip(at as int),
            n == word@.len(),
            left == text.len(),
            left + at == chars.len(),
            i <= n,
            i <= left,
            forall|k: int| 0 <= k < i ==> text[k] == word@[k],
        decreases n - i,
    {
        if chars[at + i] != word.get_char(i) {
            assert(text[i as int] != word@[i as int]);
            return WordMatch::No;
        }
        i = i + 1;
    }
    if i == n {
        WordMatch::Whole(n)
    } else {
        WordMatch::Short(n - left)
    }
}

/// Whether `c` is the capital of a natural note.
fn is_capital(c: char) -> (capital: bool)
    ensures
        capital == is_note_capital(c),
{
    c == 'A' || c == 'B' || c == 'C' || c == 'D' || c == 'E' || c == 'F' || c == 'G'
}

/// The letter that a note name stands for, the name given as its capital
/// and the accidental behind it.
fn note_map(capital: char, accidental: Option<char>) -> (found: Option<Letter>)
    ensures
        found == note_named(name_of(capital, accidental)),
{
    let ghost name = name_of(capital, accidental);
    assert(name[0] == capital);
    match accidental {
        None => {
            if capital == 'C' {
                Some(Letter::C)
            } else if capital == 'D' {
                Some(Letter::D)
            } else if capital == 'E' {
                Some(Letter::E)
            } else if capital == 'F' {
                Some(Letter::F)
            } else if capital == 'G' {
                Some(Letter::G)
            } else if capital == 'A' {
                Some(Letter::A)
            } else if capital == 'B' {
                Some(Letter::B)
            } else {
                None
            }
        },
        Some(sign) => {
            if sign == '#' {
                if capital == 'C' {
                    Some(Letter::Csh)
                } else if capital == 'D' {
                    Some(Letter::Dsh)
                } else if capital == 'F' {
                    Some(Letter::Fsh)
                } else if capital == 'G' {
                    Some(Letter::Gsh)
                } else if capital == 'A' {
                    Some(Letter::Ash)
                } else {
                    None
                }
            } else if sign == 'b' {
                if capital == 'D' {
                    Some(Letter::Db)
                } else if capital == 'E' {
                    Some(Letter::Eb)
                } else if capital == 'G' {
                    Some(Letter::Gb)
                } else if capital == 'A' {
                    Some(Letter::Ab)
                } else if capital == 'B' {
                    Some(Letter::Bb)
                } else {
                    None
                }
            } else {
                None
            }
        },
    }
}

/// Reads a note letter at `at`.
pub(crate) fn letter_at(chars: &Vec<char>, at: usize) -> (step: Step<Letter>)
    requires
        at <= chars@.len(),
    ensures
        within(step, chars@.len()),
        reached(chars@, step) == grammar::letter(chars@.skip(at as int)),
        step matches Step::Done(next, _) ==> at <= next,
{
    let ghost text = chars@.skip(at as int);
    if at >= chars.len() {
        return Step::Incomplete(1);
    }
    let capital = chars[at];
    if !is_capital(capital) {
        return Step::Failed(at, ErrorKind::Alt);
    }
    let ghost rest = text.skip(1);
    assert(rest =~= chars@.skip(at + 1));
    if at + 1 < chars.len() && (chars[at + 1] == '#' || chars[at + 1] == 'b') {
        let sign = chars[at + 1];
        assert(rest.skip(1) =~= chars@.skip(at + 2));
        match note_map(capital, Some(sign)) {
            Some(found) => Step::Done(at + 2, found),
            None => Step::Failed(at, ErrorKind::MapOpt),
        }
    } else {
        match note_map(capital, None) {
            Some(found) => Step::Done(at + 1, found),
            None => Step::Failed(at, ErrorKind::MapOpt),
        }
    }
}

/// Reads the rest of the line from `at`, and says where it ends; `None`
/// where a carriage return stands without a line feed.
fn line_at(chars: &Vec<char>, at: usize) -> (end: Option<usize>)
    requires
        at <= chars@.len(),
    ensures
        match end {
            Some(end) => at <= end <= chars@.len() && grammar::not_line_ending(
                chars@.skip(at as int),
            ) == (Parsed::Done {
                rest: chars@.skip(end as int),
                value: chars@.subrange(at as int, end as int),
            }),
            None => grammar::not_line_ending(chars@.skip(at as int)) == (Parsed::<
                Seq<char>,
            >::Failed { at: chars@.skip(at as int), kind: ErrorKind::Tag }),
        },
{
    let ghost text = chars@.skip(at as int);
    let end = scan(chars, at, Run::Line);
    assert(text.skip(end - at) =~= chars@.skip(end as int));
    assert(text.take(end - at) =~= chars@.subrange(at as int, end as int));
    if end == chars.len() {
        Some(end)
    } else if chars[end] == '\n' || (end + 1 < chars.len() && chars[end + 1] == '\n') {
        Some(end)
    } else {
        None
    }
}

/// The chord quality that the characters from `from` to `to` spell.
fn quality_text(input: &str, from: usize, to: usize) -> (quality: String)
    requires
        from <= to <= input@.len(),
    ensures
        quality@ == trimmed(input@.subrange(from as int, to as int)),
{
    trim(input.substring_char(from, to)).to_owned()
}

/// Reads a chord at `at`.
pub(crate) fn chord_at(input: &str, chars: &Vec<char>, at: usize) -> (step: Step<Command>)
    requires
        chars@ == input@,
        at <= chars@.len(),
    ensures
        within(step, chars@.len()),
        reached_command(chars@, step) == grammar::command_chord(chars@.skip(at as int)),
{
    match letter_at(chars, at) {
        Step::Done(next, root) => match line_at(chars, next) {
            Some(end) => Step::Done(end, Command::Chord(root, quality_text(input, next, end))),
            None => Step::Failed(next, ErrorKind::Tag),
        },
        Step::Incomplete(needed) => Step::Incomplete(needed),
        Step::Failed(at, kind) => Step::Failed(at, kind),
    }
}

/// Reads one of two words at `at`, the text being complete, and says where
/// the word ends.
fn either_word_at(chars: &Vec<char>, at: usize, first: &str, second: &str) -> (end: Option<usize>)
    requires
        at <= chars@.len(),
    ensures
        match end {
            Some(end) => at <= end <= chars@.len() && forall|value: CommandView|
                #[trigger] grammar::either_word(chars@.skip(at as int), first@, second@, value)
                    == (Parsed::Done { rest: chars@.skip(end as int), value }),
            None => forall|value: CommandView|
                #[trigger] grammar::either_word(chars@.skip(at as int), first@, second@, value)
                    == (Parsed::<CommandView>::Failed {
                    at: chars@.skip(at as int),
                    kind: ErrorKind::Alt,
                }),
        },
{
    let ghost text = chars@.skip(at as int);
    match at_word(chars, at, first) {
        WordMatch::Whole(len) => {
            assert(text.skip(len as int) =~= chars@.skip(at + len));
            Some(at + len)
        },
        _ => match at_word(chars, at, second) {
            WordMatch::Whole(len) => {
                assert(text.skip(len as int) =~= chars@.skip(at + len));
                Some(at + len)
            },
            _ => None,
        },
    }
}

/// The value of the digit `c`.
fn digit_of(c: char) -> (value: i64)
    requires
        grammar::is_digit(c),
    ensures
        value == grammar::digit_value(c),
        0 <= value <= 9,
{
    (c as u32 - '0' as u32) as i64
}

/// A run of digits writes no negative number, and a longer run no smaller
/// one.
proof fn lemma_decimal_grows(digits: Seq<char>, n: int)
    requires
        0 <= n <= digits.len(),
        forall|k: int| 0 <= k < digits.len() ==> grammar::is_digit(#[trigger] digits[k]),
    ensures
        0 <= grammar::decimal(digits.take(n)) <= grammar::decimal(digits),
    decreases digits.len() - n,
{
    if n == digits.len() {
        assert(digits.take(n) =~= digits);
        lemma_decimal_bounds(digits);
    } else {
        let shorter = digits.drop_last();
        assert(shorter.take(n) =~= digits.take(n));
        lemma_decimal_grows(shorter, n);
    }
}

/// A run of digits writes no negative number.
proof fn lemma_decimal_bounds(digits: Seq<char>)
    requires
        forall|k: int| 0 <= k < digits.len() ==> grammar::is_digit(#[trigger] digits[k]),
    ensures
        0 <= grammar::decimal(digits),
    decreases digits.len(),
{
    if digits.len() > 0 {
        lemma_decimal_bounds(digits.drop_last());
    }
}

/// The number that the digits from `from` to `to` write, if it is at most
/// `2^31`.
fn number_of(chars: &Vec<char>, from: usize, to: usize) -> (value: Option<i64>)
    requires
        from <= to <= chars@.len(),
        forall|k: int| from <= k < to ==> grammar::is_digit(#[trigger] chars@[k]),
    ensures
        match value {
            Some(value) => value == grammar::decimal(chars@.subrange(from as int, to as int))
                && 0 <= value <= 0x8000_0000,
            None => grammar::decimal(chars@.subrange(from as int, to as int)) > 0x8000_0000,
        },
{
    let ghost digits = chars@.subrange(from as int, to as int);
    let mut value: i64 = 0;
    let mut i = from;
    while i < to
        invariant
            from <= i <= to <= chars@.len(),
            digits == chars@.subrange(from as int, to as int),
            forall|k: int| 0 <= k < digits.len() ==> grammar::is_digit(#[trigger] digits[k]),
            value == grammar::decimal(digits.take(i - from)),
            0 <= value <= 0x8000_0000,
        decreases to - i,
    {
        let ghost read = digits.take(i - from + 1);
        assert(read.drop_last() =~= digits.take(i - from));
        assert(read.last() == chars@[i as int]);
        value = value * 10 + digit_of(chars[i]);
        i = i + 1;
        if value > 0x8000_0000 {
            proof {
                lemma_decimal_grows(digits, i - from);
            }
            return None;
        }
    }
    assert(digits.take(i - from) =~= digits);
    Some(value)
}

/// The digits of a run are digits.
proof fn lemma_leading_are_in_run(text: Seq<char>, run: Run, k: int)
    requires
        0 <= k < leading(text, run),
    ensures
        k < text.len(),
        in_run(run, text[k]),
    decreases k,
{
    if k > 0 {
        lemma_leading_are_in_run(text.drop_first(), run, k - 1);
    }
}

/// Reads a signed number at `at`.
pub(crate) fn number_at(chars: &Vec<char>, at: usize) -> (step: Step<i32>)
    requires
        at <= chars@.len(),
    ensures
        within(step, chars@.len()),
        reached(chars@, step) == grammar::parse_signed_i32(chars@.skip(at as int)),
        step matches Step::Done(next, _) ==> at <= next,
{
    let ghost text = chars@.skip(at as int);
    if at >= chars.len() {
        return Step::Incomplete(1);
    }
    let negative = chars[at] == '-';
    let from = if negative {
        at + 1
    } else {
        at
    };
    let ghost body = chars@.skip(from as int);
    assert(body =~= if negative {
        text.skip(1)
    } else {
        text
    });
    let to = scan(chars, from, Run::Digits);
    if to == from {
        return Step::Failed(from, ErrorKind::Digit);
    }
    let ghost written = text.take(text.len() - chars@.skip(to as int).len());
    proof {
        assert(body.skip(to - from) =~= chars@.skip(to as int));
        assert(written =~= chars@.subrange(at as int, to as int));
        assert forall|k: int| from <= k < to implies grammar::is_digit(#[trigger] chars@[k]) by {
            lemma_leading_are_in_run(body, Run::Digits, k - from);
        }
        if negative {
            assert(written.skip(1) =~= chars@.subrange(from as int, to as int));
        }
    }
    match number_of(chars, from, to) {
        None => Step::Failed(at, ErrorKind::MapRes),
        Some(value) => {
            if negative {
                Step::Done(to, (-value) as i32)
            } else if value <= 0x7fff_ffff {
                Step::Done(to, value as i32)
            } else {
                Step::Failed(at, ErrorKind::MapRes)
            }
        },
    }
}

/// Reads a transposition at `at`.
pub(crate) fn transpose_at(input: &str, chars: &Vec<char>, at: usize) -> (step: Step<Command>)
    requires
        chars@ == input@,
        at <= chars@.len(),
    ensures
        within(step, chars@.len()),
        reached_command(chars@, step) == grammar::command_transpose(chars@.skip(at as int)),
{
    let ghost text = chars@.skip(at as int);
    let after_word = match at_word(chars, at, "transpose") {
        WordMatch::Whole(len) => at + len,
        WordMatch::Short(missing) => {
            return Step::Incomplete(missing);
        },
        WordMatch::No => match at_word(chars, at, "t") {
            WordMatch::Whole(len) => at + len,
            WordMatch::Short(missing) => {
                return Step::Incomplete(missing);
            },
            WordMatch::No => {
                return Step::Failed(at, ErrorKind::Alt);
            },
        },
    };
    let ghost word_read = grammar::or(
        grammar::tag(text, "transpose"@),
        grammar::or(grammar::tag(text, "t"@), grammar::no_alternative(text)),
    );
    assert(word_read is Done && word_read->Done_rest =~= chars@.skip(after_word as int));
    let at_number = scan(chars, after_word, Run::Spaces);
    assert(chars@.skip(after_word as int).skip(at_number - after_word) =~= chars@.skip(
        at_number as int,
    ));
    let (after_number, distance) = match number_at(chars, at_number) {
        Step::Done(next, distance) => (next, distance),
        Step::Incomplete(needed) => {
            return Step::Incomplete(needed);
        },
        Step::Failed(at, kind) => {
            return Step::Failed(at, kind);
        },
    };
    let at_letter = scan(chars, after_number, Run::Spaces);
    assert(chars@.skip(after_number as int).skip(at_letter - after_number) =~= chars@.skip(
        at_letter as int,
    ));
    let (at_quality, root) = match letter_at(chars, at_letter) {
        Step::Done(next, root) => (next, root),
        Step::Incomplete(needed) => {
            return Step::Incomplete(needed);
        },
        Step::Failed(at, kind) => {
            return Step::Failed(at, kind);
        },
    };
    match line_at(chars, at_quality) {
        Some(end) => Step::Done(
            end,
            Command::Transpose(distance, root, quality_text(input, at_quality, end)),
        ),
        None => Step::Failed(at_quality, ErrorKind::Tag),
    }
}

/// Reads nothing at `at`, where the text ends.
pub(crate) fn null_at(chars: &Vec<char>, at: usize) -> (step: Step<Command>)
    requires
        at <= chars@.len(),
    ensures
        within(step, chars@.len()),
        reached_command(chars@, step) == grammar::command_null(chars@.skip(at as int)),
{
    if at == chars.len() {
        Step::Done(at, Command::EmptyString)
    } else {
        Step::Failed(at, ErrorKind::Eof)
    }
}

/// Reads the word for flats at `at`.
pub(crate) fn flats_at(chars: &Vec<char>, at: usize) -> (step: Step<Command>)
    requires
        at <= chars@.len(),
    ensures
        within(step, chars@.len()),
        reached_command(chars@, step) == grammar::command_flats(chars@.skip(at as int)),
{
    match either_word_at(chars, at, "flats", "flat") {
        Some(end) => {
            Step::Done(end, Command::Flats)
        },
        None => {
            Step::Failed(at, ErrorKind::Alt)
        },
    }
}

/// Reads the word for sharps at `at`.
pub(crate) fn sharps_at(chars: &Vec<char>, at: usize) -> (step: Step<Command>)
    requires
        at <= chars@.len(),
    ensures
        within(step, chars@.len()),
        reached_command(chars@, step) == grammar::command_sharps(chars@.skip(at as int)),
{
    match either_word_at(chars, at, "sharps", "sharp") {
        Some(end) => {
            Step::Done(end, Command::Sharps)
        },
        None => {
            Step::Failed(at, ErrorKind::Alt)
        },
    }
}

/// Reads a command at the start of `chars`.
pub(crate) fn command_at(input: &str, chars: &Vec<char>) -> (step: Step<Command>)
    requires
        chars@ == input@,
    ensures
        within(step, chars@.len()),
        reached_command(chars@, step) == grammar::parse_command(chars@),
{
    assert(chars@.skip(0) =~= chars@);
    match null_at(chars, 0) {
        Step::Failed(_, _) => {},
        read => {
            return read;
        },
    }
    match flats_at(chars, 0) {
        Step::Failed(_, _) => {},
        read => {
            return read;
        },
    }
    match sharps_at(chars, 0) {
        Step::Failed(_, _) => {},
        read => {
            return read;
        },
    }
    match transpose_at(input, chars, 0) {
        Step::Failed(_, _) => {},
        read => {
            return read;
        },
    }
    match chord_at(input, chars, 0) {
        Step::Failed(_, _) => Step::Failed(0, ErrorKind::Alt),
        read => read,
    }
}

} // verus!
