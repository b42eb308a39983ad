//! The note types of `pitch_calc`, made known to the verifier, and what its
//! arithmetic on them computes.

use pitch_calc::Letter;
use pitch_calc::LetterOctave;
use vstd::prelude::*;

verus! {

/// `pitch_calc::Letter`: the seventeen spellings of the twelve chromatic
/// steps. Declared with its variants, so that verified code can match on them.
#[verifier::external_type_specification]
pub struct ExLetter(Letter);

/// `pitch_calc::LetterOctave`: a letter and the octave it sounds in, both
/// public fields.
#[verifier::external_type_specification]
pub struct ExLetterOctave(LetterOctave);

/// Where a letter lies in the octave, in semitones above C. A sharp and the
/// flat above it (C# and Db) lie on the same step.
pub open spec fn semitone(letter: Letter) -> int {
    match letter {
        Letter::C => 0,
        Letter::Csh | Letter::Db => 1,
        Letter::D => 2,
        Letter::Dsh | Letter::Eb => 3,
        Letter::E => 4,
        Letter::F => 5,
        Letter::Fsh | Letter::Gb => 6,
        Letter::G => 7,
        Letter::Gsh | Letter::Ab => 8,
        Letter::A => 9,
        Letter::Ash | Letter::Bb => 10,
        Letter::B => 11,
    }
}

/// The letter on a step of the octave, accidentals spelled as sharps.
pub open spec fn sharp_letter(step: int) -> Letter
    recommends
        0 <= step < 12,
{
    if step == 0 {
        Letter::C
    } else if step == 1 {
        Letter::Csh
    } else if step == 2 {
        Letter::D
    } else if step == 3 {
        Letter::Dsh
    } else if step == 4 {
        Letter::E
    } else if step == 5 {
        Letter::F
    } else if step == 6 {
        Letter::Fsh
    } else if step == 7 {
        Letter::G
    } else if step == 8 {
        Letter::Gsh
    } else if step == 9 {
        Letter::A
    } else if step == 10 {
        Letter::Ash
    } else {
        Letter::B
    }
}

/// The letter `distance` semitones above `letter` (below, where it is
/// negative), spelled as a sharp.
pub open spec fn letter_above(letter: Letter, distance: int) -> Letter {
    sharp_letter((semitone(letter) + distance) % 12)
}

/// A note as a number of semitones, 0 being C in octave -1.
pub open spec fn step_of(note: LetterOctave) -> int {
    (note.1 + 1) * 12 + semitone(note.0)
}

/// The note on a step, spelled as a sharp. (Steps whose octave is beyond
/// 32 bits have no note.)
pub open spec fn note_at(step: int) -> LetterOctave {
    LetterOctave(sharp_letter(step % 12), (step / 12 - 1) as i32)
}

/// `pitch_calc`'s `Letter + i32`: the letter that many semitones further up
/// the octave, wrapping round and spelled as a sharp. The crate reduces both
/// the letter and the distance modulo twelve, in integers.
#[verifier::external_body]
pub(crate) fn letter_plus(letter: Letter, distance: i32) -> (moved: Letter)
    ensures
        moved == letter_above(letter, distance as int),
{
    letter + distance
}

/// The note on a step lies on that step.
pub proof fn law_note_at_lies_on_its_step(step: int)
    requires
        i32::MIN <= step / 12 - 1 <= i32::MAX,
    ensures
        step_of(note_at(step)) == step,
{
}

/// Going up by `a` and then by `b` is going up by `a + b`.
pub proof fn law_letter_above_adds(letter: Letter, a: int, b: int)
    ensures
        letter_above(letter_above(letter, a), b) == letter_above(letter, a + b),
{
    let s = semitone(letter);
    assert(((s + a) % 12 + b) % 12 == (s + a + b) % 12) by {
        vstd::arithmetic::div_mod::lemma_add_mod_noop(s + a, b, 12);
        vstd::arithmetic::div_mod::lemma_mod_twice(s + a, 12);
        vstd::arithmetic::div_mod::lemma_add_mod_noop((s + a) % 12, b, 12);
    }
}

} // verus!
