//! Notes, intervals and chords.

pub mod degree_intervals;
pub mod degrees;
pub mod intervals;

use crate::pitch::note_at;
use crate::pitch::step_of;
pub use pitch_calc::Letter;
pub use pitch_calc::LetterOctave;
use vstd::prelude::*;

verus! {

/// A scale degree, counted from 1 for the root.
pub type Degree = i32;

/// An interval in semitones.
pub type Interval = i32;

/// What makes a chord of a root: the notes above it, each as its degree and
/// its interval from the root.
pub type Quality = Vec<(Degree, Interval)>;

/// Octaves and intervals up to this size, either way, are transposed
/// exactly. Transposition goes through `pitch_calc`'s steps, which are
/// single-precision numbers and hold integers exactly only so far.
pub const PITCH_RANGE: i32 = 1_000_000;

/// `x` is an octave or an interval that transposition is exact for.
pub open spec fn in_pitch_range(x: int) -> bool {
    -PITCH_RANGE <= x <= PITCH_RANGE
}

/// The note `interval` semitones above `note`, spelled as a sharp.
pub open spec fn transposed_note(note: LetterOctave, interval: int) -> LetterOctave {
    note_at(step_of(note) + interval)
}

/// Transpose the note by the number of semitones in `interval`.
///
/// Goes through `pitch_calc`: `LetterOctave::to_step`, the sum of two of
/// its `Step`s, and `Step::to_letter_octave`. A step there is a
/// single-precision number: twelve for each octave above octave -1, plus the
/// letter's semitone. The way back rounds the step, takes the letter on its
/// remainder by twelve (a sharp, for a black key) and the octave from the
/// quotient. Within `PITCH_RANGE` every number on the way is an integer
/// below 2^24, which single precision holds exactly, so the result is the
/// one that integer arithmetic gives.
#[verifier::external_body]
pub fn transpose(note: LetterOctave, interval: Interval) -> (moved: LetterOctave)
    requires
        in_pitch_range(note.1 as int),
        in_pitch_range(interval as int),
    ensures
        moved == transposed_note(note, interval as int),
{
    let up = pitch_calc::Step(interval as pitch_calc::calc::Step);
    (note.to_step() + up).to_letter_octave()
}

/// Transposing by `a` and then by `b` is transposing by `a + b`, as long
/// as the octave of the note in between is one of 32 bits.
pub proof fn law_transposing_twice(note: LetterOctave, a: int, b: int)
    requires
        i32::MIN <= (step_of(note) + a) / 12 - 1 <= i32::MAX,
    ensures
        transposed_note(transposed_note(note, a), b) == transposed_note(note, a + b),
{
    crate::pitch::law_note_at_lies_on_its_step(step_of(note) + a);
}

/// Transposing by a whole number of octaves keeps the step within the
/// octave: the letter stays, but for its spelling, and the octave moves.
pub proof fn law_transposing_by_octaves(note: LetterOctave, octaves: int)
    requires
        i32::MIN <= note.1 + octaves <= i32::MAX,
    ensures
        crate::pitch::semitone(transposed_note(note, 12 * octaves).0) == crate::pitch::semitone(
            note.0,
        ),
        transposed_note(note, 12 * octaves).1 == note.1 + octaves,
{
    let s = crate::pitch::semitone(note.0);
    let up = step_of(note) + 12 * octaves;
    assert(up % 12 == s && up / 12 == note.1 + 1 + octaves) by {
        vstd::arithmetic::div_mod::lemma_fundamental_div_mod_converse(
            up,
            12,
            note.1 + 1 + octaves,
            s,
        );
    }
}

/// Whether `x` is an octave or an interval that transposition is exact for.
pub fn within_pitch_range(x: i32) -> (within: bool)
    ensures
        within == in_pitch_range(x as int),
{
    -PITCH_RANGE <= x && x <= PITCH_RANGE
}

/// A copy of `quality`.
fn copy_quality(quality: &Quality) -> (copy: Quality)
    ensures
        copy@ == quality@,
{
    let mut copy: Quality = Vec::new();
    let mut i: usize = 0;
    while i < quality.len()
        invariant
            i <= quality@.len(),
            copy@ == quality@.subrange(0, i as int),
        decreases quality@.len() - i,
    {
        copy.push(quality[i]);
        i = i + 1;
    }
    copy
}

/// Chords are composed of the root tone, followed by a list of notes
/// and their scale degrees.
#[derive(PartialEq, Eq, Debug)]
pub struct Chord {
    pub root: LetterOctave,
    pub quality: Quality,
}

#[allow(dead_code)]
impl Chord {
    /// The notes of the chord: the root, then one note for each entry of the
    /// quality, that entry's interval above the root.
    pub open spec fn notes_of(&self) -> Seq<LetterOctave> {
        seq![self.root] + Seq::new(
            self.quality@.len(),
            |i: int| transposed_note(self.root, self.quality@[i].1 as int),
        )
    }

    /// The root's octave and every interval of the quality are ones that
    /// transposition is exact for.
    pub open spec fn in_range(&self) -> bool {
        &&& in_pitch_range(self.root.1 as int)
        &&& forall|i: int|
            0 <= i < self.quality@.len() ==> in_pitch_range((#[trigger] self.quality@[i]).1 as int)
    }

    /// Whether the notes of the chord can be told: see [`Chord::in_range`].
    pub fn is_in_range(&self) -> (within: bool)
        ensures
            within == self.in_range(),
    {
        if !within_pitch_range(self.root.1) {
            return false;
        }
        let mut i: usize = 0;
        while i < self.quality.len()
            invariant
                i <= self.quality@.len(),
                in_pitch_range(self.root.1 as int),
                forall|k: int| 0 <= k < i ==> in_pitch_range((#[trigger] self.quality@[k]).1 as int),
            decreases self.quality@.len() - i,
        {
            if !within_pitch_range(self.quality[i].1) {
                return false;
            }
            i = i + 1;
        }
        true
    }

    /// Returns a new chord, transposed by `interval`.
    pub fn transposed(&self, interval: Interval) -> (chord: Chord)
        requires
            in_pitch_range(self.root.1 as int),
            in_pitch_range(interval as int),
        ensures
            chord.root == transposed_note(self.root, interval as int),
            chord.quality@ == self.quality@,
    {
        Chord { root: transpose(self.root, interval), quality: copy_quality(&self.quality) }
    }

    /// Returns the root note of the chord.
    pub fn root(&self) -> (root: LetterOctave)
        ensures
            root == self.root,
    {
        self.root
    }

    /// Returns a new chord with the same quality but with a different root,
    /// determined by `new_root`.
    pub fn with_root(&self, new_root: LetterOctave) -> (chord: Chord)
        ensures
            chord.root == new_root,
            chord.quality@ == self.quality@,
    {
        Chord { root: new_root, quality: copy_quality(&self.quality) }
    }

    /// Returns the `Letter` of the root.
    pub fn root_letter(&self) -> (letter: Letter)
        ensures
            letter == self.root.0,
    {
        self.root.0
    }

    /// Returns a new chord with the same quality but with a different root,
    /// determined by `new_root`. The new chord will be voiced in the same
    /// octave as the old one.
    pub fn with_root_letter(&self, new_root: Letter) -> (chord: Chord)
        ensures
            chord.root == LetterOctave(new_root, self.root.1),
            chord.quality@ == self.quality@,
    {
        Chord { root: LetterOctave(new_root, self.root.1), quality: copy_quality(&self.quality) }
    }

    /// Returns a copy of the chord's Quality.
    pub fn quality(&self) -> (quality: Quality)
        ensures
            quality@ == self.quality@,
    {
        copy_quality(&self.quality)
    }

    /// Returns a new chord with the same root, but a different `quality`.
    pub fn with_quality(&self, quality: Quality) -> (chord: Chord)
        ensures
            chord.root == self.root,
            chord.quality == quality,
    {
        Chord { root: self.root, quality: quality }
    }

    /// Returns all of the notes that make up the chord.
    pub fn notes(&self) -> (notes: Vec<LetterOctave>)
        requires
            self.in_range(),
        ensures
            notes@ == self.notes_of(),
    {
        let mut notes: Vec<LetterOctave> = Vec::new();
        notes.push(self.root);
        let mut i: usize = 0;
        while i < self.quality.len()
            invariant
                i <= self.quality@.len(),
                self.in_range(),
                notes@ == self.notes_of().subrange(0, i + 1),
            decreases self.quality@.len() - i,
        {
            let note = transpose(self.root, self.quality[i].1);
            notes.push(note);
            i = i + 1;
        }
        notes
    }
}

/// How accidentals are written: as flats or as sharps.
#[derive(PartialEq, Eq, Copy, Clone, Debug)]
pub struct Notation {
    flats: bool,
}

impl Notation {
    /// Sharps, until told otherwise.
    pub fn new() -> (notation: Notation)
        ensures
            !notation.use_flats(),
    {
        Notation { flats: false }
    }

    /// Whether accidentals are written as flats.
    pub closed spec fn use_flats(&self) -> bool {
        self.flats
    }
}

/// Chooses flats (`true`) or sharps (`false`) for accidentals.
pub fn set_use_flats(notation: &mut Notation, flats: bool)
    ensures
        final(notation).use_flats() == flats,
{
    notation.flats = flats;
}

/// Whether accidentals are written as flats.
pub fn get_use_flats(notation: &Notation) -> (flats: bool)
    ensures
        flats == notation.use_flats(),
{
    notation.flats
}

/// The name of a letter: a natural by its capital, a black key as the sharp
/// of the natural below it, or with `flats` as the flat of the one above,
/// whichever way the letter itself is spelled.
pub open spec fn letter_name(letter: Letter, flats: bool) -> Seq<char> {
    match letter {
        Letter::C => seq!['C'],
        Letter::D => seq!['D'],
        Letter::E => seq!['E'],
        Letter::F => seq!['F'],
        Letter::G => seq!['G'],
        Letter::A => seq!['A'],
        Letter::B => seq!['B'],
        Letter::Db | Letter::Csh => if flats {
            seq!['D', 'b']
        } else {
            seq!['C', '#']
        },
        Letter::Eb | Letter::Dsh => if flats {
            seq!['E', 'b']
        } else {
            seq!['D', '#']
        },
        Letter::Gb | Letter::Fsh => if flats {
            seq!['G', 'b']
        } else {
            seq!['F', '#']
        },
        Letter::Ab | Letter::Gsh => if flats {
            seq!['A', 'b']
        } else {
            seq!['G', '#']
        },
        Letter::Bb | Letter::Ash => if flats {
            seq!['B', 'b']
        } else {
            seq!['A', '#']
        },
    }
}

/// The name of `letter` in the given notation.
pub fn letter_to_string(letter: Letter, notation: &Notation) -> (name: String)
    ensures
        name@ == letter_name(letter, notation.use_flats()),
{
    let flats = get_use_flats(notation);
    proof {
        reveal_strlit("C");
        reveal_strlit("D");
        reveal_strlit("E");
        reveal_strlit("F");
        reveal_strlit("G");
        reveal_strlit("A");
        reveal_strlit("B");
        reveal_strlit("Db");
        reveal_strlit("C#");
        reveal_strlit("Eb");
        reveal_strlit("D#");
        reveal_strlit("Gb");
        reveal_strlit("F#");
        reveal_strlit("Ab");
        reveal_strlit("G#");
        reveal_strlit("Bb");
        reveal_strlit("A#");
    }
    let s = match letter {
        Letter::C => "C",
        Letter::D => "D",
        Letter::E => "E",
        Letter::F => "F",
        Letter::G => "G",
        Letter::A => "A",
        Letter::B => "B",
        Letter::Db | Letter::Csh => {
            if flats {
                "Db"
            } else {
                "C#"
            }
        },
        Letter::Eb | Letter::Dsh => {
            if flats {
                "Eb"
            } else {
                "D#"
            }
        },
        Letter::Gb | Letter::Fsh => {
            if flats {
                "Gb"
            } else {
                "F#"
            }
        },
        Letter::Ab | Letter::Gsh => {
            if flats {
                "Ab"
            } else {
                "G#"
            }
        },
        Letter::Bb | Letter::Ash => {
            if flats {
                "Bb"
            } else {
                "A#"
            }
        },
    };
    let name = s.to_owned();
    name
}

} // verus!
