//! The chords that the tables start with.

use crate::database::ChordDatabase;
use crate::database::ChordName;
use crate::database::ChordNote;
use crate::database::NameRow;
use crate::database::NoteRow;
use crate::music_theory::degree_intervals::Aug5th;
use crate::music_theory::degree_intervals::Dim5th;
use crate::music_theory::degree_intervals::Dim7th;
use crate::music_theory::degree_intervals::Maj3rd;
use crate::music_theory::degree_intervals::Maj6th;
use crate::music_theory::degree_intervals::Maj7th;
use crate::music_theory::degree_intervals::Min3rd;
use crate::music_theory::degree_intervals::Min7th;
use crate::music_theory::degree_intervals::Per5th;
use crate::music_theory::Degree;
use crate::music_theory::Interval;
use vstd::prelude::*;

verus! {

/// A note row for `chord` from a degree and its interval.
pub open spec fn note_row(chord: &str, note: (Degree, Interval)) -> NoteRow {
    (chord@, note.0, note.1)
}

/// The notes table of the library: triads first, then tetrads.
pub open spec fn chord_rows() -> Seq<NoteRow> {
    seq![
        note_row("major", Maj3rd),
        note_row("major", Per5th),
        note_row("minor", Min3rd),
        note_row("minor", Per5th),
        note_row("diminished", Min3rd),
        note_row("diminished", Dim5th),
        note_row("augmented", Maj3rd),
        note_row("augmented", Aug5th),
        note_row("major seventh", Maj3rd),
        note_row("major seventh", Per5th),
        note_row("major seventh", Maj7th),
        note_row("dominant seventh", Maj3rd),
        note_row("dominant seventh", Per5th),
        note_row("dominant seventh", Min7th),
        note_row("minor seventh", Min3rd),
        note_row("minor seventh", Per5th),
        note_row("minor seventh", Min7th),
        note_row("major sixth", Maj3rd),
        note_row("major sixth", Per5th),
        note_row("major sixth", Maj6th),
        note_row("diminished seventh", Min3rd),
        note_row("diminished seventh", Dim5th),
        note_row("diminished seventh", Dim7th),
    ]
}

/// A name row.
pub open spec fn name_row(chord: &str, alternative_name: &str) -> NameRow {
    (chord@, alternative_name@)
}

/// The names table of the library.
pub open spec fn chord_names() -> Seq<NameRow> {
    seq![
        name_row("major", ""),
        name_row("major", "maj"),
        name_row("minor", "m"),
        name_row("minor", "-"),
        name_row("diminished", "dim"),
        name_row("diminished", "o"),
        name_row("diminished", "*"),
        name_row("augmented", "+"),
        name_row("augmented", "aug"),
        name_row("major seventh", "M7"),
        name_row("major seventh", "maj7"),
        name_row("dominant seventh", "7"),
        name_row("minor seventh", "m7"),
        name_row("minor seventh", "-7"),
        name_row("major sixth", "6"),
        name_row("major sixth", "maj6"),
        name_row("diminished seventh", "dim7"),
        name_row("diminished seventh", "o7"),
    ]
}

/// Adds the row of `note` for `chord` to `rows`.
fn add_note(rows: &mut Vec<ChordNote>, chord: &str, note: (Degree, Interval))
    ensures
        final(rows).deep_view() == old(rows).deep_view().push(note_row(chord, note)),
{
    rows.push(ChordNote::note(chord, note.0, note.1));
}

/// Adds the row that `chord` also goes by `alternative_name` to `rows`.
fn add_name(rows: &mut Vec<ChordName>, chord: &str, alternative_name: &str)
    ensures
        final(rows).deep_view() == old(rows).deep_view().push(name_row(chord, alternative_name)),
{
    rows.push(ChordName::name(chord, alternative_name));
}

/// The notes of every chord of the library, as rows for the notes table.
pub fn generate_chords() -> (rows: Vec<ChordNote>)
    ensures
        rows.deep_view() == chord_rows(),
{
    let mut rows: Vec<ChordNote> = Vec::new();
    // Triads
    add_note(&mut rows, "major", Maj3rd);
    add_note(&mut rows, "major", Per5th);
    add_note(&mut rows, "minor", Min3rd);
    add_note(&mut rows, "minor", Per5th);
    add_note(&mut rows, "diminished", Min3rd);
    add_note(&mut rows, "diminished", Dim5th);
    add_note(&mut rows, "augmented", Maj3rd);
    add_note(&mut rows, "augmented", Aug5th);
    // Tetrads
    add_note(&mut rows, "major seventh", Maj3rd);
    add_note(&mut rows, "major seventh", Per5th);
    add_note(&mut rows, "major seventh", Maj7th);
    add_note(&mut rows, "dominant seventh", Maj3rd);
    add_note(&mut rows, "dominant seventh", Per5th);
    add_note(&mut rows, "dominant seventh", Min7th);
    add_note(&mut rows, "minor seventh", Min3rd);
    add_note(&mut rows, "minor seventh", Per5th);
    add_note(&mut rows, "minor seventh", Min7th);
    add_note(&mut rows, "major sixth", Maj3rd);
    add_note(&mut rows, "major sixth", Per5th);
    add_note(&mut rows, "major sixth", Maj6th);
    add_note(&mut rows, "diminished seventh", Min3rd);
    add_note(&mut rows, "diminished seventh", Dim5th);
    add_note(&mut rows, "diminished seventh", Dim7th);
    rows
}

/// The names that the chords of the library go by, as rows for the names
/// table.
pub fn generate_names() -> (rows: Vec<ChordName>)
    ensures
        rows.deep_view() == chord_names(),
{
    let mut rows: Vec<ChordName> = Vec::new();
    add_name(&mut rows, "major", "");
    add_name(&mut rows, "major", "maj");
    add_name(&mut rows, "minor", "m");
    add_name(&mut rows, "minor", "-");
    add_name(&mut rows, "diminished", "dim");
    add_name(&mut rows, "diminished", "o");
    add_name(&mut rows, "diminished", "*");
    add_name(&mut rows, "augmented", "+");
    add_name(&mut rows, "augmented", "aug");
    add_name(&mut rows, "major seventh", "M7");
    add_name(&mut rows, "major seventh", "maj7");
    add_name(&mut rows, "dominant seventh", "7");
    add_name(&mut rows, "minor seventh", "m7");
    add_name(&mut rows, "minor seventh", "-7");
    add_name(&mut rows, "major sixth", "6");
    add_name(&mut rows, "major sixth", "maj6");
    add_name(&mut rows, "diminished seventh", "dim7");
    add_name(&mut rows, "diminished seventh", "o7");
    rows
}

/// Puts the library's chords and names into the tables.
pub fn populate_database(db: &mut ChordDatabase)
    ensures
        final(db).note_rows() == old(db).note_rows() + chord_rows(),
        final(db).name_rows() == old(db).name_rows() + chord_names(),
{
    db.insert_notes(generate_chords());
    db.insert_names(generate_names());
}

} // verus!
