//! The chord tables: which notes make up each chord, and the names each
//! chord goes by.
//!
//! [`ChordDatabase`] holds the two tables as plain rows. Where the rows are
//! kept in a database outside, [`searched_name`] and [`quality_of`] are the
//! decisions between its queries.

use crate::music_theory::Degree;
use crate::music_theory::Interval;
use crate::music_theory::Quality;
use crate::text::trim;
use crate::text::trimmed;
use vstd::prelude::*;

verus! {

/// A row of the notes table: `chord` has a note on `degree`, `interval`
/// semitones above its root.
#[derive(Debug, PartialEq, Eq)]
pub struct ChordNote {
    pub chord: String,
    pub degree: Degree,
    pub interval: Interval,
}

/// A row of the notes table as plain values: chord, degree, interval.
pub type NoteRow = (Seq<char>, Degree, Interval);

impl DeepView for ChordNote {
    type V = NoteRow;

    open spec fn deep_view(&self) -> NoteRow {
        (self.chord@, self.degree, self.interval)
    }
}

impl ChordNote {
    /// The row that says that `chord` has a note on `degree`, `interval`
    /// semitones above its root.
    pub fn note(chord: &str, degree: Degree, interval: Interval) -> (row: ChordNote)
        ensures
            row.deep_view() == (chord@, degree, interval),
    {
        ChordNote { chord: chord.to_owned(), degree: degree, interval: interval }
    }
}

/// A row of the names table: `chord` also goes by `alternative_name`.
#[derive(Debug, PartialEq, Eq)]
pub struct ChordName {
    pub chord: String,
    pub alternative_name: String,
}

/// A row of the names table as plain values: chord, alternative name.
pub type NameRow = (Seq<char>, Seq<char>);

impl DeepView for ChordName {
    type V = NameRow;

    open spec fn deep_view(&self) -> NameRow {
        (self.chord@, self.alternative_name@)
    }
}

impl ChordName {
    /// The row that says that `chord` also goes by `alternative_name`.
    pub fn name(chord: &str, alternative_name: &str) -> (row: ChordName)
        ensures
            row.deep_view() == (chord@, alternative_name@),
    {
        ChordName { chord: chord.to_owned(), alternative_name: alternative_name.to_owned() }
    }
}

/// The chord of the first row of `names` whose alternative name is
/// `alternative`, as a list of one; the empty list where no row has it.
pub open spec fn primary_names(names: Seq<NameRow>, alternative: Seq<char>) -> Seq<Seq<char>>
    decreases names.len(),
{
    if names.len() == 0 {
        Seq::<Seq<char>>::empty()
    } else if names[0].1 == alternative {
        seq![names[0].0]
    } else {
        primary_names(names.drop_first(), alternative)
    }
}

/// The rows of `notes` for `chord`, in table order.
pub open spec fn notes_on(notes: Seq<NoteRow>, chord: Seq<char>) -> Seq<NoteRow> {
    notes.filter(|row: NoteRow| row.0 == chord)
}

/// The chord to look up for `name`, given the chords that go by it: the one
/// chord, if there is one; the name itself, if there is none; nothing, if
/// there are several.
pub open spec fn searched(name: Seq<char>, primary: Seq<Seq<char>>) -> Option<Seq<char>> {
    if primary.len() == 1 {
        Some(primary[0])
    } else if primary.len() == 0 {
        Some(name)
    } else {
        None
    }
}

/// The quality that the note rows of one chord spell out: degree and
/// interval of each row. A chord without rows does not exist.
pub open spec fn quality_in(rows: Seq<NoteRow>) -> Option<Seq<(Degree, Interval)>> {
    if rows.len() == 0 {
        None
    } else {
        Some(rows.map_values(|row: NoteRow| (row.1, row.2)))
    }
}

/// The quality that the tables give for `name`: that of the chord that
/// goes by this name, or else of the chord that is called so itself.
pub open spec fn quality_named(
    names: Seq<NameRow>,
    notes: Seq<NoteRow>,
    name: Seq<char>,
) -> Option<Seq<(Degree, Interval)>> {
    match searched(name, primary_names(names, name)) {
        Some(chord) => quality_in(notes_on(notes, chord)),
        None => None,
    }
}

/// Decides which chord to look up for `name`, given the rows that the
/// search for it as an alternative name brought.
pub fn searched_name(name: &str, primary: &Vec<String>) -> (chord: Option<String>)
    ensures
        chord.deep_view() == searched(name@, primary.deep_view()),
{
    if primary.len() == 1 {
        Some(primary[0].clone())
    } else if primary.len() == 0 {
        Some(name.to_owned())
    } else {
        None
    }
}

/// Turns the note rows found for a chord into its quality. No rows, or a
/// search that failed, means that there is no such chord.
pub fn quality_of(rows: Option<Vec<ChordNote>>) -> (quality: Option<Quality>)
    ensures
        quality.deep_view() == match rows {
            Some(found) => quality_in(found.deep_view()),
            None => None,
        },
{
    match rows {
        None => None,
        Some(found) => {
            if found.len() == 0 {
                None
            } else {
                let mut quality: Quality = Vec::new();
                let mut i: usize = 0;
                while i < found.len()
                    invariant
                        i <= found@.len(),
                        quality@.len() == i,
                        forall|k: int|
                            0 <= k < i ==> #[trigger] quality@[k] == (
                                found@[k].degree,
                                found@[k].interval,
                            ),
                    decreases found@.len() - i,
                {
                    quality.push((found[i].degree, found[i].interval));
                    i = i + 1;
                }
                assert(Some(quality).deep_view() =~= quality_in(found.deep_view()));
                Some(quality)
            }
        },
    }
}

/// The two chord tables.
pub struct ChordDatabase {
    notes: Vec<ChordNote>,
    names: Vec<ChordName>,
}

impl ChordDatabase {
    /// The rows of the notes table, in the order they were inserted.
    pub closed spec fn note_rows(&self) -> Seq<NoteRow> {
        self.notes.deep_view()
    }

    /// The rows of the names table, in the order they were inserted.
    pub closed spec fn name_rows(&self) -> Seq<NameRow> {
        self.names.deep_view()
    }

    /// Adds rows to the notes table, and says how many.
    pub fn insert_notes(&mut self, rows: Vec<ChordNote>) -> (inserted: usize)
        ensures
            inserted == rows@.len(),
            final(self).note_rows() == old(self).note_rows() + rows.deep_view(),
            final(self).name_rows() == old(self).name_rows(),
    {
        let inserted = rows.len();
        let mut rows = rows;
        self.notes.append(&mut rows);
        inserted
    }

    /// Adds rows to the names table, and says how many.
    pub fn insert_names(&mut self, rows: Vec<ChordName>) -> (inserted: usize)
        ensures
            inserted == rows@.len(),
            final(self).name_rows() == old(self).name_rows() + rows.deep_view(),
            final(self).note_rows() == old(self).note_rows(),
    {
        let inserted = rows.len();
        let mut rows = rows;
        self.names.append(&mut rows);
        inserted
    }

    /// The note rows of `chord`.
    pub fn notes_of(&self, chord: &str) -> (found: Vec<ChordNote>)
        ensures
            found.deep_view() == notes_on(self.note_rows(), chord@),
    {
        let wanted = chord.to_owned();
        let ghost rows = self.notes.deep_view();
        let ghost pred = |row: NoteRow| row.0 == chord@;
        let mut found: Vec<ChordNote> = Vec::new();
        let mut i: usize = 0;
        proof {
            reveal(Seq::filter);
        }
        while i < self.notes.len()
            invariant
                i <= self.notes@.len(),
                rows == self.notes.deep_view(),
                wanted@ == chord@,
                pred == (|row: NoteRow| row.0 == chord@),
                found.deep_view() == rows.take(i as int).filter(pred),
            decreases self.notes@.len() - i,
        {
            proof {
                reveal(Seq::filter);
                assert(rows.take(i + 1).drop_last() =~= rows.take(i as int));
            }
            if self.notes[i].chord == wanted {
                let row = ChordNote {
                    chord: self.notes[i].chord.clone(),
                    degree: self.notes[i].degree,
                    interval: self.notes[i].interval,
                };
                found.push(row);
            }
            i = i + 1;
        }
        assert(rows.take(i as int) =~= rows);
        found
    }

    /// The chord that goes by the name `alternative`: the first such row of
    /// the names table, and no more than that one.
    pub fn chords_called(&self, alternative: &str) -> (found: Vec<String>)
        ensures
            found.deep_view() == primary_names(self.name_rows(), alternative@),
    {
        let wanted = alternative.to_owned();
        let ghost rows = self.names.deep_view();
        let mut found: Vec<String> = Vec::new();
        let mut i: usize = 0;
        assert(rows.skip(0) =~= rows);
        while i < self.names.len()
            invariant
                i <= self.names@.len(),
                rows == self.names.deep_view(),
                wanted@ == alternative@,
                found@.len() == 0,
                primary_names(rows, alternative@) == primary_names(rows.skip(i as int), alternative@),
            decreases self.names@.len() - i,
        {
            proof {
                assert(rows.skip(i as int).drop_first() =~= rows.skip(i + 1));
            }
            if self.names[i].alternative_name == wanted {
                found.push(self.names[i].chord.clone());
                return found;
            }
            i = i + 1;
        }
        found
    }
}

/// The tables, empty.
pub fn initialise_database() -> (db: ChordDatabase)
    ensures
        db.note_rows() == Seq::<NoteRow>::empty(),
        db.name_rows() == Seq::<NameRow>::empty(),
{
    let db = ChordDatabase { notes: Vec::new(), names: Vec::new() };
    db
}

/// Search the chord database for a chord quality with exactly the given
/// name. If the chord quality is not found, returns `None`.
///
/// The name is first looked up among the alternative names; where it is one,
/// the chord it stands for is searched, otherwise the name itself.
pub fn quality_for(name: &str, db: &ChordDatabase) -> (quality: Option<Quality>)
    ensures
        quality.deep_view() == quality_named(db.name_rows(), db.note_rows(), name@),
{
    let primary = db.chords_called(name);
    match searched_name(name, &primary) {
        Some(chord) => quality_of(Some(db.notes_of(chord.as_str()))),
        None => None,
    }
}

/// Search the chord database for a chord quality with the given name,
/// whitespace around it not counting. If the chord quality is not found,
/// returns `None`.
pub fn get_quality(name: &str, db: &ChordDatabase) -> (quality: Option<Quality>)
    ensures
        quality.deep_view() == quality_named(db.name_rows(), db.note_rows(), trimmed(name@)),
{
    quality_for(trim(name), db)
}

} // verus!
