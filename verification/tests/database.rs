use harmony_explorer::chord_library::generate_chords;
use harmony_explorer::chord_library::generate_names;
use harmony_explorer::chord_library::populate_database;
use harmony_explorer::database::get_quality;
use harmony_explorer::database::initialise_database;
use harmony_explorer::database::quality_for;
use harmony_explorer::database::quality_of;
use harmony_explorer::database::searched_name;
use harmony_explorer::database::ChordDatabase;
use harmony_explorer::database::ChordName;
use harmony_explorer::database::ChordNote;
use harmony_explorer::music_theory::degrees::{III, V};
use harmony_explorer::music_theory::intervals::{Maj3rd, Per5th};

fn library() -> ChordDatabase {
    let mut db = initialise_database();
    populate_database(&mut db);
    db
}

#[test]
fn insert() {
    let mut conn = initialise_database();

    let inserted_notes = vec![
        ChordNote {
            chord: "maj".to_string(),
            degree: III,
            interval: Maj3rd,
        },
        ChordNote {
            chord: "maj".to_string(),
            degree: V,
            interval: Per5th,
        },
    ];

    // We are inserting two notes, make sure that is the case
    assert_eq!(2, conn.insert_notes(inserted_notes));

    let inserted_name = ChordName {
        chord: "maj".to_string(),
        alternative_name: "major".to_string(),
    };

    assert_eq!(1, conn.insert_names(vec![inserted_name]));
}

#[test]
fn retrieve() {
    let mut conn = initialise_database();

    let new_note = ChordNote {
        chord: "maj".to_string(),
        degree: III,
        interval: Maj3rd,
    };

    assert_eq!(
        1,
        conn.insert_notes(vec![ChordNote::note("maj", III, Maj3rd)])
    );

    let retrieved_notes = conn.notes_of("maj");

    assert_eq!(retrieved_notes.len(), 1);
    assert_eq!(retrieved_notes[0], new_note);
}

#[test]
fn rows_are_built_from_their_parts() {
    assert_eq!(
        ChordNote::note("minor", 3, 3),
        ChordNote { chord: "minor".to_string(), degree: 3, interval: 3 }
    );
    assert_eq!(
        ChordName::name("minor", "m"),
        ChordName { chord: "minor".to_string(), alternative_name: "m".to_string() }
    );
}

#[test]
fn empty_database_knows_no_chord() {
    let db = initialise_database();
    assert!(db.notes_of("major").is_empty());
    assert!(db.chords_called("maj").is_empty());
    assert_eq!(get_quality("major", &db), None);
    assert_eq!(get_quality("", &db), None);
}

#[test]
fn notes_of_keeps_table_order_and_only_that_chord() {
    let db = library();
    assert_eq!(
        db.notes_of("major seventh"),
        vec![
            ChordNote::note("major seventh", 3, 4),
            ChordNote::note("major seventh", 5, 7),
            ChordNote::note("major seventh", 7, 11),
        ]
    );
    assert!(db.notes_of("major ").is_empty());
    assert!(db.notes_of("Major").is_empty());
    assert!(db.notes_of("maj").is_empty());
}

#[test]
fn chords_called_gives_the_first_match_only() {
    let mut db = library();
    assert_eq!(db.chords_called("maj7"), vec!["major seventh".to_string()]);
    assert_eq!(db.chords_called(""), vec!["major".to_string()]);
    assert_eq!(db.chords_called("-"), vec!["minor".to_string()]);
    assert!(db.chords_called("major").is_empty());
    db.insert_names(vec![ChordName::name("augmented", "-")]);
    assert_eq!(db.chords_called("-"), vec!["minor".to_string()]);
}

#[test]
fn get_quality_by_alternative_name() {
    let db = library();
    assert_eq!(get_quality("maj", &db), Some(vec![(3, 4), (5, 7)]));
    assert_eq!(get_quality("", &db), Some(vec![(3, 4), (5, 7)]));
    assert_eq!(get_quality("m", &db), Some(vec![(3, 3), (5, 7)]));
    assert_eq!(get_quality("-", &db), Some(vec![(3, 3), (5, 7)]));
    assert_eq!(get_quality("dim", &db), Some(vec![(3, 3), (5, 6)]));
    assert_eq!(get_quality("o", &db), Some(vec![(3, 3), (5, 6)]));
    assert_eq!(get_quality("*", &db), Some(vec![(3, 3), (5, 6)]));
    assert_eq!(get_quality("+", &db), Some(vec![(3, 4), (5, 8)]));
    assert_eq!(get_quality("aug", &db), Some(vec![(3, 4), (5, 8)]));
    assert_eq!(get_quality("M7", &db), Some(vec![(3, 4), (5, 7), (7, 11)]));
    assert_eq!(get_quality("maj7", &db), Some(vec![(3, 4), (5, 7), (7, 11)]));
    assert_eq!(get_quality("7", &db), Some(vec![(3, 4), (5, 7), (7, 10)]));
    assert_eq!(get_quality("m7", &db), Some(vec![(3, 3), (5, 7), (7, 10)]));
    assert_eq!(get_quality("-7", &db), Some(vec![(3, 3), (5, 7), (7, 10)]));
    assert_eq!(get_quality("6", &db), Some(vec![(3, 4), (5, 7), (6, 9)]));
    assert_eq!(get_quality("maj6", &db), Some(vec![(3, 4), (5, 7), (6, 9)]));
    assert_eq!(get_quality("dim7", &db), Some(vec![(3, 3), (5, 6), (7, 9)]));
    assert_eq!(get_quality("o7", &db), Some(vec![(3, 3), (5, 6), (7, 9)]));
}

#[test]
fn get_quality_by_full_name() {
    let db = library();
    assert_eq!(get_quality("major", &db), Some(vec![(3, 4), (5, 7)]));
    assert_eq!(get_quality("diminished seventh", &db), Some(vec![(3, 3), (5, 6), (7, 9)]));
    assert_eq!(get_quality("dominant seventh", &db), Some(vec![(3, 4), (5, 7), (7, 10)]));
}

#[test]
fn get_quality_trims_the_name() {
    let db = library();
    assert_eq!(get_quality("  maj7 ", &db), Some(vec![(3, 4), (5, 7), (7, 11)]));
    assert_eq!(get_quality("\tminor\n", &db), Some(vec![(3, 3), (5, 7)]));
    assert_eq!(get_quality("   ", &db), Some(vec![(3, 4), (5, 7)]));
}

#[test]
fn get_quality_of_unknown_chord() {
    let db = library();
    assert_eq!(get_quality("sus4", &db), None);
    assert_eq!(get_quality("Maj7", &db), None);
    assert_eq!(get_quality("maj 7", &db), None);
}

#[test]
fn a_name_without_notes_is_no_chord() {
    let mut db = initialise_database();
    db.insert_names(vec![ChordName::name("quartal", "q")]);
    assert_eq!(get_quality("q", &db), None);
    db.insert_notes(vec![ChordNote::note("quartal", 4, 5)]);
    assert_eq!(get_quality("q", &db), Some(vec![(4, 5)]));
    assert_eq!(get_quality("quartal", &db), Some(vec![(4, 5)]));
}

#[test]
fn searched_name_decides_what_to_look_up() {
    assert_eq!(
        searched_name("maj", &vec!["major".to_string()]),
        Some("major".to_string())
    );
    assert_eq!(searched_name("maj", &vec![]), Some("maj".to_string()));
    assert_eq!(searched_name(" maj ", &vec![]), Some(" maj ".to_string()));
    assert_eq!(searched_name("", &vec![]), Some("".to_string()));
    assert_eq!(
        searched_name("maj", &vec!["major".to_string(), "major".to_string()]),
        None
    );
}

#[test]
fn quality_for_takes_the_name_as_it_is() {
    let db = library();
    assert_eq!(quality_for("maj7", &db), Some(vec![(3, 4), (5, 7), (7, 11)]));
    assert_eq!(quality_for("minor", &db), Some(vec![(3, 3), (5, 7)]));
    assert_eq!(quality_for(" maj7", &db), None);
    assert_eq!(quality_for("minor ", &db), None);
    assert_eq!(quality_for("", &db), Some(vec![(3, 4), (5, 7)]));
}

#[test]
fn quality_of_rows() {
    assert_eq!(quality_of(None), None);
    assert_eq!(quality_of(Some(vec![])), None);
    assert_eq!(
        quality_of(Some(vec![
            ChordNote::note("x", 5, 7),
            ChordNote::note("y", 3, 4),
            ChordNote::note("x", 5, 7),
        ])),
        Some(vec![(5, 7), (3, 4), (5, 7)])
    );
}

#[test]
fn library_tables() {
    let chords = generate_chords();
    assert_eq!(chords.len(), 23);
    assert_eq!(chords[0], ChordNote::note("major", 3, 4));
    assert_eq!(chords[7], ChordNote::note("augmented", 5, 8));
    assert_eq!(chords[8], ChordNote::note("major seventh", 3, 4));
    assert_eq!(chords[19], ChordNote::note("major sixth", 6, 9));
    assert_eq!(chords[22], ChordNote::note("diminished seventh", 7, 9));
    let names = generate_names();
    assert_eq!(names.len(), 18);
    assert_eq!(names[0], ChordName::name("major", ""));
    assert_eq!(names[6], ChordName::name("diminished", "*"));
    assert_eq!(names[17], ChordName::name("diminished seventh", "o7"));
}

#[test]
fn every_name_leads_to_a_chord_with_notes() {
    let db = library();
    for name in generate_names() {
        assert!(!db.notes_of(&name.chord).is_empty());
        assert_eq!(
            get_quality(&name.alternative_name, &db),
            get_quality(&name.chord, &db)
        );
    }
}

#[test]
fn populate_adds_to_what_is_there() {
    let mut db = initialise_database();
    assert_eq!(db.insert_notes(vec![ChordNote::note("major", 1, 12)]), 1);
    populate_database(&mut db);
    assert_eq!(get_quality("maj", &db), Some(vec![(1, 12), (3, 4), (5, 7)]));
}
