//! What the prompt does about a command.
//!
//! The prompt itself reads lines, looks chords up, makes sound and prints.
//! What it decides in between is here: which command a line stands for and
//! what is to be done about it ([`execute`]), what to remember
//! ([`remember`]), and which timed messages play a chord
//! ([`chord_events`]).

use crate::music_theory::letter_name;
use crate::music_theory::letter_to_string;
use crate::music_theory::Notation;
use crate::parser::grammar::CommandView;
use crate::parser::Command;
use crate::pitch::letter_above;
use crate::pitch::letter_plus;
use crate::sequencer::Event;
use crate::sequencer::Message;
use pitch_calc::Letter;
use pitch_calc::LetterOctave;
use vstd::prelude::*;

verus! {

/// What is to be done about a command.
#[derive(Debug, PartialEq, Eq)]
pub enum Action {
    /// Look up `quality` and play the chord of that quality on `root`,
    /// having printed `heading` if there is one.
    Play { root: Letter, quality: String, heading: Option<String> },
    /// Write accidentals as flats from now on, or as sharps.
    Notate { flats: bool },
    /// Nothing.
    Nothing,
}

/// An [`Action`] in plain values.
pub enum ActionView {
    Play { root: Letter, quality: Seq<char>, heading: Option<Seq<char>> },
    Notate { flats: bool },
    Nothing,
}

impl DeepView for Action {
    type V = ActionView;

    open spec fn deep_view(&self) -> ActionView {
        match self {
            Action::Play { root, quality, heading } => ActionView::Play {
                root: *root,
                quality: quality@,
                heading: match heading {
                    Some(text) => Some(text@),
                    None => None,
                },
            },
            Action::Notate { flats } => ActionView::Notate { flats: *flats },
            Action::Nothing => ActionView::Nothing,
        }
    }
}

/// What the command itself asks for. A chord is played. A transposition
/// plays the chord on the root moved up by the distance, under a heading
/// that names the new chord in the notation in use. The words for the
/// notation choose it.
pub open spec fn asked(command: CommandView, flats: bool) -> ActionView {
    match command {
        CommandView::EmptyString => ActionView::Nothing,
        CommandView::Chord(root, quality) => ActionView::Play { root, quality, heading: None },
        CommandView::Sharps => ActionView::Notate { flats: false },
        CommandView::Flats => ActionView::Notate { flats: true },
        CommandView::Transpose(distance, root, quality) => {
            let moved = letter_above(root, distance as int);
            ActionView::Play {
                root: moved,
                quality,
                heading: Some(letter_name(moved, flats) + quality),
            }
        },
    }
}

/// What is done about `command` when `last` was the last command that was
/// not empty: an empty command repeats it.
pub open spec fn executed(command: CommandView, last: Option<CommandView>, flats: bool) -> ActionView {
    match command {
        CommandView::EmptyString => match last {
            Some(again) => asked(again, flats),
            None => ActionView::Nothing,
        },
        _ => asked(command, flats),
    }
}

/// What the command itself asks for.
fn ask(command: &Command, notation: &Notation) -> (action: Action)
    ensures
        action.deep_view() == asked(command.deep_view(), notation.use_flats()),
{
    match command {
        Command::EmptyString => Action::Nothing,
        Command::Chord(root, quality) => Action::Play {
            root: *root,
            quality: quality.clone(),
            heading: None,
        },
        Command::Sharps => Action::Notate { flats: false },
        Command::Flats => Action::Notate { flats: true },
        Command::Transpose(distance, root, quality) => {
            let moved = letter_plus(*root, *distance);
            let heading = letter_to_string(moved, notation).concat(quality.as_str());
            Action::Play { root: moved, quality: quality.clone(), heading: Some(heading) }
        },
    }
}

/// Decides what is to be done about `command`. `last_command` is the last
/// command that was not empty, which an empty command repeats.
pub fn execute(command: &Command, last_command: &Option<Command>, notation: &Notation) -> (action:
    Action)
    ensures
        action.deep_view() == executed(
            command.deep_view(),
            last_command.deep_view(),
            notation.use_flats(),
        ),
{
    match command {
        Command::EmptyString => match last_command {
            Some(again) => ask(again, notation),
            None => Action::Nothing,
        },
        _ => ask(command, notation),
    }
}

/// Keeps `command` as the one to repeat, unless it is empty.
pub fn remember(last_command: Option<Command>, command: Command) -> (kept: Option<Command>)
    ensures
        kept == if command is EmptyString {
            last_command
        } else {
            Some(command)
        },
{
    match command {
        Command::EmptyString => last_command,
        _ => Some(command),
    }
}

/// The messages that play `notes` for `length` ticks: for each note, in
/// order, one that turns it on at once and one that turns it off after
/// `length`.
pub open spec fn events_of(notes: Seq<LetterOctave>, length: u64) -> Seq<Event> {
    Seq::new(
        2 * notes.len(),
        |i: int|
            if i % 2 == 0 {
                Event { msg: Message::NoteOn(notes[i / 2]), del: 0 }
            } else {
                Event { msg: Message::NoteOff(notes[i / 2]), del: length }
            },
    )
}

/// The submissions that play `notes` for `length` ticks.
pub fn chord_events(notes: &Vec<LetterOctave>, length: u64) -> (events: Vec<Event>)
    ensures
        events@ == events_of(notes@, length),
{
    let mut events: Vec<Event> = Vec::new();
    let mut i: usize = 0;
    while i < notes.len()
        invariant
            i <= notes@.len(),
            events@ == events_of(notes@, length).take(2 * i),
        decreases notes@.len() - i,
    {
        events.push(Event { msg: Message::NoteOn(notes[i]), del: 0 });
        events.push(Event { msg: Message::NoteOff(notes[i]), del: length });
        i = i + 1;
    }
    events
}

} // verus!
