//! The timed event dispatcher.
//!
//! Producers submit [`Event`]s: a message and a delay. The dispatcher turns
//! each into an [`EventAbs`] with an absolute deadline on its own monotonic
//! clock, keeps the pending ones in a [`store::DeadlineStore`], and hands
//! them out in deadline order once they are due.
//!
//! Time is counted in ticks of that clock. The dispatcher only adds and
//! compares ticks, so the caller chooses what a tick is.

pub mod dispatch;
pub mod laws;
pub mod order;
pub mod store;

use pitch_calc::LetterOctave;
use vstd::prelude::*;

verus! {

/// What the consumer is told. The dispatcher never looks inside.
#[derive(PartialEq, Eq, Copy, Clone, Debug)]
#[allow(dead_code)]
pub enum Message {
    NoteOn(LetterOctave),
    NoteOff(LetterOctave),
    Stop,
}

/// A submission: deliver `msg` once `del` ticks have passed since the
/// dispatcher observed it.
#[derive(PartialEq, Eq, Copy, Clone, Debug)]
pub struct Event {
    pub msg: Message,
    pub del: u64,
}

/// A pending delivery: `msg` becomes due at tick `ins`.
///
/// Deadlines are wider than clock readings, so that a reading plus a delay
/// always has a deadline.
#[derive(PartialEq, Eq, Copy, Clone, Debug)]
pub struct EventAbs {
    pub msg: Message,
    pub ins: u128,
}

/// The deadline of a submission with delay `del` observed at tick `now`.
pub open spec fn deadline(del: u64, now: u64) -> u128 {
    (now + del) as u128
}

/// Converts a submission observed at tick `now` into a pending delivery.
pub fn rel_to_abs(rel: Event, now: u64) -> (abs: EventAbs)
    ensures
        abs.msg == rel.msg,
        abs.ins == deadline(rel.del, now),
{
    EventAbs { msg: rel.msg, ins: now as u128 + rel.del as u128 }
}

} // verus!
