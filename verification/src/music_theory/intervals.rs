//! Intervals, by their size in semitones.
#![allow(non_upper_case_globals)]

use crate::music_theory::Interval;
use vstd::prelude::*;

verus! {

pub const Root: Interval = 0;

pub const Min2nd: Interval = 1;

pub const Maj2nd: Interval = 2;

pub const Min3rd: Interval = 3;

pub const Maj3rd: Interval = 4;

pub const Per4th: Interval = 5;

pub const Dim5th: Interval = 6;

pub const Per5th: Interval = 7;

pub const Aug5th: Interval = 8;

pub const Min6th: Interval = 8;

pub const Maj6th: Interval = 9;

pub const Dim7th: Interval = 9;

pub const Min7th: Interval = 10;

pub const Maj7th: Interval = 11;

pub const Octave: Interval = 12;

} // verus!
