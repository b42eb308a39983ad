//! Each interval with the scale degree it stands on: what chords are built
//! from.
#![allow(non_upper_case_globals)]

use crate::music_theory::degrees;
use crate::music_theory::intervals;
use crate::music_theory::Degree;
use crate::music_theory::Interval;
use vstd::prelude::*;

verus! {

pub const Root: (Degree, Interval) = (degrees::I, intervals::Root);

pub const Min2nd: (Degree, Interval) = (degrees::II, intervals::Min2nd);

pub const Maj2nd: (Degree, Interval) = (degrees::II, intervals::Maj2nd);

pub const Min3rd: (Degree, Interval) = (degrees::III, intervals::Min3rd);

pub const Maj3rd: (Degree, Interval) = (degrees::III, intervals::Maj3rd);

pub const Per4th: (Degree, Interval) = (degrees::IV, intervals::Per4th);

pub const Dim5th: (Degree, Interval) = (degrees::V, intervals::Dim5th);

pub const Per5th: (Degree, Interval) = (degrees::V, intervals::Per5th);

pub const Aug5th: (Degree, Interval) = (degrees::V, intervals::Aug5th);

pub const Min6th: (Degree, Interval) = (degrees::VI, intervals::Min6th);

pub const Maj6th: (Degree, Interval) = (degrees::VI, intervals::Maj6th);

pub const Dim7th: (Degree, Interval) = (degrees::VII, intervals::Dim7th);

pub const Min7th: (Degree, Interval) = (degrees::VII, intervals::Min7th);

pub const Maj7th: (Degree, Interval) = (degrees::VII, intervals::Maj7th);

pub const Octave: (Degree, Interval) = (degrees::I, intervals::Octave);

} // verus!
