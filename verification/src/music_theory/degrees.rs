//! Roman numerals for chord and scale degrees.

use crate::music_theory::Degree;
use vstd::prelude::*;

verus! {

pub const I: Degree = 1;

pub const II: Degree = 2;

pub const III: Degree = 3;

pub const IV: Degree = 4;

pub const V: Degree = 5;

pub const VI: Degree = 6;

pub const VII: Degree = 7;

} // verus!
