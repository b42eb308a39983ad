//! How pending deliveries compare: the one that is due sooner is the greater,
//! so that a structure which yields its greatest entry yields the soonest.

use crate::sequencer::EventAbs;
use std::cmp::Ordering;
use vstd::prelude::*;
use vstd::std_specs::cmp::PartialOrdSpec;

verus! {

impl EventAbs {
    /// Compares by deadline alone, the sooner one being the greater.
    pub fn cmp(&self, other: &EventAbs) -> (r: Ordering)
        ensures
            r == sooner_first(*self, *other),
    {
        if self.ins < other.ins {
            Ordering::Greater
        } else if self.ins == other.ins {
            Ordering::Equal
        } else {
            Ordering::Less
        }
    }
}

/// The order of two pending deliveries: `Greater` where `a` is due sooner
/// than `b`, `Less` where it is due later, `Equal` where both are due at the
/// same tick.
pub open spec fn sooner_first(a: EventAbs, b: EventAbs) -> Ordering {
    if a.ins < b.ins {
        Ordering::Greater
    } else if a.ins == b.ins {
        Ordering::Equal
    } else {
        Ordering::Less
    }
}

impl PartialOrd for EventAbs {
    fn partial_cmp(&self, other: &EventAbs) -> (r: Option<Ordering>) {
        Some(self.cmp(other))
    }
}

impl vstd::std_specs::cmp::PartialOrdSpecImpl for EventAbs {
    open spec fn obeys_partial_cmp_spec() -> bool {
        true
    }

    open spec fn partial_cmp_spec(&self, other: &EventAbs) -> Option<Ordering> {
        Some(sooner_first(*self, *other))
    }
}

/// An earlier deadline compares as due sooner, whatever the messages are and
/// whichever of the two was submitted first.
pub proof fn law_earlier_deadline_is_sooner(a: EventAbs, b: EventAbs)
    requires
        a.ins < b.ins,
    ensures
        a.partial_cmp_spec(&b) == Some(Ordering::Greater),
        b.partial_cmp_spec(&a) == Some(Ordering::Less),
{
}

/// Whether `a` is due sooner than `b`.
pub fn due_sooner(a: &EventAbs, b: &EventAbs) -> (sooner: bool)
    ensures
        sooner == (a.ins < b.ins),
        sooner == (a.partial_cmp_spec(b) == Some(Ordering::Greater)),
{
    a > b
}

} // verus!
