//! The decisions of the dispatch loop.
//!
//! The loop itself waits on a channel and reads a clock, so it lives with
//! the caller. Every turn of it asks the [`Dispatcher`] three things: how to
//! wait ([`Dispatcher::plan`]), what to do with what the wait brought
//! ([`Dispatcher::absorb`], [`Dispatcher::observe`]), and what to deliver
//! now ([`Dispatcher::drain_due`]).

use crate::sequencer::rel_to_abs;
use crate::sequencer::store::is_soonest;
use crate::sequencer::store::DeadlineStore;
use crate::sequencer::Event;
use crate::sequencer::EventAbs;
use vstd::multiset::Multiset;
use vstd::prelude::*;

verus! {

/// How the loop waits on the submission interface.
#[derive(PartialEq, Eq, Copy, Clone, Debug)]
pub enum Wait {
    /// Nothing is pending: block until a submission arrives.
    Idle,
    /// Deliveries are pending and none is due: block for at most this many
    /// ticks, the time until the soonest deadline.
    Armed(u128),
    /// A delivery is due: do not block.
    Draining,
}

/// What a wait on the submission interface ended with.
#[derive(PartialEq, Eq, Copy, Clone, Debug)]
pub enum Received {
    /// A producer submitted this.
    Submission(Event),
    /// The timeout passed with no submission.
    TimedOut,
    /// Every producer handle is gone.
    Disconnected,
}

/// The pending delivery that a submission becomes when observed at `now`.
pub open spec fn observed(rel: Event, now: u64) -> EventAbs {
    EventAbs { msg: rel.msg, ins: crate::sequencer::deadline(rel.del, now) }
}

/// The soonest deadline among `pending`, where it is not empty.
pub open spec fn soonest_deadline(pending: Multiset<EventAbs>) -> u128 {
    (choose|e: EventAbs| is_soonest(pending, e)).ins
}

/// The wait that `pending` calls for at tick `now`.
pub open spec fn planned(pending: Multiset<EventAbs>, now: u64) -> Wait {
    if pending.len() == 0 {
        Wait::Idle
    } else if soonest_deadline(pending) <= now {
        Wait::Draining
    } else {
        Wait::Armed((soonest_deadline(pending) - now) as u128)
    }
}

/// Every entry of `fired` is due at `now`.
pub open spec fn all_due(fired: Seq<EventAbs>, now: u64) -> bool {
    forall|i: int| 0 <= i < fired.len() ==> (#[trigger] fired[i]).ins <= now
}

/// No entry of `pending` is due at `now`.
pub open spec fn none_due(pending: Multiset<EventAbs>, now: u64) -> bool {
    forall|e: EventAbs| pending.contains(e) ==> e.ins > now
}

/// The deadlines of `fired` never decrease.
pub open spec fn in_deadline_order(fired: Seq<EventAbs>) -> bool {
    forall|i: int, j: int| 0 <= i <= j < fired.len() ==> fired[i].ins <= fired[j].ins
}

/// Draining `before` at `now` may deliver `fired` and leave `after`: each
/// entry went one way or the other, the due ones were delivered, soonest
/// first, and the others stay.
pub open spec fn drained(
    before: Multiset<EventAbs>,
    now: u64,
    fired: Seq<EventAbs>,
    after: Multiset<EventAbs>,
) -> bool {
    &&& before == fired.to_multiset().add(after)
    &&& all_due(fired, now)
    &&& none_due(after, now)
    &&& in_deadline_order(fired)
}

/// Any two soonest entries share their deadline.
pub proof fn lemma_soonest_deadline(pending: Multiset<EventAbs>, e: EventAbs)
    requires
        is_soonest(pending, e),
    ensures
        soonest_deadline(pending) == e.ins,
{
}

/// Among pending deliveries, if there are any, one is the soonest.
pub proof fn lemma_soonest_exists(pending: Multiset<EventAbs>)
    requires
        pending.len() > 0,
    ensures
        exists|e: EventAbs| is_soonest(pending, e),
    decreases pending.len(),
{
    broadcast use vstd::multiset::group_multiset_axioms;

    let v = pending.choose();
    let rest = pending.remove(v);
    if rest.len() == 0 {
        vstd::multiset::lemma_multiset_empty_len(rest);
        assert forall|x: EventAbs| pending.contains(x) implies v.ins <= x.ins by {
            if x != v {
                assert(rest.contains(x));
            }
        }
        assert(is_soonest(pending, v));
    } else {
        lemma_soonest_exists(rest);
        let r = choose|r: EventAbs| is_soonest(rest, r);
        let m = if v.ins <= r.ins {
            v
        } else {
            r
        };
        assert forall|x: EventAbs| pending.contains(x) implies m.ins <= x.ins by {
            if x != v {
                assert(rest.contains(x));
            }
        }
        assert(is_soonest(pending, m));
    }
}

/// The state of the dispatch loop: the deliveries that are pending.
pub struct Dispatcher {
    store: DeadlineStore,
}

impl View for Dispatcher {
    type V = Multiset<EventAbs>;

    closed spec fn view(&self) -> Multiset<EventAbs> {
        self.store@
    }
}

impl Dispatcher {
    /// A dispatcher with nothing pending.
    pub fn new() -> (dispatcher: Dispatcher)
        ensures
            dispatcher@ == Multiset::<EventAbs>::empty(),
    {
        Dispatcher { store: DeadlineStore::new() }
    }

    /// How many deliveries are pending.
    pub fn pending(&self) -> (n: usize)
        ensures
            n == self@.len(),
    {
        self.store.len()
    }

    /// Decides how to wait at tick `now`.
    pub fn plan(&self, now: u64) -> (wait: Wait)
        ensures
            wait == planned(self@, now),
    {
        match self.store.peek() {
            None => Wait::Idle,
            Some(e) => {
                proof {
                    lemma_soonest_deadline(self@, e);
                    assert(self@.len() > 0) by {
                        broadcast use vstd::multiset::group_multiset_axioms;

                    }
                }
                if e.ins <= now as u128 {
                    Wait::Draining
                } else {
                    Wait::Armed(e.ins - now as u128)
                }
            },
        }
    }

    /// Takes in a submission observed at tick `now`.
    pub fn observe(&mut self, rel: Event, now: u64)
        ensures
            final(self)@ == old(self)@.insert(observed(rel, now)),
    {
        self.store.push(rel_to_abs(rel, now));
    }

    /// Takes in what a wait ended with at tick `now`, and says whether the
    /// loop goes on. A submission becomes pending; a timeout changes nothing;
    /// a disconnection ends the loop, and what was still pending is dropped.
    pub fn absorb(&mut self, received: Received, now: u64) -> (running: bool)
        ensures
            running == !(received is Disconnected),
            final(self)@ == match received {
                Received::Submission(rel) => old(self)@.insert(observed(rel, now)),
                Received::TimedOut => old(self)@,
                Received::Disconnected => Multiset::<EventAbs>::empty(),
            },
    {
        match received {
            Received::Submission(rel) => {
                self.observe(rel, now);
                true
            },
            Received::TimedOut => true,
            Received::Disconnected => {
                self.store = DeadlineStore::new();
                false
            },
        }
    }

    /// Takes out the soonest pending delivery if it is due at tick `now`.
    pub fn pop_due(&mut self, now: u64) -> (due: Option<EventAbs>)
        ensures
            due is None <==> none_due(old(self)@, now),
            due is None ==> final(self)@ == old(self)@,
            due matches Some(e) ==> is_soonest(old(self)@, e) && e.ins <= now && final(self)@
                == old(self)@.remove(e),
    {
        match self.store.peek() {
            None => {
                proof {
                    assert forall|e: EventAbs| self@.contains(e) implies e.ins > now by {
                        broadcast use vstd::multiset::group_multiset_axioms;

                        vstd::multiset::lemma_multiset_empty_len(self@);
                    }
                }
                None
            },
            Some(e) => {
                if e.ins <= now as u128 {
                    self.store.pop()
                } else {
                    None
                }
            },
        }
    }

    /// Takes out every delivery that is due at tick `now`, soonest first.
    pub fn drain_due(&mut self, now: u64) -> (fired: Vec<EventAbs>)
        ensures
            drained(old(self)@, now, fired@, final(self)@),
    {
        let ghost before = self@;
        let mut fired: Vec<EventAbs> = Vec::new();
        proof {
            broadcast use vstd::multiset::group_multiset_axioms;

            fired@.to_multiset_ensures();
            vstd::multiset::lemma_multiset_empty_len(fired@.to_multiset());
        }
        loop
            invariant
                before == fired@.to_multiset().add(self@),
                all_due(fired@, now),
                in_deadline_order(fired@),
                forall|i: int, x: EventAbs|
                    #![trigger fired@[i], self@.contains(x)]
                    0 <= i < fired@.len() && self@.contains(x) ==> fired@[i].ins <= x.ins,
            ensures
                drained(before, now, fired@, self@),
            decreases self@.len(),
        {
            let ghost pending = self@;
            let ghost sent = fired@;
            match self.pop_due(now) {
                None => {
                    break ;
                },
                Some(e) => {
                    fired.push(e);
                    proof {
                        broadcast use vstd::multiset::group_multiset_axioms;

                        vstd::seq_lib::to_multiset_build(sent, e);
                        assert forall|i: int, x: EventAbs|
                            #![trigger fired@[i], self@.contains(x)]
                            0 <= i < fired@.len() && self@.contains(x) implies fired@[i].ins
                            <= x.ins by {
                            assert(pending.contains(x));
                        }
                    }
                },
            }
        }
        fired
    }
}

} // verus!
