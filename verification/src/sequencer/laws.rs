//! What holds of every run of the dispatcher.
//!
//! A run is what the dispatch loop does to a dispatcher that starts with
//! nothing pending: it observes submissions and drains what is due, each at
//! a reading of the clock. The laws below speak of all such runs.

use crate::sequencer::dispatch::all_due;
use crate::sequencer::dispatch::drained;
use crate::sequencer::dispatch::in_deadline_order;
use crate::sequencer::dispatch::lemma_soonest_deadline;
use crate::sequencer::dispatch::lemma_soonest_exists;
use crate::sequencer::dispatch::none_due;
use crate::sequencer::dispatch::observed;
use crate::sequencer::dispatch::planned;
use crate::sequencer::dispatch::soonest_deadline;
use crate::sequencer::dispatch::Wait;
use crate::sequencer::store::is_soonest;
use crate::sequencer::Event;
use crate::sequencer::EventAbs;
use vstd::multiset::Multiset;
use vstd::prelude::*;

verus! {

/// One step of a run.
pub enum Step {
    /// The submission `rel` was observed at tick `now`.
    Observe { rel: Event, now: u64 },
    /// A drain at tick `now` delivered `fired`, in this order.
    Drain { now: u64, fired: Seq<EventAbs> },
}

impl Step {
    /// The clock reading of the step.
    pub open spec fn tick(self) -> u64 {
        match self {
            Step::Observe { now, .. } => now,
            Step::Drain { now, .. } => now,
        }
    }
}

/// The step leads from the pending deliveries `before` to `after`.
pub open spec fn step_taken(
    before: Multiset<EventAbs>,
    step: Step,
    after: Multiset<EventAbs>,
) -> bool {
    match step {
        Step::Observe { rel, now } => after == before.insert(observed(rel, now)),
        Step::Drain { now, fired } => drained(before, now, fired, after),
    }
}

/// `states` is what was pending before the first step of `steps` and after
/// each of them, starting from nothing.
pub open spec fn run_of(steps: Seq<Step>, states: Seq<Multiset<EventAbs>>) -> bool {
    &&& states.len() == steps.len() + 1
    &&& states[0] == Multiset::<EventAbs>::empty()
    &&& forall|k: int|
        0 <= k < steps.len() ==> step_taken(states[k], #[trigger] steps[k], states[k + 1])
}

/// The clock never ran backwards between two steps.
pub open spec fn clock_monotonic(steps: Seq<Step>) -> bool {
    forall|i: int, j: int| 0 <= i <= j < steps.len() ==> steps[i].tick() <= steps[j].tick()
}

/// Everything the run delivered, in the order of delivery.
pub open spec fn delivered(steps: Seq<Step>) -> Seq<EventAbs>
    decreases steps.len(),
{
    if steps.len() == 0 {
        Seq::<EventAbs>::empty()
    } else {
        match steps.last() {
            Step::Observe { .. } => delivered(steps.drop_last()),
            Step::Drain { fired, .. } => delivered(steps.drop_last()) + fired,
        }
    }
}

/// Everything the run observed, each submission with its deadline.
pub open spec fn submitted(steps: Seq<Step>) -> Multiset<EventAbs>
    decreases steps.len(),
{
    if steps.len() == 0 {
        Multiset::<EventAbs>::empty()
    } else {
        match steps.last() {
            Step::Observe { rel, now } => submitted(steps.drop_last()).insert(observed(rel, now)),
            Step::Drain { .. } => submitted(steps.drop_last()),
        }
    }
}

/// A run without its last step is a run.
proof fn lemma_run_prefix(steps: Seq<Step>, states: Seq<Multiset<EventAbs>>)
    requires
        run_of(steps, states),
        steps.len() > 0,
    ensures
        run_of(steps.drop_last(), states.drop_last()),
        clock_monotonic(steps) ==> clock_monotonic(steps.drop_last()),
        step_taken(states.drop_last().last(), steps.last(), states.last()),
{
    let shorter = steps.drop_last();
    let earlier = states.drop_last();
    assert forall|k: int| 0 <= k < shorter.len() implies step_taken(
        earlier[k],
        #[trigger] shorter[k],
        earlier[k + 1],
    ) by {}
    if clock_monotonic(steps) {
        assert forall|i: int, j: int| 0 <= i <= j < shorter.len() implies shorter[i].tick()
            <= shorter[j].tick() by {}
    }
}

/// What a monotonic run has delivered is in deadline order, is due no later
/// than anything still pending, and was due by the last clock reading.
proof fn lemma_run_order(steps: Seq<Step>, states: Seq<Multiset<EventAbs>>)
    requires
        run_of(steps, states),
        clock_monotonic(steps),
    ensures
        in_deadline_order(delivered(steps)),
        forall|i: int, x: EventAbs|
            #![trigger delivered(steps)[i], states.last().contains(x)]
            0 <= i < delivered(steps).len() && states.last().contains(x) ==> delivered(
                steps,
            )[i].ins <= x.ins,
        forall|i: int|
            0 <= i < delivered(steps).len() ==> steps.len() > 0 && (#[trigger] delivered(
                steps,
            )[i]).ins <= steps.last().tick(),
    decreases steps.len(),
{
    if steps.len() > 0 {
        let shorter = steps.drop_last();
        let earlier = states.drop_last();
        lemma_run_prefix(steps, states);
        lemma_run_order(shorter, earlier);
        let sent = delivered(shorter);
        let was_pending = earlier.last();
        let pending = states.last();
        assert forall|i: int| 0 <= i < sent.len() implies (#[trigger] sent[i]).ins
            <= steps.last().tick() by {}
        match steps.last() {
            Step::Observe { rel, now } => {
                assert forall|i: int, x: EventAbs|
                    #![trigger delivered(steps)[i], pending.contains(x)]
                    0 <= i < delivered(steps).len() && pending.contains(x) implies delivered(
                    steps,
                )[i].ins <= x.ins by {
                    broadcast use vstd::multiset::group_multiset_axioms;

                    if x != observed(rel, now) {
                        assert(was_pending.contains(x));
                    }
                }
            },
            Step::Drain { now, fired } => {
                let all = delivered(steps);
                fired.to_multiset_ensures();
                assert forall|k: int| 0 <= k < fired.len() implies was_pending.contains(
                    #[trigger] fired[k],
                ) by {
                    broadcast use vstd::multiset::group_multiset_axioms;

                }
                assert forall|i: int, j: int| 0 <= i <= j < all.len() implies all[i].ins
                    <= all[j].ins by {}
                assert forall|i: int, x: EventAbs|
                    #![trigger delivered(steps)[i], pending.contains(x)]
                    0 <= i < all.len() && pending.contains(x) implies all[i].ins <= x.ins by {
                    broadcast use vstd::multiset::group_multiset_axioms;

                }
            },
        }
    }
}

/// Whatever was submitted and whenever it was observed, as long as the
/// clock never runs backwards, the deliveries of a run come in
/// non-decreasing order of deadline.
pub proof fn law_delivery_in_deadline_order(steps: Seq<Step>, states: Seq<Multiset<EventAbs>>)
    requires
        run_of(steps, states),
        clock_monotonic(steps),
    ensures
        in_deadline_order(delivered(steps)),
{
    lemma_run_order(steps, states);
}

/// At every point of a run, what was observed is what has been delivered
/// together with what is still pending, each submission counted once:
/// nothing is lost and nothing is delivered twice.
pub proof fn law_nothing_lost_nothing_twice(steps: Seq<Step>, states: Seq<Multiset<EventAbs>>)
    requires
        run_of(steps, states),
    ensures
        submitted(steps) == delivered(steps).to_multiset().add(states.last()),
    decreases steps.len(),
{
    broadcast use vstd::multiset::group_multiset_axioms;

    if steps.len() == 0 {
        delivered(steps).to_multiset_ensures();
        vstd::multiset::lemma_multiset_empty_len(delivered(steps).to_multiset());
    } else {
        let shorter = steps.drop_last();
        let earlier = states.drop_last();
        lemma_run_prefix(steps, states);
        law_nothing_lost_nothing_twice(shorter, earlier);
        if let Step::Drain { fired, .. } = steps.last() {
            vstd::seq_lib::lemma_multiset_commutative(delivered(shorter), fired);
        }
    }
}

/// Once a run has drained at tick `now`, every submission whose deadline is
/// `now` or sooner has been delivered, as often as it was submitted.
pub proof fn law_due_is_delivered(
    steps: Seq<Step>,
    states: Seq<Multiset<EventAbs>>,
    e: EventAbs,
)
    requires
        run_of(steps, states),
        steps.len() > 0,
        steps.last() is Drain,
        e.ins <= steps.last().tick(),
    ensures
        delivered(steps).to_multiset().count(e) == submitted(steps).count(e),
{
    broadcast use vstd::multiset::group_multiset_axioms;

    law_nothing_lost_nothing_twice(steps, states);
    lemma_run_prefix(steps, states);
    assert(!states.last().contains(e));
}

/// The loop blocks without a timeout exactly when nothing is pending; with
/// something pending it waits no longer than until the soonest deadline,
/// and not at all once that has passed.
pub proof fn law_wait_follows_soonest(pending: Multiset<EventAbs>, now: u64)
    ensures
        planned(pending, now) is Idle <==> pending.len() == 0,
        planned(pending, now) is Draining <==> !none_due(pending, now),
        planned(pending, now) matches Wait::Armed(t) ==> t > 0 && exists|e: EventAbs|
            is_soonest(pending, e) && e.ins == now + t,
{
    broadcast use vstd::multiset::group_multiset_axioms;

    if pending.len() == 0 {
        vstd::multiset::lemma_multiset_empty_len(pending);
    } else {
        lemma_soonest_exists(pending);
    }
}

/// A submission that arrives while others are pending becomes the soonest
/// if its deadline is sooner than theirs, and otherwise leaves the soonest
/// deadline as it was; one that arrives while nothing is pending sets it.
pub proof fn law_soonest_after_observing(pending: Multiset<EventAbs>, e: EventAbs)
    ensures
        soonest_deadline(pending.insert(e)) == if pending.len() == 0 || e.ins < soonest_deadline(
            pending,
        ) {
            e.ins
        } else {
            soonest_deadline(pending)
        },
{
    broadcast use vstd::multiset::group_multiset_axioms;

    let held = pending.insert(e);
    if pending.len() == 0 {
        vstd::multiset::lemma_multiset_empty_len(pending);
        assert forall|x: EventAbs| held.contains(x) implies e.ins <= x.ins by {}
        lemma_soonest_deadline(held, e);
    } else {
        lemma_soonest_exists(pending);
        let m = choose|m: EventAbs| is_soonest(pending, m);
        lemma_soonest_deadline(pending, m);
        let first = if e.ins < m.ins {
            e
        } else {
            m
        };
        assert forall|x: EventAbs| held.contains(x) implies first.ins <= x.ins by {
            if x != e {
                assert(pending.contains(x));
            }
        }
        lemma_soonest_deadline(held, first);
    }
}

/// The first submission to arrive arms the loop for its delay, or has it
/// drain at once if it has none.
pub proof fn law_first_submission_arms(rel: Event, now: u64)
    ensures
        planned(Multiset::<EventAbs>::empty().insert(observed(rel, now)), now) == if rel.del == 0 {
            Wait::Draining
        } else {
            Wait::Armed(rel.del as u128)
        },
{
    broadcast use vstd::multiset::group_multiset_axioms;

    let nothing = Multiset::<EventAbs>::empty();
    law_soonest_after_observing(nothing, observed(rel, now));
}

/// A submission with no delay is due as soon as it is observed: from that
/// tick on the loop does not block, and the next drain delivers it.
pub proof fn law_zero_delay_is_due_at_once(
    pending: Multiset<EventAbs>,
    rel: Event,
    now: u64,
    later: u64,
    fired: Seq<EventAbs>,
    after: Multiset<EventAbs>,
)
    requires
        rel.del == 0,
        now <= later,
        drained(pending.insert(observed(rel, now)), later, fired, after),
    ensures
        observed(rel, now).ins == now,
        planned(pending.insert(observed(rel, now)), later) == Wait::Draining,
        fired.contains(observed(rel, now)),
{
    broadcast use vstd::multiset::group_multiset_axioms;

    let o = observed(rel, now);
    let held = pending.insert(o);
    assert(held.contains(o));
    law_wait_follows_soonest(held, later);
    fired.to_multiset_ensures();
    assert(!after.contains(o));
}

/// At the tick of a drain nothing is left that is due: the loop is idle if
/// nothing stays pending, and armed otherwise.
pub proof fn law_drain_leaves_nothing_due(
    before: Multiset<EventAbs>,
    now: u64,
    fired: Seq<EventAbs>,
    after: Multiset<EventAbs>,
)
    requires
        drained(before, now, fired, after),
    ensures
        !(planned(after, now) is Draining),
        all_due(fired, now),
{
    law_wait_follows_soonest(after, now);
}

} // verus!
