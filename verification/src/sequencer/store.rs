//! The deadline store: a binary min-heap of pending deliveries, keyed by
//! deadline.

use crate::sequencer::EventAbs;
use vstd::multiset::Multiset;
use vstd::prelude::*;

verus! {

/// The heap position above position `i`.
spec fn parent(i: int) -> int {
    (i - 1) / 2
}

/// Position `i` is due no sooner than the position above it.
spec fn ordered_at(s: Seq<EventAbs>, i: int) -> bool {
    s[parent(i)].ins <= s[i].ins
}

/// The heap property: no entry is due sooner than the one above it.
spec fn heap_ordered(s: Seq<EventAbs>) -> bool {
    forall|i: int| 0 < i < s.len() ==> #[trigger] ordered_at(s, i)
}

/// `e` is an entry of `pending`, and none of them is due sooner.
pub open spec fn is_soonest(pending: Multiset<EventAbs>, e: EventAbs) -> bool {
    &&& pending.contains(e)
    &&& forall|x: EventAbs| pending.contains(x) ==> e.ins <= x.ins
}

/// In a heap the root is due no later than any other position.
proof fn lemma_root_is_soonest(s: Seq<EventAbs>, i: int)
    requires
        heap_ordered(s),
        0 <= i < s.len(),
    ensures
        s[0].ins <= s[i].ins,
    decreases i,
{
    if i > 0 {
        assert(ordered_at(s, i));
        lemma_root_is_soonest(s, parent(i));
    }
}

/// Exchanging two positions keeps the entries.
proof fn lemma_swap_keeps_entries(s: Seq<EventAbs>, i: int, j: int)
    requires
        0 <= i < s.len(),
        0 <= j < s.len(),
    ensures
        s.update(i, s[j]).update(j, s[i]).to_multiset() == s.to_multiset(),
{
    broadcast use vstd::multiset::group_multiset_axioms;

    let t = s.update(i, s[j]);
    vstd::seq_lib::to_multiset_update(s, i, s[j]);
    vstd::seq_lib::to_multiset_update(t, j, s[i]);
    s.to_multiset_ensures();
}

/// Exchanges positions `i` and `j`.
fn exchange(v: &mut Vec<EventAbs>, i: usize, j: usize)
    requires
        i < old(v)@.len(),
        j < old(v)@.len(),
    ensures
        final(v)@ == old(v)@.update(i as int, old(v)@[j as int]).update(j as int, old(v)@[i as int]),
        final(v)@.to_multiset() == old(v)@.to_multiset(),
{
    let a = v[i];
    let b = v[j];
    proof {
        lemma_swap_keeps_entries(v@, i as int, j as int);
    }
    v[i] = b;
    v[j] = a;
}

/// Adds `e` to the heap `v`.
fn heap_insert(v: &mut Vec<EventAbs>, e: EventAbs)
    requires
        heap_ordered(old(v)@),
    ensures
        heap_ordered(final(v)@),
        final(v)@.to_multiset() == old(v)@.to_multiset().insert(e),
{
    proof {
        vstd::seq_lib::to_multiset_build(v@, e);
    }
    v.push(e);
    let ghost filled = v@;
    assert forall|j: int| 0 < j < filled.len() && j != filled.len() - 1 implies #[trigger] ordered_at(
        filled,
        j,
    ) by {
        assert(ordered_at(old(v)@, j));
    }
    let mut i: usize = v.len() - 1;
    while i > 0 && v[(i - 1) / 2].ins > v[i].ins
        invariant
            i < v@.len(),
            v@.to_multiset() == filled.to_multiset(),
            forall|j: int| 0 < j < v@.len() && j != i ==> #[trigger] ordered_at(v@, j),
            forall|j: int|
                0 < j < v@.len() && parent(j) == i && i > 0 ==> v@[parent(i as int)].ins
                    <= #[trigger] v@[j].ins,
        decreases i,
    {
        let p = (i - 1) / 2;
        let ghost before = v@;
        exchange(v, p, i);
        proof {
            assert forall|j: int| 0 < j < v@.len() && j != p implies #[trigger] ordered_at(
                v@,
                j,
            ) by {
                if j != i {
                    assert(ordered_at(before, j));
                }
            }
            assert forall|j: int| 0 < j < v@.len() && parent(j) == p && p > 0 implies v@[parent(
                p as int,
            )].ins <= #[trigger] v@[j].ins by {
                assert(ordered_at(before, p as int));
                if j != i {
                    assert(ordered_at(before, j));
                }
            }
        }
        i = p;
    }
    proof {
        assert forall|j: int| 0 < j < v@.len() implies #[trigger] ordered_at(v@, j) by {}
    }
}

/// Takes the root out of the non-empty heap `v`.
fn heap_extract(v: &mut Vec<EventAbs>) -> (root: EventAbs)
    requires
        heap_ordered(old(v)@),
        old(v)@.len() > 0,
    ensures
        heap_ordered(final(v)@),
        root == old(v)@[0],
        final(v)@.to_multiset() == old(v)@.to_multiset().remove(root),
{
    let ghost full = v@;
    let root = v.swap_remove(0);
    let ghost cut = v@;
    proof {
        broadcast use vstd::multiset::group_multiset_axioms;

        let last = full.last();
        let moved = full.update(0, last);
        vstd::seq_lib::to_multiset_update(full, 0, last);
        full.to_multiset_ensures();
        vstd::seq_lib::to_multiset_remove(moved, full.len() - 1);
        assert forall|j: int| 0 < j < cut.len() && parent(j) != 0 implies #[trigger] ordered_at(
            cut,
            j,
        ) by {
            assert(ordered_at(full, j));
        }
    }
    let n = v.len();
    let mut i: usize = 0;
    loop
        invariant
            n == v@.len(),
            i <= n,
            v@.to_multiset() == cut.to_multiset(),
            forall|j: int| 0 < j < n && parent(j) != i ==> #[trigger] ordered_at(v@, j),
            forall|j: int|
                0 < j < n && parent(j) == i && i > 0 ==> v@[parent(i as int)].ins
                    <= #[trigger] v@[j].ins,
        ensures
            heap_ordered(v@),
            v@.to_multiset() == cut.to_multiset(),
        decreases n - i,
    {
        if n < 2 || i > (n - 2) / 2 {
            proof {
                assert forall|j: int| 0 < j < n implies #[trigger] ordered_at(v@, j) by {}
            }
            break ;
        }
        let left = 2 * i + 1;
        let right = left + 1;
        let child = if right < n && v[right].ins < v[left].ins {
            right
        } else {
            left
        };
        if v[i].ins <= v[child].ins {
            proof {
                assert forall|j: int| 0 < j < n implies #[trigger] ordered_at(v@, j) by {}
            }
            break ;
        }
        let ghost before = v@;
        exchange(v, i, child);
        proof {
            assert forall|j: int| 0 < j < n && parent(j) != child implies #[trigger] ordered_at(
                v@,
                j,
            ) by {
                if j != i && parent(j) != i {
                    assert(ordered_at(before, j));
                }
            }
            assert forall|j: int| 0 < j < n && parent(j) == child implies v@[parent(
                child as int,
            )].ins <= #[trigger] v@[j].ins by {
                assert(ordered_at(before, j));
            }
        }
        i = child;
    }
    root
}

/// The pending deliveries, soonest first.
///
/// Its view is the multiset of what it holds: the store keeps no order among
/// entries with the same deadline.
pub struct DeadlineStore {
    heap: Vec<EventAbs>,
}

impl View for DeadlineStore {
    type V = Multiset<EventAbs>;

    closed spec fn view(&self) -> Multiset<EventAbs> {
        self.heap@.to_multiset()
    }
}

impl DeadlineStore {
    #[verifier::type_invariant]
    spec fn well_formed(&self) -> bool {
        heap_ordered(self.heap@)
    }

    /// Moves the heap out, leaving an empty one, so that it can be worked on
    /// while it is out of order.
    fn take_heap(&mut self) -> (heap: Vec<EventAbs>)
        ensures
            heap == old(self).heap,
            final(self).heap@ == Seq::<EventAbs>::empty(),
    {
        let mut heap: Vec<EventAbs> = Vec::new();
        core::mem::swap(&mut self.heap, &mut heap);
        heap
    }

    /// An empty store.
    pub fn new() -> (store: DeadlineStore)
        ensures
            store@ == Multiset::<EventAbs>::empty(),
    {
        let store = DeadlineStore { heap: Vec::new() };
        proof {
            broadcast use vstd::multiset::group_multiset_axioms;

            store.heap@.to_multiset_ensures();
            vstd::multiset::lemma_multiset_empty_len(store.heap@.to_multiset());
        }
        store
    }

    /// How many deliveries are pending.
    pub fn len(&self) -> (n: usize)
        ensures
            n == self@.len(),
    {
        proof {
            self.heap@.to_multiset_ensures();
        }
        self.heap.len()
    }

    /// Whether nothing is pending.
    pub fn is_empty(&self) -> (empty: bool)
        ensures
            empty == (self@.len() == 0),
    {
        proof {
            self.heap@.to_multiset_ensures();
        }
        self.heap.len() == 0
    }

    /// Adds a pending delivery.
    pub fn push(&mut self, e: EventAbs)
        ensures
            final(self)@ == old(self)@.insert(e),
    {
        proof {
            use_type_invariant(&*self);
        }
        let mut heap = self.take_heap();
        heap_insert(&mut heap, e);
        self.heap = heap;
    }

    /// The soonest pending delivery, left in the store.
    pub fn peek(&self) -> (soonest: Option<EventAbs>)
        ensures
            soonest is None <==> self@.len() == 0,
            soonest matches Some(e) ==> is_soonest(self@, e),
    {
        proof {
            use_type_invariant(self);
            self.heap@.to_multiset_ensures();
        }
        if self.heap.len() == 0 {
            None
        } else {
            let e = self.heap[0];
            proof {
                assert forall|x: EventAbs| self@.contains(x) implies e.ins <= x.ins by {
                    let k = choose|k: int| 0 <= k < self.heap@.len() && self.heap@[k] == x;
                    lemma_root_is_soonest(self.heap@, k);
                }
            }
            Some(e)
        }
    }

    /// Takes the soonest pending delivery out of the store.
    pub fn pop(&mut self) -> (soonest: Option<EventAbs>)
        ensures
            soonest is None <==> old(self)@.len() == 0,
            soonest is None ==> final(self)@ == old(self)@,
            soonest matches Some(e) ==> is_soonest(old(self)@, e) && final(self)@ == old(self)@.remove(e),
    {
        proof {
            use_type_invariant(&*self);
            self.heap@.to_multiset_ensures();
        }
        if self.heap.len() == 0 {
            None
        } else {
            proof {
                let s = self.heap@;
                assert forall|x: EventAbs| self@.contains(x) implies s[0].ins <= x.ins by {
                    let k = choose|k: int| 0 <= k < s.len() && s[k] == x;
                    lemma_root_is_soonest(s, k);
                }
            }
            let mut heap = self.take_heap();
            let e = heap_extract(&mut heap);
            self.heap = heap;
            Some(e)
        }
    }
}

} // verus!
