//! The slot allocator: hands out the lowest free slot below the allocation
//! bound, records it as held, and releases slots on demand. The held slots
//! are proved unique and in range, and the allocator is proved to fail
//! exactly when every slot is held.

use vstd::prelude::*;
use vstd::set_lib::{lemma_int_range, lemma_len_subset, set_int_range};

use crate::allocation::{spec_allocation, NetworkAllocation};
use crate::config::NETWORK_MAX_ALLOCATIONS;

verus! {

/// Why a slot could not be allocated.
#[derive(Debug, PartialEq, Eq, Structural)]
pub enum AllocatorError {
    /// Every slot below the allocation bound is held.
    NoFreeIps,
}

/// The allocator: the host interface every allocation attaches to, and the
/// slots currently held.
pub struct NetworkAllocator {
    pub interface: String,
    pub allocations: Vec<u8>,
}

impl NetworkAllocator {
    /// The allocator's invariant: held slots are pairwise distinct and below
    /// the allocation bound.
    pub open spec fn wf(self) -> bool {
        &&& self.allocations@.no_duplicates()
        &&& forall|i: int|
            0 <= i < self.allocations@.len() ==> #[trigger] self.allocations@[i]
                < NETWORK_MAX_ALLOCATIONS
    }

    /// Whether the slot `s` is currently held.
    pub open spec fn holds(self, s: u8) -> bool {
        self.allocations@.contains(s)
    }

    /// An empty allocator for the given host interface.
    pub fn new(interface: &str) -> (a: NetworkAllocator)
        ensures
            a.interface@ == interface@,
            a.allocations@ == Seq::<u8>::empty(),
            a.wf(),
    {
        let a = NetworkAllocator { interface: String::from_str(interface), allocations: Vec::new() };
        proof {
            assert(a.allocations@ =~= Seq::<u8>::empty());
        }
        a
    }

    fn contains_slot(&self, s: u8) -> (r: bool)
        ensures
            r == self.holds(s),
    {
        let mut i: usize = 0;
        while i < self.allocations.len()
            invariant
                i <= self.allocations@.len(),
                forall|j: int| 0 <= j < i ==> self.allocations@[j] != s,
            decreases self.allocations@.len() - i,
        {
            if self.allocations[i] == s {
                return true;
            }
            i += 1;
        }
        proof {
            assert(!self.allocations@.contains(s));
        }
        false
    }

    /// Allocate the lowest free slot. Succeeds with the allocation of that
    /// slot, recording it as held, exactly as long as some slot below the
    /// bound is free; fails once all are held.
    pub fn allocate(&mut self) -> (r: Result<NetworkAllocation, AllocatorError>)
        requires
            old(self).wf(),
        ensures
            final(self).interface == old(self).interface,
            final(self).wf(),
            match r {
                Ok(a) => exists|slot: u8|
                    {
                        &&& slot < NETWORK_MAX_ALLOCATIONS
                        &&& !old(self).holds(slot)
                        &&& forall|j: u8| j < slot ==> old(self).holds(j)
                        &&& spec_allocation(a, old(self).interface@, slot)
                        &&& final(self).allocations@ == old(self).allocations@.push(slot)
                    },
                Err(e) => {
                    &&& e == AllocatorError::NoFreeIps
                    &&& forall|j: u8| j < NETWORK_MAX_ALLOCATIONS ==> old(self).holds(j)
                    &&& *final(self) == *old(self)
                },
            },
    {
        let mut idx: u8 = 0;
        while idx < NETWORK_MAX_ALLOCATIONS
            invariant
                self == old(self),
                old(self).wf(),
                idx <= NETWORK_MAX_ALLOCATIONS,
                forall|j: u8| j < idx ==> old(self).holds(j),
            decreases NETWORK_MAX_ALLOCATIONS - idx,
        {
            if !self.contains_slot(idx) {
                let allocation = NetworkAllocation::new(self.interface.as_str(), idx);
                self.allocations.push(idx);
                proof {
                    let old_seq = old(self).allocations@;
                    let new_seq = self.allocations@;
                    assert(new_seq =~= old_seq.push(idx));
                    assert forall|i: int, j: int|
                        (0 <= i < new_seq.len() && 0 <= j < new_seq.len() && i != j)
                        implies new_seq[i] != new_seq[j] by {
                        if i == new_seq.len() - 1 {
                            assert(old_seq.contains(old_seq[j]));
                        } else if j == new_seq.len() - 1 {
                            assert(old_seq.contains(old_seq[i]));
                        }
                    }
                }
                return Ok(allocation);
            }
            idx += 1;
        }
        Err(AllocatorError::NoFreeIps)
    }

    /// Release the slot `idx`. The slot is no longer held afterwards; every
    /// other slot keeps its state; releasing never fails.
    pub fn deallocate(&mut self, idx: &u8) -> (r: Result<(), AllocatorError>)
        requires
            old(self).wf(),
        ensures
            final(self).interface == old(self).interface,
            final(self).wf(),
            r is Ok,
            !final(self).holds(*idx),
            forall|s: u8| s != idx ==> final(self).holds(s) == old(self).holds(s),
    {
        let mut i: usize = 0;
        while i < self.allocations.len()
            invariant
                self == old(self),
                old(self).wf(),
                i <= self.allocations@.len(),
                forall|j: int| 0 <= j < i ==> self.allocations@[j] != idx,
            decreases self.allocations@.len() - i,
        {
            if self.allocations[i] == *idx {
                self.allocations.remove(i);
                proof {
                    let old_seq = old(self).allocations@;
                    let new_seq = self.allocations@;
                    assert(new_seq =~= old_seq.take(i as int) + old_seq.skip(i + 1));
                    assert forall|s: u8| new_seq.contains(s) implies old_seq.contains(s) by {
                        let k = choose|k: int| 0 <= k < new_seq.len() && new_seq[k] == s;
                        if k < i {
                            assert(old_seq[k] == s);
                        } else {
                            assert(old_seq[k + 1] == s);
                        }
                    }
                    assert(!new_seq.contains(*idx)) by {
                        if new_seq.contains(*idx) {
                            let k = choose|k: int|
                                0 <= k < new_seq.len() && new_seq[k] == idx;
                            if k < i {
                                assert(old_seq[k] == idx && old_seq[i as int] == idx);
                            } else {
                                assert(old_seq[k + 1] == idx && old_seq[i as int] == idx);
                            }
                        }
                    }
                    assert forall|s: u8| s != idx && old_seq.contains(s) implies new_seq.contains(
                        s,
                    ) by {
                        let k = choose|k: int| 0 <= k < old_seq.len() && old_seq[k] == s;
                        if k < i {
                            assert(new_seq[k] == s);
                        } else {
                            assert(new_seq[k - 1] == s);
                        }
                    }
                    assert(new_seq.no_duplicates());
                }
                return Ok(());
            }
            i += 1;
        }
        proof {
            assert(!self.allocations@.contains(*idx));
        }
        Ok(())
    }

    /// Every reachable allocator state holds no slot twice, and only slots
    /// below the allocation bound: the invariant that `new`, `allocate` and
    /// `deallocate` are proved to preserve, restated over the multiset of
    /// held slots.
    pub proof fn lemma_allocator_uniqueness(self)
        requires
            self.wf(),
        ensures
            forall|s: u8| #[trigger] self.allocations@.to_multiset().count(s) <= 1,
            forall|s: u8|
                self.allocations@.to_multiset().count(s) > 0 ==> s < NETWORK_MAX_ALLOCATIONS,
    {
        self.allocations@.lemma_multiset_has_no_duplicates();
        assert forall|s: u8| self.allocations@.to_multiset().count(s) > 0 implies s
            < NETWORK_MAX_ALLOCATIONS by {
            self.allocations@.to_multiset_ensures();
            assert(self.allocations@.contains(s));
        }
    }

    /// An allocator holding as many slots as the bound holds every slot, so
    /// by the contract of `allocate` the next allocation fails: exhaustion
    /// after two hundred allocations with no release.
    pub proof fn lemma_allocator_exhaustion(self)
        requires
            self.wf(),
            self.allocations@.len() == NETWORK_MAX_ALLOCATIONS as nat,
        ensures
            forall|j: u8| j < NETWORK_MAX_ALLOCATIONS ==> self.holds(j),
    {
        let ints = self.allocations@.map_values(|v: u8| v as int);
        assert(ints.no_duplicates()) by {
            assert forall|i: int, j: int|
                0 <= i < j < ints.len() implies ints[i] != ints[j] by {
                assert(self.allocations@[i] != self.allocations@[j]);
            }
        }
        ints.unique_seq_to_set();
        let range = set_int_range(0, NETWORK_MAX_ALLOCATIONS as int);
        lemma_int_range(0, NETWORK_MAX_ALLOCATIONS as int);
        assert forall|j: u8| j < NETWORK_MAX_ALLOCATIONS implies self.holds(j) by {
            if !self.holds(j) {
                let smaller = range.remove(j as int);
                assert(ints.to_set().subset_of(smaller)) by {
                    assert forall|x: int| ints.to_set().contains(x) implies smaller.contains(
                        x,
                    ) by {
                        let k = choose|k: int| 0 <= k < ints.len() && ints[k] == x;
                        assert(self.allocations@[k] < NETWORK_MAX_ALLOCATIONS);
                        assert(self.allocations@.contains(self.allocations@[k]));
                        assert(x != j as int);
                    }
                }
                lemma_len_subset(ints.to_set(), smaller);
                assert(smaller.len() == NETWORK_MAX_ALLOCATIONS as nat - 1);
                assert(false);
            }
        }
    }
}

} // verus!
