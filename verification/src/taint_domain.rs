//! The abstract state of the analysis: the set of variables that may be
//! tainted.
use crate::mir::Local;
use vstd::prelude::*;

verus! {

/// The variables of one function body that may hold a tainted value.
///
/// A state is made for a fixed number of variables, its domain size, and the
/// set it stands for holds only variables below that number. Its view is that
/// set.
#[derive(Debug)]
pub struct TaintState {
    bits: Vec<bool>,
}

impl View for TaintState {
    type V = Set<Local>;

    closed spec fn view(&self) -> Set<Local> {
        Set::new(|v: Local| v < self.bits@.len() && self.bits@[v as int])
    }
}

/// The set `s` with `v` put in if `tainted` holds, and taken out if not.
pub open spec fn with_status(s: Set<Local>, v: Local, tainted: bool) -> Set<Local> {
    if tainted {
        s.insert(v)
    } else {
        s.remove(v)
    }
}

impl TaintState {
    /// The number of variables that the state was made for.
    pub closed spec fn spec_domain_size(&self) -> usize {
        self.bits.len()
    }

    /// Every tainted variable lies below the domain size, so the set is
    /// finite and no larger than the domain.
    pub proof fn tainted_within_domain(&self)
        ensures
            forall|v: Local| self@.contains(v) ==> v < self.domain_size(),
            self@.finite(),
            self@.len() <= self.domain_size(),
    {
        let n = self.bits@.len();
        let below = Set::new(|v: Local| v < n);
        let ints = vstd::set_lib::set_int_range(0, n as int);
        let f = |i: int| i as usize;
        assert(below =~= ints.map(f)) by {
            assert forall|v: Local| below.contains(v) implies ints.map(f).contains(v) by {
                assert(ints.contains(v as int));
                assert(f(v as int) == v);
            }
        }
        vstd::set_lib::lemma_int_range(0, n as int);
        ints.lemma_map_finite(f);
        vstd::set_lib::lemma_map_size_bound(ints, below, f);
        assert(self@.subset_of(below));
        vstd::set_lib::lemma_len_subset(self@, below);
    }

    /// The state for `domain_size` variables in which none is tainted.
    pub fn new_empty(domain_size: usize) -> (s: Self)
        ensures
            s.domain_size() == domain_size,
            s@ == Set::<Local>::empty(),
    {
        let mut bits: Vec<bool> = Vec::new();
        let mut i: usize = 0;
        while i < domain_size
            invariant
                i <= domain_size,
                bits@.len() == i,
                forall|j: int| 0 <= j < i ==> !bits@[j],
            decreases domain_size - i,
        {
            bits.push(false);
            i = i + 1;
        }
        let s = TaintState { bits };
        assert(s@ =~= Set::<Local>::empty());
        s
    }

    /// The number of variables that the state was made for.
    #[verifier::when_used_as_spec(spec_domain_size)]
    pub fn domain_size(&self) -> (n: usize)
        ensures
            n == self.domain_size(),
    {
        self.bits.len()
    }

    /// Whether `v` may be tainted.
    pub fn is_tainted(&self, v: Local) -> (r: bool)
        requires
            v < self.domain_size(),
        ensures
            r == self@.contains(v),
    {
        self.bits[v]
    }

    /// Taints `v`.
    pub fn mark_tainted(&mut self, v: Local)
        requires
            v < old(self).domain_size(),
        ensures
            final(self).domain_size() == old(self).domain_size(),
            final(self)@ == old(self)@.insert(v),
    {
        self.bits.set(v, true);
        assert(self@ =~= old(self)@.insert(v));
    }

    /// Clears `v`.
    pub fn mark_untainted(&mut self, v: Local)
        requires
            v < old(self).domain_size(),
        ensures
            final(self).domain_size() == old(self).domain_size(),
            final(self)@ == old(self)@.remove(v),
    {
        self.bits.set(v, false);
        assert(self@ =~= old(self)@.remove(v));
    }

    /// Gives `dst` the status that `src` has: tainted if `src` is, clear if
    /// not, whatever `dst` was before.
    pub fn propagate(&mut self, src: Local, dst: Local)
        requires
            src < old(self).domain_size(),
            dst < old(self).domain_size(),
        ensures
            final(self).domain_size() == old(self).domain_size(),
            final(self)@ == with_status(old(self)@, dst, old(self)@.contains(src)),
    {
        let status = self.bits[src];
        self.bits.set(dst, status);
        assert(self@ =~= with_status(old(self)@, dst, old(self)@.contains(src)));
    }

    /// Merges `other` into the state: afterwards a variable is tainted if it
    /// was tainted in either. Returns whether the state changed.
    pub fn join(&mut self, other: &TaintState) -> (changed: bool)
        requires
            old(self).domain_size() == other.domain_size(),
        ensures
            final(self).domain_size() == old(self).domain_size(),
            final(self)@ == old(self)@.union(other@),
            changed == (final(self)@ != old(self)@),
            changed == !other@.subset_of(old(self)@),
    {
        let n = self.bits.len();
        let ghost before = self.bits@;
        let ghost theirs = other.bits@;
        let mut changed = false;
        let mut i: usize = 0;
        while i < n
            invariant
                i <= n,
                n == self.bits@.len(),
                n == before.len(),
                n == theirs.len(),
                theirs == other.bits@,
                self.bits@ =~= Seq::new(
                    n as nat,
                    |j: int| if j < i { before[j] || theirs[j] } else { before[j] },
                ),
                changed == exists|j: int| #![trigger before[j]] 0 <= j < i && theirs[j] && !before[j],
            decreases n - i,
        {
            if other.bits[i] && !self.bits[i] {
                self.bits.set(i, true);
                changed = true;
            }
            proof {
                let k = i as int;
                if theirs[k] && !before[k] {
                    assert(changed);
                } else if changed {
                    let j = choose|j: int| #![trigger before[j]] 0 <= j < i && theirs[j] && !before[j];
                    assert(0 <= j < i + 1 && theirs[j] && !before[j]);
                }
            }
            i = i + 1;
        }
        proof {
            assert(self@ =~= old(self)@.union(other@));
            if changed {
                let j = choose|j: int| #![trigger before[j]] 0 <= j < n && theirs[j] && !before[j];
                let v = j as usize;
                assert(other@.contains(v) && !old(self)@.contains(v));
                assert(self@.contains(v));
            } else {
                assert forall|v: Local| other@.contains(v) implies old(self)@.contains(v) by {
                    assert(before[v as int] || !theirs[v as int]);
                }
                assert(self@ =~= old(self)@);
            }
        }
        changed
    }

    /// Whether the two states are for as many variables and hold the same
    /// variables.
    pub fn same_as(&self, other: &TaintState) -> (r: bool)
        ensures
            r == (self.domain_size() == other.domain_size() && self@ == other@),
    {
        let n = self.bits.len();
        if n != other.bits.len() {
            return false;
        }
        let mut i: usize = 0;
        while i < n
            invariant
                i <= n,
                n == self.bits@.len(),
                n == other.bits@.len(),
                forall|j: int| 0 <= j < i ==> self.bits@[j] == other.bits@[j],
            decreases n - i,
        {
            if self.bits[i] != other.bits[i] {
                assert(self@.contains(i) != other@.contains(i));
                return false;
            }
            i = i + 1;
        }
        assert(self@ =~= other@);
        true
    }

    /// A copy of the state.
    pub fn duplicate(&self) -> (s: Self)
        ensures
            s.domain_size() == self.domain_size(),
            s@ == self@,
    {
        let n = self.bits.len();
        let mut bits: Vec<bool> = Vec::new();
        let mut i: usize = 0;
        while i < n
            invariant
                i <= n,
                n == self.bits@.len(),
                bits@.len() == i,
                forall|j: int| 0 <= j < i ==> bits@[j] == self.bits@[j],
            decreases n - i,
        {
            bits.push(self.bits[i]);
            i = i + 1;
        }
        let s = TaintState { bits };
        assert(s@ =~= self@);
        s
    }
}

} // verus!
