//! A finite set of panels, kept as a vector without repetitions.

use vstd::prelude::*;

use crate::panel::PanelId;

verus! {

/// A set of panels. Each panel occurs at most once in `items`.
#[derive(Debug)]
pub struct PanelSet {
    items: Vec<PanelId>,
}

impl View for PanelSet {
    type V = Set<PanelId>;

    closed spec fn view(&self) -> Set<PanelId> {
        self.items@.to_set()
    }
}

impl PanelSet {
    #[verifier::type_invariant]
    closed spec fn inv(self) -> bool {
        self.items@.no_duplicates()
    }

    /// The empty set.
    pub fn new() -> (r: PanelSet)
        ensures
            r@ == Set::<PanelId>::empty(),
    {
        let r = PanelSet { items: Vec::new() };
        assert(r@ =~= Set::<PanelId>::empty());
        r
    }

    /// The set holding the given panels; repeated panels are kept once.
    pub fn from_vec(v: &Vec<PanelId>) -> (r: PanelSet)
        ensures
            r@ == v@.to_set(),
    {
        let mut r = PanelSet::new();
        let mut i: usize = 0;
        while i < v.len()
            invariant
                i <= v.len(),
                r@ == v@.take(i as int).to_set(),
            decreases v.len() - i,
        {
            r.insert(v[i]);
            assert(v@.take(i + 1) == v@.take(i as int).push(v@[i as int]));
            proof {
                v@.take(i as int).lemma_push_to_set_commute(v@[i as int]);
            }
            i = i + 1;
        }
        assert(v@.take(v.len() as int) == v@);
        r
    }

    /// Whether the panel is in the set.
    pub fn contains(&self, p: PanelId) -> (r: bool)
        ensures
            r == self@.contains(p),
    {
        let mut i: usize = 0;
        while i < self.items.len()
            invariant
                i <= self.items@.len(),
                forall|j: int| 0 <= j < i ==> self.items@[j] != p,
            decreases self.items@.len() - i,
        {
            if self.items[i] == p {
                assert(self.items@.contains(p));
                return true;
            }
            i = i + 1;
        }
        false
    }

    /// Number of panels in the set.
    pub fn len(&self) -> (r: usize)
        ensures
            r == self@.len(),
    {
        proof {
            use_type_invariant(self);
            self.items@.unique_seq_to_set();
        }
        self.items.len()
    }

    /// Whether the set is empty.
    pub fn is_empty(&self) -> (r: bool)
        ensures
            r == (self@.len() == 0),
    {
        self.len() == 0
    }

    /// Adds a panel.
    pub fn insert(&mut self, p: PanelId)
        ensures
            final(self)@ == old(self)@.insert(p),
    {
        if !self.contains(p) {
            proof {
                use_type_invariant(&*self);
                self.items@.lemma_push_to_set_commute(p);
            }
            let mut items = Vec::new();
            std::mem::swap(&mut items, &mut self.items);
            items.push(p);
            self.items = items;
        } else {
            assert(self@.insert(p) =~= self@);
        }
    }

    /// Removes a panel.
    pub fn remove(&mut self, p: PanelId)
        ensures
            final(self)@ == old(self)@.remove(p),
    {
        proof {
            use_type_invariant(&*self);
        }
        let mut i: usize = 0;
        while i < self.items.len()
            invariant
                i <= self.items@.len(),
                self.items@.no_duplicates(),
                self.items@ == old(self).items@,
                forall|j: int| 0 <= j < i ==> self.items@[j] != p,
            decreases self.items@.len() - i,
        {
            if self.items[i] == p {
                let ghost before = self.items@;
                let mut items = Vec::new();
                std::mem::swap(&mut items, &mut self.items);
                items.remove(i);
                proof {
                    assert forall|a: int, b: int|
                        0 <= a < items@.len() && 0 <= b < items@.len() && a != b implies items@[a]
                        != items@[b] by {
                        let a0 = if a < i { a } else { a + 1 };
                        let b0 = if b < i { b } else { b + 1 };
                        assert(items@[a] == before[a0]);
                        assert(items@[b] == before[b0]);
                    }
                    assert forall|q: PanelId| items@.to_set().contains(q) <==> before.to_set().remove(
                        p,
                    ).contains(q) by {
                        if items@.contains(q) {
                            let k = choose|k: int| 0 <= k < items@.len() && items@[k] == q;
                            let k0 = if k < i { k } else { k + 1 };
                            assert(before[k0] == q);
                        }
                        if before.contains(q) && q != p {
                            let k = choose|k: int| 0 <= k < before.len() && before[k] == q;
                            assert(k != i);
                            let k1 = if k < i { k } else { k - 1 };
                            assert(items@[k1] == q);
                        }
                    }
                    assert(items@.to_set() =~= before.to_set().remove(p));
                }
                self.items = items;
                return;
            }
            i = i + 1;
        }
        assert(!self.items@.contains(p));
        assert(self@.remove(p) =~= self@);
    }

    /// A copy of the set.
    pub fn copy(&self) -> (r: PanelSet)
        ensures
            r@ == self@,
    {
        let r = PanelSet { items: self.to_vec() };
        r
    }

    /// Removes every panel.
    pub fn clear(&mut self)
        ensures
            final(self)@ == Set::<PanelId>::empty(),
    {
        self.items = Vec::new();
        assert(self@ =~= Set::<PanelId>::empty());
    }

    /// The panels as a vector, each once, in the kept order.
    pub fn to_vec(&self) -> (r: Vec<PanelId>)
        ensures
            r@.to_set() == self@,
            r@.no_duplicates(),
            r@.len() == self@.len(),
    {
        proof {
            use_type_invariant(self);
            self.items@.unique_seq_to_set();
        }
        let mut r: Vec<PanelId> = Vec::new();
        let mut i: usize = 0;
        while i < self.items.len()
            invariant
                i <= self.items@.len(),
                r@ == self.items@.take(i as int),
            decreases self.items@.len() - i,
        {
            r.push(self.items[i]);
            assert(self.items@.take(i + 1) == self.items@.take(i as int).push(self.items@[i as int]));
            i = i + 1;
        }
        assert(self.items@.take(self.items@.len() as int) == self.items@);
        r
    }
}

} // verus!
