//! The saved configuration: the pinned repositories, written in ascending
//! order, each once, and read back as a set.

use vstd::prelude::*;

use crate::navigation::contains_name;
use crate::text::{less_text, lemma_text_less_total, lemma_text_less_transitive, text_less};

verus! {

/// What the configuration file holds.
#[derive(Debug)]
pub struct Config {
    pub pinned: Vec<String>,
}

impl Default for Config {
    fn default() -> (r: Config)
        ensures
            r.pinned@.len() == 0,
    {
        Config { pinned: Vec::new() }
    }
}

/// Names in strictly ascending order (so each occurs once).
pub open spec fn ascending(s: Seq<Seq<char>>) -> bool {
    forall|i: int, j: int| 0 <= i < j < s.len() ==> text_less(s[i], s[j])
}

/// Two lists of names hold the same names.
pub open spec fn same_names(a: Seq<Seq<char>>, b: Seq<Seq<char>>) -> bool {
    forall|x: Seq<char>| a.contains(x) <==> b.contains(x)
}

/// Puts a name into an ascending list, unless it is there.
fn insert_name(v: &mut Vec<String>, name: &String)
    requires
        ascending(old(v).deep_view()),
    ensures
        ascending(final(v).deep_view()),
        forall|x: Seq<char>| final(v).deep_view().contains(x) <==> (old(v).deep_view().contains(x) || x == name@),
{
    let ghost before = v.deep_view();
    let mut k: usize = 0;
    while k < v.len()
        invariant
            k <= v@.len(),
            v.deep_view() == before,
            forall|j: int| 0 <= j < k ==> text_less(#[trigger] before[j], name@),
        ensures
            k <= v@.len(),
            v.deep_view() == before,
            forall|j: int| 0 <= j < k ==> text_less(#[trigger] before[j], name@),
            k == v@.len() || !text_less(before[k as int], name@),
        decreases v@.len() - k,
    {
        assert(before[k as int] == v@[k as int]@);
        if !less_text(v[k].as_str(), name.as_str()) {
            break;
        }
        k = k + 1;
    }
    if k < v.len() {
        assert(before[k as int] == v@[k as int]@);
        if crate::text::str_eq(v[k].as_str(), name.as_str()) {
            assert forall|x: Seq<char>| before.contains(x) <==> (before.contains(x) || x == name@) by {
                if x == name@ {
                    assert(before[k as int] == x);
                }
            }
            return;
        }
    }
    proof {
        if k < before.len() {
            lemma_text_less_total(before[k as int], name@);
        }
    }
    v.insert(k, name.clone());
    let ghost after = v.deep_view();
    assert(after =~= before.insert(k as int, name@));
    assert forall|i: int, j: int| 0 <= i < j < after.len() implies text_less(after[i], after[j]) by {
        if j == k {
            assert(after[i] == before[i]);
        } else if i == k {
            assert(after[j] == before[j - 1]);
            if j - 1 > k {
                lemma_text_less_transitive(name@, before[k as int], before[j - 1]);
            }
        } else if i < k && j > k {
            assert(after[i] == before[i]);
            assert(after[j] == before[j - 1]);
        } else if i > k {
            assert(after[i] == before[i - 1]);
            assert(after[j] == before[j - 1]);
        }
    }
    assert forall|x: Seq<char>| after.contains(x) <==> (before.contains(x) || x == name@) by {
        if after.contains(x) {
            let i = choose|i: int| 0 <= i < after.len() && after[i] == x;
            if i < k {
                assert(before[i] == x);
            } else if i > k {
                assert(before[i - 1] == x);
            }
        }
        if before.contains(x) {
            let i = choose|i: int| 0 <= i < before.len() && before[i] == x;
            if i < k {
                assert(after[i] == x);
            } else {
                assert(after[i + 1] == x);
            }
        }
        if x == name@ {
            assert(after[k as int] == x);
        }
    }
}

proof fn lemma_push_contains(s: Seq<Seq<char>>, y: Seq<char>)
    ensures
        forall|x: Seq<char>| #[trigger] s.push(y).contains(x) <==> (s.contains(x) || x == y),
{
    assert forall|x: Seq<char>| #[trigger] s.push(y).contains(x) <==> (s.contains(x) || x == y) by {
        if s.push(y).contains(x) {
            let i = choose|i: int| 0 <= i < s.push(y).len() && s.push(y)[i] == x;
            if i < s.len() {
                assert(s[i] == x);
            }
        }
        if s.contains(x) {
            let i = choose|i: int| 0 <= i < s.len() && s[i] == x;
            assert(s.push(y)[i] == x);
        }
        if x == y {
            assert(s.push(y)[s.len() as int] == x);
        }
    }
}

impl Config {
    /// A configuration holding the given pins in ascending order, each once,
    /// as it is saved.
    pub fn from_pins(pins: &Vec<String>) -> (r: Config)
        ensures
            ascending(r.pinned.deep_view()),
            same_names(r.pinned.deep_view(), pins.deep_view()),
    {
        let mut sorted: Vec<String> = Vec::new();
        let mut i: usize = 0;
        while i < pins.len()
            invariant
                i <= pins@.len(),
                ascending(sorted.deep_view()),
                same_names(sorted.deep_view(), pins.deep_view().take(i as int)),
            decreases pins@.len() - i,
        {
            let ghost prev = pins.deep_view().take(i as int);
            insert_name(&mut sorted, &pins[i]);
            assert(pins.deep_view().take(i + 1) =~= prev.push(pins@[i as int]@));
            proof {
                lemma_push_contains(prev, pins@[i as int]@);
            }
            i = i + 1;
        }
        assert(pins.deep_view().take(pins@.len() as int) =~= pins.deep_view());
        Config { pinned: sorted }
    }

    /// The pins a configuration holds, each once, as they are loaded.
    pub fn pins(&self) -> (r: Vec<String>)
        ensures
            r.deep_view().no_duplicates(),
            same_names(r.deep_view(), self.pinned.deep_view()),
    {
        let ghost pv = self.pinned.deep_view();
        let mut r: Vec<String> = Vec::new();
        let mut i: usize = 0;
        while i < self.pinned.len()
            invariant
                i <= self.pinned@.len(),
                pv == self.pinned.deep_view(),
                r.deep_view().no_duplicates(),
                same_names(r.deep_view(), pv.take(i as int)),
            decreases self.pinned@.len() - i,
        {
            let name = &self.pinned[i];
            assert(pv.take(i + 1) =~= pv.take(i as int).push(name@));
            proof {
                lemma_push_contains(pv.take(i as int), name@);
                lemma_push_contains(r.deep_view(), name@);
            }
            if !contains_name(&r, name.as_str()) {
                let ghost before = r.deep_view();
                r.push(name.clone());
                assert(r.deep_view() =~= before.push(name@));
            }
            i = i + 1;
        }
        assert(pv.take(pv.len() as int) =~= pv);
        r
    }
}

} // verus!
