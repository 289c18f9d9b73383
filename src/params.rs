//! The parameter bag of a method call: named text values, one per name.

use vstd::prelude::*;
use vstd::string::*;
use crate::error::append_decimal;

verus! {

/// The names of `s` are pairwise distinct.
pub open spec fn names_unique(s: Seq<(Seq<char>, Seq<char>)>) -> bool {
    forall|i: int, j: int| 0 <= i < j < s.len() ==> #[trigger] s[i].0 != #[trigger] s[j].0
}

/// The value under `name` in `s`, where `s` holds that name.
pub open spec fn value_of(s: Seq<(Seq<char>, Seq<char>)>, name: Seq<char>) -> Option<Seq<char>> {
    if exists|i: int| 0 <= i < s.len() && s[i].0 == name {
        Some(s[choose|i: int| 0 <= i < s.len() && s[i].0 == name].1)
    } else {
        None
    }
}

/// The parameters of one call, in the order they were first set.
#[derive(Debug)]
pub struct Params {
    pairs: Vec<(String, String)>,
}

impl View for Params {
    type V = Seq<(Seq<char>, Seq<char>)>;

    closed spec fn view(&self) -> Seq<(Seq<char>, Seq<char>)> {
        self.pairs@.map_values(|p: (String, String)| (p.0@, p.1@))
    }
}

impl Params {
    /// The bag holds each name once.
    pub open spec fn wf(&self) -> bool {
        names_unique(self@)
    }

    /// An empty bag.
    pub fn new() -> (r: Params)
        ensures
            r.wf(),
            r@ == Seq::<(Seq<char>, Seq<char>)>::empty(),
    {
        let r = Params { pairs: Vec::new() };
        assert(r@ =~= Seq::<(Seq<char>, Seq<char>)>::empty());
        r
    }

    /// The number of parameters.
    pub fn len(&self) -> (r: usize)
        ensures
            r == self@.len(),
    {
        self.pairs.len()
    }

    /// Sets `name` to `value`. A name that is set already keeps its place
    /// and takes the new value (the last write wins); a new name goes last.
    pub fn insert(&mut self, name: String, value: String)
        requires
            old(self).wf(),
        ensures
            final(self).wf(),
            forall|i: int|
                0 <= i < old(self)@.len() && old(self)@[i].0 == name@ ==> final(self)@
                    == old(self)@.update(i, (name@, value@)),
            (forall|i: int| 0 <= i < old(self)@.len() ==> old(self)@[i].0 != name@) ==> final(self)@ == old(self)@.push((name@, value@)),
    {
        let n = self.pairs.len();
        let mut i: usize = 0;
        while i < n
            invariant
                n == self.pairs@.len(),
                i <= n,
                self.pairs@ == old(self).pairs@,
                self.wf(),
                forall|j: int| 0 <= j < i ==> self@[j].0 != name@,
            decreases n - i,
        {
            if self.pairs[i].0.eq(&name) {
                let ghost before = self@;
                self.pairs[i] = (name, value);
                proof {
                    assert(before[i as int].0 == name@);
                    assert(self@ =~= before.update(i as int, (name@, value@)));
                    assert forall|j: int| 0 <= j < before.len() && before[j].0 == name@ implies j
                        == i by {
                        if j != i {
                            if j < i {
                                assert(before[j].0 != before[i as int].0);
                            } else {
                                assert(before[i as int].0 != before[j].0);
                            }
                        }
                    }
                }
                return;
            }
            i = i + 1;
        }
        let ghost before = self@;
        self.pairs.push((name, value));
        assert(self@ =~= before.push((name@, value@)));
    }

    /// Sets `name` to the decimal text of `value`.
    pub fn insert_number(&mut self, name: String, value: u64)
        requires
            old(self).wf(),
        ensures
            final(self).wf(),
            forall|i: int|
                0 <= i < old(self)@.len() && old(self)@[i].0 == name@ ==> final(self)@
                    == old(self)@.update(i, (name@, crate::error::decimal(value as nat))),
            (forall|i: int| 0 <= i < old(self)@.len() ==> old(self)@[i].0 != name@) ==> final(self)@ == old(self)@.push((name@, crate::error::decimal(value as nat))),
    {
        let mut text = String::new();
        append_decimal(&mut text, value);
        assert(text@ =~= crate::error::decimal(value as nat));
        self.insert(name, text);
    }

    /// The value under `name`, if it is set.
    pub fn get(&self, name: &str) -> (r: Option<&String>)
        requires
            self.wf(),
        ensures
            match value_of(self@, name@) {
                Some(v) => r is Some && r->Some_0@ == v,
                None => r is None,
            },
    {
        let k = String::from_str(name);
        let n = self.pairs.len();
        let mut i: usize = 0;
        while i < n
            invariant
                n == self.pairs@.len(),
                i <= n,
                k@ == name@,
                self.wf(),
                forall|j: int| 0 <= j < i ==> self@[j].0 != name@,
            decreases n - i,
        {
            if self.pairs[i].0.eq(&k) {
                proof {
                    let c = choose|j: int| 0 <= j < self@.len() && self@[j].0 == name@;
                    assert(self@[i as int].0 == name@);
                    if c != i {
                        assert(c > i);
                        assert(self@[i as int].0 != self@[c].0);
                    }
                }
                return Some(&self.pairs[i].1);
            }
            i = i + 1;
        }
        None
    }

    /// The parameters as (name, value) pairs, in the bag's order: what a
    /// request carries.
    pub fn to_pairs(&self) -> (r: Vec<(String, String)>)
        ensures
            r@.map_values(|p: (String, String)| (p.0@, p.1@)) == self@,
    {
        let mut out: Vec<(String, String)> = Vec::new();
        let n = self.pairs.len();
        let mut i: usize = 0;
        while i < n
            invariant
                n == self.pairs@.len(),
                i <= n,
                out@.len() == i,
                forall|j: int|
                    0 <= j < i ==> #[trigger] out@[j].0@ == self.pairs@[j].0@ && out@[j].1@
                        == self.pairs@[j].1@,
            decreases n - i,
        {
            let name = self.pairs[i].0.clone();
            let value = self.pairs[i].1.clone();
            out.push((name, value));
            i = i + 1;
        }
        assert(out@.map_values(|p: (String, String)| (p.0@, p.1@)) =~= self@);
        out
    }
}

} // verus!
