//! The method registry: a mapping from method name to route, with
//! overwrite-on-reinsert semantics.

use vstd::prelude::*;

verus! {

/// A route: the terminal handler and the ordered middleware chain in
/// front of it.
pub struct Route<H, MW> {
    pub handler: H,
    pub middlewares: Vec<MW>,
}

/// The method registry: an association from method names (unique) to
/// routes, with constant-size entries scanned linearly.
pub struct MapRouter<H, MW> {
    entries: Vec<(String, Route<H, MW>)>,
}

impl<H, MW> MapRouter<H, MW> {
    /// Well-formedness: no method name appears twice.
    pub closed spec fn wf(&self) -> bool {
        forall|i: int, j: int|
            0 <= i < j < self.entries@.len() ==> self.entries@[i].0@ != self.entries@[j].0@
    }

    /// The mapping from method names to routes the registry holds.
    pub closed spec fn route_map(&self) -> Map<Seq<char>, Route<H, MW>> {
        Map::new(
            |k: Seq<char>|
                exists|i: int| 0 <= i < self.entries@.len() && self.entries@[i].0@ == k,
            |k: Seq<char>|
                self.entries@[choose|i: int|
                    0 <= i < self.entries@.len() && self.entries@[i].0@ == k].1,
        )
    }

    proof fn lemma_entry(&self, i: int)
        requires
            self.wf(),
            0 <= i < self.entries@.len(),
        ensures
            self.route_map().contains_key(self.entries@[i].0@),
            self.route_map()[self.entries@[i].0@] == self.entries@[i].1,
    {
        let k = self.entries@[i].0@;
        assert(self.route_map().dom().contains(k));
        let j = choose|j: int| 0 <= j < self.entries@.len() && self.entries@[j].0@ == k;
        assert(j == i);
    }

    /// An empty registry.
    pub fn new() -> (r: Self)
        ensures
            r.wf(),
            r.route_map() == Map::<Seq<char>, Route<H, MW>>::empty(),
    {
        let r = MapRouter { entries: Vec::new() };
        proof {
            assert(r.route_map() =~= Map::<Seq<char>, Route<H, MW>>::empty());
        }
        r
    }

    /// Look the route for a method name up.
    #[verifier::loop_isolation(false)]
    pub fn get(&self, name: &str) -> (r: Option<&Route<H, MW>>)
        requires
            self.wf(),
        ensures
            match r {
                Some(route) => self.route_map().contains_key(name@) && *route
                    == self.route_map()[name@],
                None => !self.route_map().contains_key(name@),
            },
    {
        let key: String = name.to_owned();
        let n = self.entries.len();
        let mut i: usize = 0;
        while i < n
            invariant
                i <= n,
                forall|j: int| 0 <= j < i ==> self.entries@[j].0@ != name@,
            decreases n - i,
        {
            if self.entries[i].0 == key {
                proof {
                    self.lemma_entry(i as int);
                }
                return Some(&self.entries[i].1);
            }
            i = i + 1;
        }
        None
    }

    /// Insert a route under a method name, overwriting and returning any
    /// route previously registered under the same name.
    #[verifier::loop_isolation(false)]
    pub fn insert(&mut self, name: String, route: Route<H, MW>) -> (r: Option<Route<H, MW>>)
        requires
            old(self).wf(),
        ensures
            final(self).wf(),
            final(self).route_map() == old(self).route_map().insert(name@, route),
            match r {
                Some(prev) => old(self).route_map().contains_key(name@) && prev == old(
                    self,
                ).route_map()[name@],
                None => !old(self).route_map().contains_key(name@),
            },
    {
        let ghost old_entries = self.entries@;
        let n = self.entries.len();
        let mut i: usize = 0;
        while i < n
            invariant
                i <= n,
                self.entries@ == old_entries,
                n == self.entries@.len(),
                forall|j: int| 0 <= j < i ==> self.entries@[j].0@ != name@,
            decreases n - i,
        {
            if self.entries[i].0 == name {
                proof {
                    self.lemma_entry(i as int);
                }
                let prev = self.entries.remove(i);
                self.entries.insert(i, (name, route));
                proof {
                    assert(self.entries@ =~= old_entries.update(i as int, (name, route)));
                    assert forall|p: int, q: int|
                        0 <= p < q < self.entries@.len() implies self.entries@[p].0@
                        != self.entries@[q].0@ by {
                        assert(old_entries[p].0@ != old_entries[q].0@);
                    }
                    assert forall|k: Seq<char>| #![auto]
                        self.route_map().contains_key(k) == old(self).route_map().insert(
                            name@,
                            route,
                        ).contains_key(k) by {
                        if old(self).route_map().insert(name@, route).contains_key(k) {
                            if k == name@ {
                                assert(self.entries@[i as int].0@ == k);
                            } else {
                                let j = choose|j: int|
                                    0 <= j < old_entries.len() && old_entries[j].0@ == k;
                                assert(self.entries@[j].0@ == k);
                            }
                        }
                        if self.route_map().contains_key(k) {
                            let j = choose|j: int|
                                0 <= j < self.entries@.len() && self.entries@[j].0@ == k;
                            if j != i as int {
                                assert(old_entries[j].0@ == k);
                            }
                        }
                    }
                    assert forall|k: Seq<char>| #![auto]
                        self.route_map().contains_key(k) implies self.route_map()[k] == old(
                        self,
                    ).route_map().insert(name@, route)[k] by {
                        let j = choose|j: int|
                            0 <= j < self.entries@.len() && self.entries@[j].0@ == k;
                        self.lemma_entry(j);
                        if k == name@ {
                            assert(j == i as int);
                        } else {
                            assert(old_entries[j].0@ == k);
                            old(self).lemma_entry(j);
                        }
                    }
                    assert(self.route_map() =~= old(self).route_map().insert(name@, route));
                }
                return Some(prev.1);
            }
            i = i + 1;
        }
        self.entries.push((name, route));
        proof {
            assert(self.entries@ =~= old_entries.push((name, route)));
            assert forall|p: int, q: int|
                0 <= p < q < self.entries@.len() implies self.entries@[p].0@
                != self.entries@[q].0@ by {
                if q < old_entries.len() {
                    assert(old_entries[p].0@ != old_entries[q].0@);
                }
            }
            assert forall|k: Seq<char>| #![auto]
                self.route_map().contains_key(k) == old(self).route_map().insert(
                    name@,
                    route,
                ).contains_key(k) by {
                if old(self).route_map().insert(name@, route).contains_key(k) {
                    if k == name@ {
                        assert(self.entries@[old_entries.len() as int].0@ == k);
                    } else {
                        let j = choose|j: int|
                            0 <= j < old_entries.len() && old_entries[j].0@ == k;
                        assert(self.entries@[j].0@ == k);
                    }
                }
                if self.route_map().contains_key(k) {
                    let j = choose|j: int|
                        0 <= j < self.entries@.len() && self.entries@[j].0@ == k;
                    if j != old_entries.len() as int {
                        assert(old_entries[j].0@ == k);
                    }
                }
            }
            assert forall|k: Seq<char>| #![auto]
                self.route_map().contains_key(k) implies self.route_map()[k] == old(
                self,
            ).route_map().insert(name@, route)[k] by {
                let j = choose|j: int| 0 <= j < self.entries@.len() && self.entries@[j].0@ == k;
                self.lemma_entry(j);
                if k == name@ {
                    assert(j == old_entries.len() as int);
                } else {
                    old(self).lemma_entry(j);
                }
            }
            assert(self.route_map() =~= old(self).route_map().insert(name@, route));
        }
        None
    }
}

impl<H, MW> Default for MapRouter<H, MW> {
    /// An empty registry.
    fn default() -> (r: Self)
        ensures
            r.wf(),
            r.route_map() == Map::<Seq<char>, Route<H, MW>>::empty(),
    {
        MapRouter::new()
    }
}

} // verus!
