//! The registry of monitored endpoints.
//!
//! An ordered list of named targets. Names are unique: an addition under
//! a name already present is rejected and changes nothing, and a removal
//! of an absent name is a no-op. Persisting the list is the caller's
//! concern; every operation here reports exactly what changed.

use vstd::prelude::*;

verus! {

/// What kind of target an endpoint is: a host running a metrics agent,
/// or a plain HTTP target probed for availability only.
#[derive(Clone, Copy, Debug, PartialEq, Eq, Structural)]
pub enum EndpointKind {
    MetricsSource,
    HttpProbe,
}

/// One monitored target: a unique name, an address, and a kind.
#[derive(Debug, PartialEq)]
pub struct Endpoint {
    pub name: String,
    pub address: String,
    pub kind: EndpointKind,
}

impl Clone for Endpoint {
    fn clone(&self) -> (r: Self)
        ensures
            r == *self,
    {
        Endpoint {
            name: self.name.clone(),
            address: self.address.clone(),
            kind: self.kind,
        }
    }
}

/// Whether some endpoint of the list carries this name.
pub open spec fn contains_name(s: Seq<Endpoint>, name: Seq<char>) -> bool {
    exists|i: int| 0 <= i < s.len() && s[i].name@ == name
}

/// No two endpoints of the list carry the same name.
pub open spec fn unique_names(s: Seq<Endpoint>) -> bool {
    forall|i: int, j: int| 0 <= i < j < s.len() ==> s[i].name@ != s[j].name@
}

/// The list without every endpoint of the given name, order kept.
pub open spec fn remove_named(s: Seq<Endpoint>, name: Seq<char>) -> Seq<Endpoint>
    decreases s.len(),
{
    if s.len() == 0 {
        Seq::empty()
    } else if s.last().name@ == name {
        remove_named(s.drop_last(), name)
    } else {
        remove_named(s.drop_last(), name).push(s.last())
    }
}

/// The list with every endpoint whose name already occurred earlier
/// dropped: the first occurrence of each name wins.
pub open spec fn dedup_names(s: Seq<Endpoint>) -> Seq<Endpoint>
    decreases s.len(),
{
    if s.len() == 0 {
        Seq::empty()
    } else if contains_name(s.drop_last(), s.last().name@) {
        dedup_names(s.drop_last())
    } else {
        dedup_names(s.drop_last()).push(s.last())
    }
}

/// The registry of monitored endpoints, in insertion order.
pub struct Registry {
    endpoints: Vec<Endpoint>,
}

impl View for Registry {
    type V = Seq<Endpoint>;

    closed spec fn view(&self) -> Seq<Endpoint> {
        self.endpoints@
    }
}

impl Registry {
    /// Endpoint names are unique in the registry at all times.
    pub open spec fn wf(&self) -> bool {
        unique_names(self@)
    }

    /// An empty registry.
    pub fn new() -> (r: Registry)
        ensures
            r@ == Seq::<Endpoint>::empty(),
            r.wf(),
    {
        Registry { endpoints: Vec::new() }
    }

    /// How many endpoints are registered.
    pub fn len(&self) -> (n: usize)
        ensures
            n == self@.len(),
    {
        self.endpoints.len()
    }

    /// Adds an endpoint at the end of the list. An endpoint under a name
    /// already present is rejected: the registry is left unchanged and
    /// the addition reports the conflict by returning false.
    pub fn add(&mut self, e: Endpoint) -> (ok: bool)
        requires
            old(self).wf(),
        ensures
            final(self).wf(),
            ok <==> !contains_name(old(self)@, e.name@),
            ok ==> final(self)@ == old(self)@.push(e),
            !ok ==> final(self)@ == old(self)@,
    {
        let ghost s0 = self.endpoints@;
        let n = self.endpoints.len();
        let mut i: usize = 0;
        while i < n
            invariant
                n == self.endpoints@.len(),
                i <= n,
                self.endpoints@ == s0,
                s0 == old(self).endpoints@,
                unique_names(s0),
                forall|j: int| 0 <= j < i ==> self.endpoints@[j].name@ != e.name@,
            decreases n - i,
        {
            if self.endpoints[i].name == e.name {
                proof {
                    assert(contains_name(s0, e.name@)) by {
                        assert(s0[i as int].name@ == e.name@);
                    }
                }
                return false;
            }
            i = i + 1;
        }
        self.endpoints.push(e);
        proof {
            assert(forall|j: int| 0 <= j < s0.len() ==> (#[trigger] self.endpoints@[j]) == s0[j]);
        }
        true
    }

    /// Removes every endpoint of the given name, keeping the order of the
    /// rest. Removing an absent name is a no-op; the operation always
    /// succeeds.
    pub fn remove(&mut self, name: &String)
        requires
            old(self).wf(),
        ensures
            final(self).wf(),
            final(self)@ == remove_named(old(self)@, name@),
            !contains_name(old(self)@, name@) ==> final(self)@ == old(self)@,
    {
        let ghost s0 = self.endpoints@;
        let n = self.endpoints.len();
        let mut kept: Vec<Endpoint> = Vec::new();
        let mut i: usize = 0;
        while i < n
            invariant
                n == self.endpoints@.len(),
                i <= n,
                self.endpoints@ == s0,
                kept@ == remove_named(s0.subrange(0, i as int), name@),
            decreases n - i,
        {
            proof {
                assert(s0.subrange(0, i + 1).drop_last() =~= s0.subrange(0, i as int));
                assert(s0.subrange(0, i + 1).last() == s0[i as int]);
            }
            if !(self.endpoints[i].name == *name) {
                let e = self.endpoints[i].clone();
                kept.push(e);
            }
            i = i + 1;
        }
        proof {
            assert(s0.subrange(0, n as int) =~= s0);
            lemma_remove_named_props(s0, name@);
        }
        self.endpoints = kept;
    }

    /// A copy of the full list, in order: the by-value snapshot a poll
    /// cycle works from.
    pub fn list(&self) -> (r: Vec<Endpoint>)
        ensures
            r@ == self@,
    {
        let mut r: Vec<Endpoint> = Vec::new();
        let mut i: usize = 0;
        let n = self.endpoints.len();
        while i < n
            invariant
                n == self.endpoints@.len(),
                i <= n,
                r@ =~= self.endpoints@.subrange(0, i as int),
            decreases n - i,
        {
            r.push(self.endpoints[i].clone());
            i = i + 1;
        }
        proof {
            assert(r@ =~= self.endpoints@);
        }
        r
    }

    /// Builds a registry from a stored list, dropping any entry whose
    /// name occurred earlier in the list: what a process start loads.
    pub fn from_list(list: &Vec<Endpoint>) -> (r: Registry)
        ensures
            r.wf(),
            r@ == dedup_names(list@),
    {
        let mut r = Registry::new();
        let mut i: usize = 0;
        let n = list.len();
        while i < n
            invariant
                n == list@.len(),
                i <= n,
                r.wf(),
                r@ == dedup_names(list@.subrange(0, i as int)),
            decreases n - i,
        {
            proof {
                assert(list@.subrange(0, i + 1).drop_last() =~= list@.subrange(0, i as int));
                assert(list@.subrange(0, i + 1).last() == list@[i as int]);
                lemma_dedup_same_names(list@.subrange(0, i as int));
            }
            let e = list[i].clone();
            r.add(e);
            i = i + 1;
        }
        proof {
            assert(list@.subrange(0, n as int) =~= list@);
        }
        r
    }
}

/// What removal leaves: only and all the endpoints of other names, order
/// kept, uniqueness kept; removing an absent name changes nothing.
pub proof fn lemma_remove_named_props(s: Seq<Endpoint>, name: Seq<char>)
    ensures
        forall|x: Endpoint| #[trigger]
            remove_named(s, name).contains(x) ==> s.contains(x) && x.name@ != name,
        unique_names(s) ==> unique_names(remove_named(s, name)),
        !contains_name(s, name) ==> remove_named(s, name) =~= s,
    decreases s.len(),
{
    if s.len() > 0 {
        let d = s.drop_last();
        lemma_remove_named_props(d, name);
        assert(forall|x: Endpoint| #[trigger] d.contains(x) ==> s.contains(x));
        let r = remove_named(s, name);
        if s.last().name@ == name {
            assert(contains_name(s, name));
        } else {
            let rd = remove_named(d, name);
            assert(forall|x: Endpoint| #[trigger] r.contains(x) ==> rd.contains(x) || x == s.last());
            assert(s.contains(s.last()));
            if unique_names(s) {
                assert(unique_names(d));
                assert forall|i: int, j: int| 0 <= i < j < r.len() implies r[i].name@ != r[j].name@ by {
                    if j == r.len() - 1 {
                        assert(r[j] == s.last());
                        assert(rd.contains(r[i]));
                        let k = choose|k: int| 0 <= k < d.len() && d[k] == r[i];
                        assert(s[k] == r[i]);
                        assert(s[k].name@ != s[s.len() - 1].name@);
                    } else {
                        assert(r[i] == rd[i] && r[j] == rd[j]);
                    }
                }
            }
            if !contains_name(s, name) {
                assert(!contains_name(d, name)) by {
                    if contains_name(d, name) {
                        let k = choose|k: int| 0 <= k < d.len() && d[k].name@ == name;
                        assert(s[k].name@ == name);
                    }
                }
                assert(rd =~= d);
                assert(r =~= s);
            }
        }
    }
}

/// Dropping duplicate names keeps exactly the set of names.
pub proof fn lemma_dedup_same_names(s: Seq<Endpoint>)
    ensures
        forall|n: Seq<char>| contains_name(dedup_names(s), n) <==> contains_name(s, n),
    decreases s.len(),
{
    if s.len() > 0 {
        let d = s.drop_last();
        lemma_dedup_same_names(d);
        assert forall|n: Seq<char>| contains_name(dedup_names(s), n) <==> contains_name(s, n) by {
            assert(contains_name(s, n) <==> contains_name(d, n) || s.last().name@ == n) by {
                if contains_name(s, n) {
                    let k = choose|k: int| 0 <= k < s.len() && s[k].name@ == n;
                    if k < s.len() - 1 {
                        assert(d[k].name@ == n);
                    }
                } else {
                    if contains_name(d, n) {
                        let k = choose|k: int| 0 <= k < d.len() && d[k].name@ == n;
                        assert(s[k].name@ == n);
                    }
                }
            }
            if contains_name(d, s.last().name@) {
                assert(dedup_names(s) == dedup_names(d));
            } else {
                let dd = dedup_names(d);
                assert(dedup_names(s) == dd.push(s.last()));
                assert(contains_name(dd.push(s.last()), n) <==> contains_name(dd, n)
                    || s.last().name@ == n) by {
                    if contains_name(dd.push(s.last()), n) {
                        let k = choose|k: int|
                            0 <= k < dd.push(s.last()).len() && dd.push(s.last())[k].name@ == n;
                        if k < dd.len() {
                            assert(dd[k].name@ == n);
                        }
                    } else {
                        if contains_name(dd, n) {
                            let k = choose|k: int| 0 <= k < dd.len() && dd[k].name@ == n;
                            assert(dd.push(s.last())[k].name@ == n);
                        } else if s.last().name@ == n {
                            assert(dd.push(s.last()).last().name@ == n);
                        }
                    }
                }
            }
        }
    }
}

} // verus!
