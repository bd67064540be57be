//! The snapshot store: the last fully computed result set.
//!
//! One writer, the poll cycle, replaces the whole snapshot exactly once
//! per completed cycle; readers take a copy and never see a write in
//! progress. Each stored result carries, as ghost state, the number of
//! the cycle that computed it; well-formedness pins every tag to the
//! cycle of the last publication, so a snapshot can never mix results of
//! two cycles.

use vstd::prelude::*;

use crate::engine::{same_result_content, EndpointResult};

verus! {

/// The ordered collection of all endpoint results of the most recently
/// completed poll cycle.
pub struct SnapshotStore {
    results: Vec<EndpointResult>,
    /// How many publications have happened: the number of the current
    /// cycle.
    cycle: Ghost<nat>,
    /// For each stored result, the cycle that computed it.
    tags: Ghost<Seq<nat>>,
}

impl SnapshotStore {
    /// The published results, in order.
    pub closed spec fn results_seq(&self) -> Seq<EndpointResult> {
        self.results@
    }

    /// The number of the cycle whose results are current.
    pub closed spec fn cycle(&self) -> nat {
        self.cycle@
    }

    /// The cycle that computed the result at this position.
    pub closed spec fn tag(&self, i: int) -> nat {
        self.tags@[i]
    }

    /// Every stored result was computed by the current cycle.
    pub closed spec fn wf(&self) -> bool {
        &&& self.tags@.len() == self.results@.len()
        &&& forall|i: int| 0 <= i < self.tags@.len() ==> self.tags@[i] == self.cycle@
    }

    /// An empty store, before any cycle has published.
    pub fn new() -> (s: SnapshotStore)
        ensures
            s.wf(),
            s.results_seq() == Seq::<EndpointResult>::empty(),
            s.cycle() == 0,
    {
        SnapshotStore { results: Vec::new(), cycle: Ghost(0nat), tags: Ghost(Seq::empty()) }
    }

    /// Atomically replaces the whole snapshot with one cycle's full
    /// result set; nothing of the prior cycle survives.
    pub fn publish(&mut self, results: Vec<EndpointResult>)
        requires
            old(self).wf(),
        ensures
            final(self).wf(),
            final(self).results_seq() == results@,
            final(self).cycle() == old(self).cycle() + 1,
            forall|i: int| 0 <= i < results@.len() ==> final(self).tag(i) == final(self).cycle(),
    {
        let ghost next = self.cycle@ + 1;
        self.results = results;
        proof {
            self.cycle@ = next;
            self.tags@ = Seq::new(results@.len(), |i: int| next);
        }
    }

    /// A copy of the current snapshot: the complete result set of one
    /// cycle, never a partial or mixed view.
    pub fn read(&self) -> (r: Vec<EndpointResult>)
        ensures
            r@.len() == self.results_seq().len(),
            forall|i: int|
                0 <= i < r@.len() ==> same_result_content(self.results_seq()[i], r@[i]),
    {
        let mut r: Vec<EndpointResult> = Vec::new();
        let mut i: usize = 0;
        let n = self.results.len();
        while i < n
            invariant
                n == self.results@.len(),
                i <= n,
                r@.len() == i,
                forall|j: int| 0 <= j < i ==> same_result_content(self.results@[j], r@[j]),
            decreases n - i,
        {
            r.push(self.results[i].clone());
            i = i + 1;
        }
        r
    }

    /// How many results the current snapshot holds.
    pub fn len(&self) -> (n: usize)
        ensures
            n == self.results_seq().len(),
    {
        self.results.len()
    }

    /// A snapshot never mixes two cycles: any two results it holds were
    /// computed by the same cycle.
    pub proof fn lemma_snapshot_single_cycle(&self)
        requires
            self.wf(),
        ensures
            forall|i: int, j: int|
                0 <= i < self.results_seq().len() && 0 <= j < self.results_seq().len()
                    ==> self.tag(i) == self.tag(j),
    {
    }
}

} // verus!
