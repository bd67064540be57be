//! The availability reducer and the bounded history ring.
//!
//! An HTTP probe yields a status code; code 0 records a transport failure.
//! The probe's status is green only for code 200 exactly, and every probe,
//! failed or not, appends one record to that endpoint's history ring, a
//! FIFO of fixed capacity.

use vstd::prelude::*;

use crate::status::Status;

verus! {

/// How many availability records are kept per endpoint.
pub const HISTORY_CAPACITY: usize = 3;

/// The status code recorded when the probe could not reach the endpoint
/// at all.
pub const UNREACHABLE_CODE: u16 = 0;

/// One availability outcome: the HTTP status code observed (0 for a
/// transport failure) and the capture timestamp.
#[derive(Debug, PartialEq)]
pub struct StatusRecord {
    pub status_code: u16,
    pub crawl_time: String,
}

impl Clone for StatusRecord {
    fn clone(&self) -> (r: Self)
        ensures
            r == *self,
    {
        StatusRecord { status_code: self.status_code, crawl_time: self.crawl_time.clone() }
    }
}

/// The availability status of one probe: green iff the code is 200
/// exactly; every other code, redirects included, is red.
pub open spec fn availability_status(code: u16) -> Status {
    if code == 200 {
        Status::Green
    } else {
        Status::Red
    }
}

/// The connectivity of one probe: green iff the endpoint answered at all,
/// whatever it answered.
pub open spec fn reachability(code: u16) -> Status {
    if code != UNREACHABLE_CODE {
        Status::Green
    } else {
        Status::Red
    }
}

/// Computes the availability status of one probe outcome.
pub fn availability_status_of(code: u16) -> (s: Status)
    ensures
        s == availability_status(code),
        s == Status::Green <==> code == 200,
{
    if code == 200 {
        Status::Green
    } else {
        Status::Red
    }
}

/// Computes the connectivity of one probe outcome.
pub fn reachability_of(code: u16) -> (s: Status)
    ensures
        s == reachability(code),
        s == Status::Green <==> code != UNREACHABLE_CODE,
{
    if code != UNREACHABLE_CODE {
        Status::Green
    } else {
        Status::Red
    }
}

/// What a full ring holds after one more record: the oldest record leaves,
/// the new one enters at the back.
pub open spec fn ring_push(s: Seq<StatusRecord>, r: StatusRecord) -> Seq<StatusRecord> {
    if s.len() < HISTORY_CAPACITY {
        s.push(r)
    } else {
        s.skip(s.len() - (HISTORY_CAPACITY - 1) as int).push(r)
    }
}

/// The bounded availability history of one endpoint: at most
/// `HISTORY_CAPACITY` records, oldest first, evicted strictly FIFO.
#[derive(Debug, PartialEq)]
pub struct HistoryRing {
    records: Vec<StatusRecord>,
}

impl View for HistoryRing {
    type V = Seq<StatusRecord>;

    closed spec fn view(&self) -> Seq<StatusRecord> {
        self.records@
    }
}

impl HistoryRing {
    /// A ring never holds more than `HISTORY_CAPACITY` records.
    pub open spec fn wf(&self) -> bool {
        self@.len() <= HISTORY_CAPACITY
    }

    /// An empty history.
    pub fn new() -> (r: HistoryRing)
        ensures
            r@ == Seq::<StatusRecord>::empty(),
            r.wf(),
    {
        HistoryRing { records: Vec::new() }
    }

    /// Appends one record, evicting the oldest one when the ring is full.
    pub fn push(&mut self, r: StatusRecord)
        requires
            old(self).wf(),
        ensures
            final(self)@ == ring_push(old(self)@, r),
            final(self).wf(),
    {
        self.records.push(r);
        if self.records.len() > HISTORY_CAPACITY {
            self.records.remove(0);
            proof {
                assert(self.records@ =~= ring_push(old(self)@, r));
            }
        }
    }

    /// A copy of the records, oldest first.
    pub fn records(&self) -> (r: Vec<StatusRecord>)
        ensures
            r@ == self@,
    {
        clone_records(&self.records)
    }

    /// How many records the ring holds.
    pub fn len(&self) -> (n: usize)
        ensures
            n == self@.len(),
    {
        self.records.len()
    }
}

/// One endpoint's name together with its history ring.
struct NamedHistory {
    name: String,
    ring: HistoryRing,
}

/// The histories of all endpoints, keyed by endpoint name. A history
/// survives across cycles, and through failed probes, for as long as it
/// is recorded into.
pub struct Histories {
    entries: Vec<NamedHistory>,
}

/// The map held by a sequence of named histories; a later entry for the
/// same name would win, but well-formed sequences name each endpoint once.
spec fn entries_map(s: Seq<NamedHistory>) -> Map<Seq<char>, Seq<StatusRecord>>
    decreases s.len(),
{
    if s.len() == 0 {
        Map::empty()
    } else {
        entries_map(s.drop_last()).insert(s.last().name@, s.last().ring@)
    }
}

/// No two entries carry the same name.
spec fn unique_names(s: Seq<NamedHistory>) -> bool {
    forall|i: int, j: int| 0 <= i < j < s.len() ==> s[i].name@ != s[j].name@
}

/// Every ring of the sequence is within capacity.
spec fn rings_wf(s: Seq<NamedHistory>) -> bool {
    forall|i: int| 0 <= i < s.len() ==> (#[trigger] s[i]).ring.wf()
}

/// The history an endpoint has after one more record: the record enters
/// at the back of its ring, which starts empty for a name never seen.
pub open spec fn history_after(
    m: Map<Seq<char>, Seq<StatusRecord>>,
    name: Seq<char>,
    rec: StatusRecord,
) -> Seq<StatusRecord> {
    ring_push(
        if m.dom().contains(name) {
            m[name]
        } else {
            Seq::empty()
        },
        rec,
    )
}

impl View for Histories {
    type V = Map<Seq<char>, Seq<StatusRecord>>;

    closed spec fn view(&self) -> Map<Seq<char>, Seq<StatusRecord>> {
        entries_map(self.entries@)
    }
}

impl Histories {
    /// Each endpoint is named once and each ring is within capacity.
    pub closed spec fn wf(&self) -> bool {
        unique_names(self.entries@) && rings_wf(self.entries@)
    }

    /// No histories yet.
    pub fn new() -> (h: Histories)
        ensures
            h.wf(),
            h@ == Map::<Seq<char>, Seq<StatusRecord>>::empty(),
    {
        Histories { entries: Vec::new() }
    }

    /// Appends one availability record to the named endpoint's ring,
    /// creating the ring when the name is new, and returns a copy of the
    /// ring as it stands after the append. No other endpoint's history
    /// changes.
    pub fn record(&mut self, name: &String, rec: StatusRecord) -> (h: Vec<StatusRecord>)
        requires
            old(self).wf(),
        ensures
            final(self).wf(),
            final(self)@ == old(self)@.insert(name@, history_after(old(self)@, name@, rec)),
            h@ == history_after(old(self)@, name@, rec),
    {
        let ghost s0 = self.entries@;
        let n = self.entries.len();
        let mut i: usize = 0;
        while i < n
            invariant
                n == self.entries@.len(),
                i <= n,
                forall|j: int| 0 <= j < i ==> self.entries@[j].name@ != name@,
                self.entries@ == s0,
                s0 == old(self).entries@,
                unique_names(s0),
                rings_wf(s0),
            decreases n - i,
        {
            if self.entries[i].name == *name {
                proof {
                    lemma_entries_map_present(s0, i as int);
                }
                let mut entry = self.entries.remove(i);
                entry.ring.push(rec);
                let h = entry.ring.records();
                self.entries.insert(i, entry);
                proof {
                    let e = self.entries@[i as int];
                    assert(self.entries@ =~= s0.update(i as int, e));
                    lemma_entries_map_update(s0, i as int, e);
                    assert(history_after(entries_map(s0), name@, rec) == ring_push(
                        s0[i as int].ring@,
                        rec,
                    ));
                    assert(entries_map(self.entries@) =~= entries_map(s0).insert(
                        name@,
                        history_after(entries_map(s0), name@, rec),
                    ));
                    assert(unique_names(self.entries@));
                }
                return h;
            }
            i = i + 1;
        }
        proof {
            lemma_entries_map_absent(s0, name@);
        }
        let mut ring = HistoryRing::new();
        ring.push(rec);
        let h = ring.records();
        self.entries.push(NamedHistory { name: name.clone(), ring });
        proof {
            assert(self.entries@.drop_last() =~= s0);
            assert(forall|j: int|
                0 <= j < s0.len() ==> (#[trigger] self.entries@[j]) == s0[j]);
            assert(unique_names(self.entries@));
            assert(rings_wf(self.entries@));
        }
        h
    }
}

/// No endpoint's history ever exceeds the ring capacity.
pub proof fn lemma_history_bounded(h: &Histories)
    requires
        h.wf(),
    ensures
        forall|name: Seq<char>| #[trigger]
            h@.dom().contains(name) ==> h@[name].len() <= HISTORY_CAPACITY,
{
    lemma_entries_map_bounded(h.entries@);
}

/// Every history in the map of a capacity-respecting sequence is within
/// capacity.
proof fn lemma_entries_map_bounded(s: Seq<NamedHistory>)
    requires
        rings_wf(s),
    ensures
        forall|name: Seq<char>| #[trigger]
            entries_map(s).dom().contains(name) ==> entries_map(s)[name].len()
                <= HISTORY_CAPACITY,
    decreases s.len(),
{
    if s.len() > 0 {
        assert(forall|i: int| 0 <= i < s.drop_last().len() ==> s.drop_last()[i] == s[i]);
        lemma_entries_map_bounded(s.drop_last());
        assert forall|name: Seq<char>| #[trigger]
            entries_map(s).dom().contains(name) implies entries_map(s)[name].len()
            <= HISTORY_CAPACITY by {
            if name == s.last().name@ {
                assert(s[s.len() - 1].ring.wf());
            } else {
                assert(entries_map(s)[name] == entries_map(s.drop_last())[name]);
            }
        }
    }
}

/// In a uniquely-named sequence, the map holds each entry's ring under
/// its name.
proof fn lemma_entries_map_present(s: Seq<NamedHistory>, i: int)
    requires
        unique_names(s),
        0 <= i < s.len(),
    ensures
        entries_map(s).dom().contains(s[i].name@),
        entries_map(s)[s[i].name@] == s[i].ring@,
    decreases s.len(),
{
    if i == s.len() - 1 {
    } else {
        assert(s.drop_last()[i] == s[i]);
        lemma_entries_map_present(s.drop_last(), i);
        assert(s[i].name@ != s.last().name@);
    }
}

/// A name no entry carries is not in the map.
proof fn lemma_entries_map_absent(s: Seq<NamedHistory>, name: Seq<char>)
    requires
        forall|i: int| 0 <= i < s.len() ==> s[i].name@ != name,
    ensures
        !entries_map(s).dom().contains(name),
    decreases s.len(),
{
    if s.len() > 0 {
        assert(forall|i: int| 0 <= i < s.drop_last().len() ==> s.drop_last()[i] == s[i]);
        lemma_entries_map_absent(s.drop_last(), name);
    }
}

/// Replacing one entry by another of the same name updates the map at
/// that name alone.
proof fn lemma_entries_map_update(s: Seq<NamedHistory>, i: int, e: NamedHistory)
    requires
        unique_names(s),
        0 <= i < s.len(),
        e.name@ == s[i].name@,
    ensures
        entries_map(s.update(i, e)) =~= entries_map(s).insert(e.name@, e.ring@),
    decreases s.len(),
{
    let t = s.update(i, e);
    if i == s.len() - 1 {
        assert(t.drop_last() =~= s.drop_last());
        assert(t.last() == e);
    } else {
        assert(t.drop_last() =~= s.drop_last().update(i, e));
        assert(t.last() == s.last());
        assert(forall|p: int, q: int|
            0 <= p < q < s.drop_last().len() ==> s.drop_last()[p] == s[p] && s.drop_last()[q]
                == s[q]);
        lemma_entries_map_update(s.drop_last(), i, e);
        assert(s.drop_last()[i] == s[i]);
        assert(e.name@ != s.last().name@);
    }
}

/// Copies a sequence of records.
pub(crate) fn clone_records(v: &Vec<StatusRecord>) -> (r: Vec<StatusRecord>)
    ensures
        r@ == v@,
{
    let mut r: Vec<StatusRecord> = Vec::new();
    let mut i: usize = 0;
    while i < v.len()
        invariant
            i <= v@.len(),
            r@ =~= v@.subrange(0, i as int),
        decreases v@.len() - i,
    {
        r.push(v[i].clone());
        i = i + 1;
    }
    proof {
        assert(r@ =~= v@);
    }
    r
}

} // verus!
