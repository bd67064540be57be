//! The per-endpoint probe reduction.
//!
//! A poll cycle hands each endpoint's raw probe outcome to one of the
//! reducers here and collects the published per-endpoint results. The
//! reducers are total: every outcome, transport failure included, yields
//! one result, and no endpoint's failure touches any other endpoint.

use vstd::prelude::*;
use vstd::string::StrSliceExecFns;
use vstd::string::StringExecFns;

use crate::availability::{
    availability_status, availability_status_of, clone_records, history_after, reachability,
    reachability_of, Histories, StatusRecord,
};
use crate::clock::now_timestamp;
use crate::metrics::{
    disk_status_of, reduce_metrics, report_matches, same_report_content, MetricsReport,
    SystemMetrics,
};
use crate::registry::{Endpoint, EndpointKind};
use crate::status::{level_status, overall_of, overall_status_of, CategoryStatuses, Status};

verus! {

/// The classified outcome of one metrics probe: the endpoint answered
/// with a payload that parsed, answered with one that did not, or could
/// not be reached within the timeout.
#[derive(Debug, PartialEq)]
pub enum MetricsProbeOutcome {
    Unreachable,
    BadPayload,
    Payload(SystemMetrics),
}

/// The published outcome of one endpoint's probe for one cycle.
#[derive(Debug, PartialEq)]
pub struct EndpointResult {
    pub endpoint: Endpoint,
    /// The computed metrics; absent for an HTTP probe and on any failure.
    pub metrics: Option<MetricsReport>,
    /// The visible category statuses.
    pub categories: CategoryStatuses,
    /// Red iff some visible category status is red.
    pub overall_status: Status,
    /// Red iff the endpoint could not be reached at all, independent of
    /// any threshold-governed status.
    pub connectivity: Status,
    /// The capture timestamp.
    pub crawl_time: String,
    /// The availability history, oldest first; present only for an HTTP
    /// probe.
    pub history: Option<Vec<StatusRecord>>,
}

/// Whether two results carry the same content: same endpoint, statuses,
/// timestamp, metrics content and history records.
pub open spec fn same_result_content(a: EndpointResult, b: EndpointResult) -> bool {
    &&& a.endpoint == b.endpoint
    &&& match (a.metrics, b.metrics) {
        (Some(x), Some(y)) => same_report_content(x, y),
        (None, None) => true,
        _ => false,
    }
    &&& a.categories == b.categories
    &&& a.overall_status == b.overall_status
    &&& a.connectivity == b.connectivity
    &&& a.crawl_time == b.crawl_time
    &&& match (a.history, b.history) {
        (Some(x), Some(y)) => x@ == y@,
        (None, None) => true,
        _ => false,
    }
}

impl Clone for EndpointResult {
    fn clone(&self) -> (r: Self)
        ensures
            same_result_content(*self, r),
    {
        let metrics = match &self.metrics {
            Some(report) => Some(report.clone()),
            None => None,
        };
        let history = match &self.history {
            Some(records) => Some(clone_records(records)),
            None => None,
        };
        EndpointResult {
            endpoint: self.endpoint.clone(),
            metrics,
            categories: self.categories,
            overall_status: self.overall_status,
            connectivity: self.connectivity,
            crawl_time: self.crawl_time.clone(),
            history,
        }
    }
}

/// What a successful metrics reduction publishes: computed metrics, the
/// three category statuses from the payload's percentages, green
/// connectivity, and no history.
pub open spec fn metrics_result_ok(
    e: Endpoint,
    m: SystemMetrics,
    crawl: Seq<char>,
    r: EndpointResult,
) -> bool {
    &&& r.endpoint == e
    &&& r.metrics is Some && report_matches(m, r.metrics->0)
    &&& r.categories == CategoryStatuses::Metrics {
        disk: disk_status_of(m.disk_usage@),
        cpu: level_status(m.cpu_usage),
        memory: level_status(m.memory_percent),
    }
    &&& r.overall_status == overall_of(r.categories)
    &&& r.connectivity == Status::Green
    &&& r.crawl_time@ == crawl
    &&& r.history is None
}

/// What a failed metrics probe publishes: no metrics, every category red,
/// overall red, and connectivity red exactly when the endpoint was not
/// reached at all (an unparseable payload still counts as reached).
pub open spec fn metrics_result_failed(
    e: Endpoint,
    reached: bool,
    crawl: Seq<char>,
    r: EndpointResult,
) -> bool {
    &&& r.endpoint == e
    &&& r.metrics is None
    &&& r.categories == CategoryStatuses::Metrics {
        disk: Status::Red,
        cpu: Status::Red,
        memory: Status::Red,
    }
    &&& r.overall_status == Status::Red
    &&& r.connectivity == if reached {
        Status::Green
    } else {
        Status::Red
    }
    &&& r.crawl_time@ == crawl
    &&& r.history is None
}

/// What one metrics probe outcome publishes.
pub open spec fn metrics_result_matches(
    e: Endpoint,
    outcome: MetricsProbeOutcome,
    crawl: Seq<char>,
    r: EndpointResult,
) -> bool {
    match outcome {
        MetricsProbeOutcome::Unreachable => metrics_result_failed(e, false, crawl, r),
        MetricsProbeOutcome::BadPayload => metrics_result_failed(e, true, crawl, r),
        MetricsProbeOutcome::Payload(m) => metrics_result_ok(e, m, crawl, r),
    }
}

/// The metric reducer for one endpoint and one classified probe outcome,
/// at a given capture timestamp.
pub fn metrics_endpoint_result(
    endpoint: Endpoint,
    outcome: MetricsProbeOutcome,
    crawl_time: String,
) -> (r: EndpointResult)
    requires
        endpoint.kind == EndpointKind::MetricsSource,
    ensures
        metrics_result_matches(endpoint, outcome, crawl_time@, r),
        r.overall_status == overall_of(r.categories),
        r.crawl_time == crawl_time,
{
    match outcome {
        MetricsProbeOutcome::Payload(m) => {
            let report = reduce_metrics(&m);
            let categories = CategoryStatuses::Metrics {
                disk: report.disk_status,
                cpu: report.cpu_status,
                memory: report.memory_status,
            };
            let overall_status = overall_status_of(&categories);
            EndpointResult {
                endpoint,
                metrics: Some(report),
                categories,
                overall_status,
                connectivity: Status::Green,
                crawl_time,
                history: None,
            }
        },
        MetricsProbeOutcome::BadPayload => failed_metrics_result(endpoint, true, crawl_time),
        MetricsProbeOutcome::Unreachable => failed_metrics_result(endpoint, false, crawl_time),
    }
}

/// The result a failed metrics probe publishes.
fn failed_metrics_result(endpoint: Endpoint, reached: bool, crawl_time: String) -> (r:
    EndpointResult)
    ensures
        metrics_result_failed(endpoint, reached, crawl_time@, r),
        r.overall_status == overall_of(r.categories),
        r.crawl_time == crawl_time,
{
    EndpointResult {
        endpoint,
        metrics: None,
        categories: CategoryStatuses::Metrics {
            disk: Status::Red,
            cpu: Status::Red,
            memory: Status::Red,
        },
        overall_status: Status::Red,
        connectivity: if reached {
            Status::Green
        } else {
            Status::Red
        },
        crawl_time,
        history: None,
    }
}

/// What one HTTP probe outcome publishes, given the history the endpoint
/// has after this probe's record: the single collapsed availability
/// status, green connectivity unless the probe recorded a transport
/// failure, no metrics, and the updated history.
pub open spec fn http_result_matches(
    e: Endpoint,
    code: u16,
    crawl: Seq<char>,
    hist: Seq<StatusRecord>,
    r: EndpointResult,
) -> bool {
    &&& r.endpoint == e
    &&& r.metrics is None
    &&& r.categories == CategoryStatuses::Availability { status: availability_status(code) }
    &&& r.overall_status == availability_status(code)
    &&& r.connectivity == reachability(code)
    &&& r.crawl_time@ == crawl
    &&& r.history is Some && (r.history->0)@ == hist
}

/// The availability reducer for one endpoint and one observed status code
/// (0 for a transport failure), at a given capture timestamp. The record
/// enters the endpoint's history even on a transport failure, and no
/// other endpoint's history changes.
pub fn http_endpoint_result(
    endpoint: Endpoint,
    status_code: u16,
    crawl_time: String,
    histories: &mut Histories,
) -> (r: EndpointResult)
    requires
        endpoint.kind == EndpointKind::HttpProbe,
        old(histories).wf(),
    ensures
        final(histories).wf(),
        final(histories)@ == old(histories)@.insert(
            endpoint.name@,
            history_after(
                old(histories)@,
                endpoint.name@,
                StatusRecord { status_code, crawl_time },
            ),
        ),
        http_result_matches(
            endpoint,
            status_code,
            crawl_time@,
            final(histories)@[endpoint.name@],
            r,
        ),
        r.overall_status == overall_of(r.categories),
        r.crawl_time == crawl_time,
{
    let record = StatusRecord { status_code, crawl_time: crawl_time.clone() };
    let history = histories.record(&endpoint.name, record);
    let status = availability_status_of(status_code);
    let categories = CategoryStatuses::Availability { status };
    let overall_status = overall_status_of(&categories);
    let connectivity = reachability_of(status_code);
    EndpointResult {
        endpoint,
        metrics: None,
        categories,
        overall_status,
        connectivity,
        crawl_time,
        history: Some(history),
    }
}

/// The metric reducer with the capture timestamp taken from the clock;
/// everything but the timestamp is pinned down.
pub fn poll_metrics_source(endpoint: Endpoint, outcome: MetricsProbeOutcome) -> (r:
    EndpointResult)
    requires
        endpoint.kind == EndpointKind::MetricsSource,
    ensures
        metrics_result_matches(endpoint, outcome, r.crawl_time@, r),
        r.overall_status == overall_of(r.categories),
{
    let crawl_time = now_timestamp();
    metrics_endpoint_result(endpoint, outcome, crawl_time)
}

/// The availability reducer with the capture timestamp taken from the
/// clock; everything but the timestamp is pinned down.
pub fn poll_http_probe(endpoint: Endpoint, status_code: u16, histories: &mut Histories) -> (r:
    EndpointResult)
    requires
        endpoint.kind == EndpointKind::HttpProbe,
        old(histories).wf(),
    ensures
        final(histories).wf(),
        final(histories)@ == old(histories)@.insert(
            endpoint.name@,
            history_after(
                old(histories)@,
                endpoint.name@,
                StatusRecord { status_code, crawl_time: r.crawl_time },
            ),
        ),
        http_result_matches(
            endpoint,
            status_code,
            r.crawl_time@,
            final(histories)@[endpoint.name@],
            r,
        ),
        r.overall_status == overall_of(r.categories),
{
    let crawl_time = now_timestamp();
    http_endpoint_result(endpoint, status_code, crawl_time, histories)
}

/// Whether a sequence of characters starts with the given prefix.
pub open spec fn is_prefix(prefix: Seq<char>, s: Seq<char>) -> bool {
    prefix.len() <= s.len() && s.subrange(0, prefix.len() as int) == prefix
}

/// Whether an address already names its scheme.
pub open spec fn has_scheme(s: Seq<char>) -> bool {
    is_prefix("http://"@, s) || is_prefix("https://"@, s)
}

/// Whether a string starts with the given prefix.
fn str_starts_with(s: &str, prefix: &str) -> (b: bool)
    ensures
        b == is_prefix(prefix@, s@),
{
    let n = prefix.unicode_len();
    if s.unicode_len() < n {
        proof {
            assert(!is_prefix(prefix@, s@));
        }
        return false;
    }
    let mut i: usize = 0;
    while i < n
        invariant
            n == prefix@.len(),
            n <= s@.len(),
            i <= n,
            forall|j: int| 0 <= j < i ==> s@[j] == prefix@[j],
        decreases n - i,
    {
        if s.get_char(i) != prefix.get_char(i) {
            proof {
                assert(s@.subrange(0, n as int)[i as int] == s@[i as int]);
                assert(!is_prefix(prefix@, s@));
            }
            return false;
        }
        i = i + 1;
    }
    proof {
        assert(s@.subrange(0, n as int) =~= prefix@);
    }
    true
}

/// Normalizes an endpoint address to a URL: an address without a scheme
/// is probed over plain HTTP; one that names its scheme is kept as it
/// stands.
pub fn normalize_address(address: &String) -> (url: String)
    ensures
        has_scheme(address@) ==> url@ == address@,
        !has_scheme(address@) ==> url@ == "http://"@ + address@,
{
    if str_starts_with(address.as_str(), "http://") || str_starts_with(
        address.as_str(),
        "https://",
    ) {
        address.clone()
    } else {
        let mut url = String::from_str("http://");
        url.append(address.as_str());
        url
    }
}

/// One alertable category of a red endpoint.
#[derive(Clone, Copy, Debug, PartialEq, Eq, Structural)]
pub enum AlertCategory {
    Disk,
    Cpu,
    Memory,
    Availability,
}

/// The red categories of a result's visible statuses, in publication
/// order.
pub open spec fn red_category_seq(c: CategoryStatuses) -> Seq<AlertCategory> {
    match c {
        CategoryStatuses::Metrics { disk, cpu, memory } => (if disk == Status::Red {
            seq![AlertCategory::Disk]
        } else {
            Seq::empty()
        }) + (if cpu == Status::Red {
            seq![AlertCategory::Cpu]
        } else {
            Seq::empty()
        }) + (if memory == Status::Red {
            seq![AlertCategory::Memory]
        } else {
            Seq::empty()
        }),
        CategoryStatuses::Availability { status } => {
            if status == Status::Red {
                seq![AlertCategory::Availability]
            } else {
                Seq::empty()
            }
        },
    }
}

/// Lists the red categories an alert names, in publication order.
pub fn red_categories(c: &CategoryStatuses) -> (v: Vec<AlertCategory>)
    ensures
        v@ == red_category_seq(*c),
{
    let mut v: Vec<AlertCategory> = Vec::new();
    match c {
        CategoryStatuses::Metrics { disk, cpu, memory } => {
            if *disk == Status::Red {
                v.push(AlertCategory::Disk);
            }
            if *cpu == Status::Red {
                v.push(AlertCategory::Cpu);
            }
            if *memory == Status::Red {
                v.push(AlertCategory::Memory);
            }
            proof {
                assert(v@ =~= red_category_seq(*c));
            }
        },
        CategoryStatuses::Availability { status } => {
            if *status == Status::Red {
                v.push(AlertCategory::Availability);
            }
            proof {
                assert(v@ =~= red_category_seq(*c));
            }
        },
    }
    v
}

/// Whether this cycle's result calls for an alert: exactly when the
/// overall status is red. A continuously red endpoint alerts every
/// cycle; there is no deduplication across cycles.
pub fn alert_needed(r: &EndpointResult) -> (b: bool)
    ensures
        b <==> r.overall_status == Status::Red,
{
    r.overall_status == Status::Red
}

} // verus!
