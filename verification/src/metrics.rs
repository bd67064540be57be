//! Raw metrics payloads and the metric reducer.
//!
//! A metrics source reports disks, per-core CPU figures and memory in one
//! payload. The reducer turns that payload into per-component statuses and
//! three category statuses, each red exactly when its governing percentage
//! strictly exceeds the fixed threshold. All percentages are integers in
//! hundredths of a percent.

use vstd::arithmetic::div_mod::lemma_div_is_ordered;
use vstd::prelude::*;

use crate::status::{level_status, status_for_level, Status, THRESHOLD_HUNDREDTHS};

verus! {

/// One disk of a raw metrics payload. `used_percent` is in hundredths of
/// a percent.
#[derive(Debug, PartialEq)]
pub struct DiskUsage {
    pub mount_point: String,
    pub total: u64,
    pub used: u64,
    pub used_percent: u64,
}

impl Clone for DiskUsage {
    fn clone(&self) -> (r: Self)
        ensures
            r == *self,
    {
        DiskUsage {
            mount_point: self.mount_point.clone(),
            total: self.total,
            used: self.used,
            used_percent: self.used_percent,
        }
    }
}

/// One CPU core of a raw metrics payload. `cpu_usage` is in hundredths of
/// a percent; `frequency` is in MHz.
#[derive(Debug, PartialEq)]
pub struct CpuInfo {
    pub name: String,
    pub cpu_usage: u64,
    pub frequency: u64,
}

impl Clone for CpuInfo {
    fn clone(&self) -> (r: Self)
        ensures
            r == *self,
    {
        CpuInfo { name: self.name.clone(), cpu_usage: self.cpu_usage, frequency: self.frequency }
    }
}

/// The raw payload of one successful metrics probe. `cpu_usage` and
/// `memory_percent` are in hundredths of a percent.
#[derive(Debug, PartialEq)]
pub struct SystemMetrics {
    pub disk_usage: Vec<DiskUsage>,
    pub cpu_usage: u64,
    pub cpus: Vec<CpuInfo>,
    pub total_memory: u64,
    pub used_memory: u64,
    pub memory_percent: u64,
}

/// One disk together with its computed status.
#[derive(Debug, PartialEq)]
pub struct ComputedDiskUsage {
    pub mount_point: String,
    pub total: u64,
    pub used: u64,
    pub used_percent: u64,
    pub status: Status,
}

impl Clone for ComputedDiskUsage {
    fn clone(&self) -> (r: Self)
        ensures
            r == *self,
    {
        ComputedDiskUsage {
            mount_point: self.mount_point.clone(),
            total: self.total,
            used: self.used,
            used_percent: self.used_percent,
            status: self.status,
        }
    }
}

/// One CPU core together with its computed status. Per-core statuses are
/// informational only; they do not feed the CPU category status.
#[derive(Debug, PartialEq)]
pub struct ComputedCpuInfo {
    pub name: String,
    pub cpu_usage: u64,
    pub frequency: u64,
    pub status: Status,
}

impl Clone for ComputedCpuInfo {
    fn clone(&self) -> (r: Self)
        ensures
            r == *self,
    {
        ComputedCpuInfo {
            name: self.name.clone(),
            cpu_usage: self.cpu_usage,
            frequency: self.frequency,
            status: self.status,
        }
    }
}

/// Memory figures together with their computed status.
#[derive(Clone, Copy, Debug, PartialEq)]
pub struct ComputedMemoryUsage {
    pub total_memory: u64,
    pub used_memory: u64,
    pub memory_percent: u64,
    pub status: Status,
}

/// Everything the metric reducer computes for one payload.
#[derive(Debug, PartialEq)]
pub struct MetricsReport {
    pub disks: Vec<ComputedDiskUsage>,
    pub cpu_usage: u64,
    pub cpus: Vec<ComputedCpuInfo>,
    pub memory: ComputedMemoryUsage,
    pub disk_status: Status,
    pub cpu_status: Status,
    pub memory_status: Status,
}

/// The disk entry the reducer computes for one raw disk entry.
pub open spec fn computed_disk_of(d: DiskUsage) -> ComputedDiskUsage {
    ComputedDiskUsage {
        mount_point: d.mount_point,
        total: d.total,
        used: d.used,
        used_percent: d.used_percent,
        status: level_status(d.used_percent),
    }
}

/// The core entry the reducer computes for one raw core entry.
pub open spec fn computed_cpu_of(c: CpuInfo) -> ComputedCpuInfo {
    ComputedCpuInfo {
        name: c.name,
        cpu_usage: c.cpu_usage,
        frequency: c.frequency,
        status: level_status(c.cpu_usage),
    }
}

/// The memory entry the reducer computes for one payload.
pub open spec fn computed_memory_of(m: SystemMetrics) -> ComputedMemoryUsage {
    ComputedMemoryUsage {
        total_memory: m.total_memory,
        used_memory: m.used_memory,
        memory_percent: m.memory_percent,
        status: level_status(m.memory_percent),
    }
}

/// Whether some disk of the payload is over the threshold.
pub open spec fn any_disk_red(disks: Seq<DiskUsage>) -> bool {
    exists|i: int| 0 <= i < disks.len() && disks[i].used_percent > THRESHOLD_HUNDREDTHS
}

/// The disk category status: red iff any disk is red.
pub open spec fn disk_status_of(disks: Seq<DiskUsage>) -> Status {
    if any_disk_red(disks) {
        Status::Red
    } else {
        Status::Green
    }
}

/// Whether two reports carry the same content. A copied report holds the
/// same entries and statuses; two equal-content reports need not be one
/// value, since their vectors may differ in capacity.
pub open spec fn same_report_content(a: MetricsReport, b: MetricsReport) -> bool {
    &&& a.disks@ == b.disks@
    &&& a.cpu_usage == b.cpu_usage
    &&& a.cpus@ == b.cpus@
    &&& a.memory == b.memory
    &&& a.disk_status == b.disk_status
    &&& a.cpu_status == b.cpu_status
    &&& a.memory_status == b.memory_status
}

impl Clone for MetricsReport {
    fn clone(&self) -> (r: Self)
        ensures
            same_report_content(*self, r),
    {
        let mut disks: Vec<ComputedDiskUsage> = Vec::new();
        let mut i: usize = 0;
        while i < self.disks.len()
            invariant
                i <= self.disks@.len(),
                disks@ =~= self.disks@.subrange(0, i as int),
            decreases self.disks@.len() - i,
        {
            disks.push(self.disks[i].clone());
            i = i + 1;
        }
        let mut cpus: Vec<ComputedCpuInfo> = Vec::new();
        let mut j: usize = 0;
        while j < self.cpus.len()
            invariant
                j <= self.cpus@.len(),
                cpus@ =~= self.cpus@.subrange(0, j as int),
            decreases self.cpus@.len() - j,
        {
            cpus.push(self.cpus[j].clone());
            j = j + 1;
        }
        proof {
            assert(disks@ =~= self.disks@);
            assert(cpus@ =~= self.cpus@);
        }
        MetricsReport {
            disks,
            cpu_usage: self.cpu_usage,
            cpus,
            memory: self.memory,
            disk_status: self.disk_status,
            cpu_status: self.cpu_status,
            memory_status: self.memory_status,
        }
    }
}

/// What the metric reducer states of its result for a given payload.
pub open spec fn report_matches(m: SystemMetrics, r: MetricsReport) -> bool {
    &&& r.disks@.len() == m.disk_usage@.len()
    &&& forall|i: int|
        0 <= i < m.disk_usage@.len() ==> r.disks@[i] == computed_disk_of(m.disk_usage@[i])
    &&& r.cpu_usage == m.cpu_usage
    &&& r.cpus@.len() == m.cpus@.len()
    &&& forall|i: int| 0 <= i < m.cpus@.len() ==> r.cpus@[i] == computed_cpu_of(m.cpus@[i])
    &&& r.memory == computed_memory_of(m)
    &&& r.disk_status == disk_status_of(m.disk_usage@)
    &&& r.cpu_status == level_status(m.cpu_usage)
    &&& r.memory_status == level_status(m.memory_percent)
}

/// Computes the statuses of every disk of a payload.
fn compute_disks(disks: &Vec<DiskUsage>) -> (r: Vec<ComputedDiskUsage>)
    ensures
        r@.len() == disks@.len(),
        forall|i: int| 0 <= i < disks@.len() ==> r@[i] == computed_disk_of(disks@[i]),
{
    let mut r: Vec<ComputedDiskUsage> = Vec::new();
    let mut i: usize = 0;
    while i < disks.len()
        invariant
            i <= disks@.len(),
            r@.len() == i,
            forall|j: int| 0 <= j < i ==> r@[j] == computed_disk_of(disks@[j]),
        decreases disks@.len() - i,
    {
        let d = &disks[i];
        r.push(
            ComputedDiskUsage {
                mount_point: d.mount_point.clone(),
                total: d.total,
                used: d.used,
                used_percent: d.used_percent,
                status: status_for_level(d.used_percent),
            },
        );
        i = i + 1;
    }
    r
}

/// Computes the informational status of every CPU core of a payload.
fn compute_cpus(cpus: &Vec<CpuInfo>) -> (r: Vec<ComputedCpuInfo>)
    ensures
        r@.len() == cpus@.len(),
        forall|i: int| 0 <= i < cpus@.len() ==> r@[i] == computed_cpu_of(cpus@[i]),
{
    let mut r: Vec<ComputedCpuInfo> = Vec::new();
    let mut i: usize = 0;
    while i < cpus.len()
        invariant
            i <= cpus@.len(),
            r@.len() == i,
            forall|j: int| 0 <= j < i ==> r@[j] == computed_cpu_of(cpus@[j]),
        decreases cpus@.len() - i,
    {
        let c = &cpus[i];
        r.push(
            ComputedCpuInfo {
                name: c.name.clone(),
                cpu_usage: c.cpu_usage,
                frequency: c.frequency,
                status: status_for_level(c.cpu_usage),
            },
        );
        i = i + 1;
    }
    r
}

/// Computes the disk category status: red iff any disk is over the
/// threshold.
fn compute_disk_status(disks: &Vec<DiskUsage>) -> (s: Status)
    ensures
        s == disk_status_of(disks@),
{
    let mut i: usize = 0;
    while i < disks.len()
        invariant
            i <= disks@.len(),
            forall|j: int| 0 <= j < i ==> disks@[j].used_percent <= THRESHOLD_HUNDREDTHS,
        decreases disks@.len() - i,
    {
        if disks[i].used_percent > THRESHOLD_HUNDREDTHS {
            return Status::Red;
        }
        i = i + 1;
    }
    Status::Green
}

/// The metric reducer: turns one raw payload into per-component statuses
/// and the three category statuses, each red exactly when its governing
/// percentage strictly exceeds the threshold.
pub fn reduce_metrics(m: &SystemMetrics) -> (r: MetricsReport)
    ensures
        report_matches(*m, r),
{
    let disks = compute_disks(&m.disk_usage);
    let cpus = compute_cpus(&m.cpus);
    let memory = ComputedMemoryUsage {
        total_memory: m.total_memory,
        used_memory: m.used_memory,
        memory_percent: m.memory_percent,
        status: status_for_level(m.memory_percent),
    };
    let disk_status = compute_disk_status(&m.disk_usage);
    let cpu_status = status_for_level(m.cpu_usage);
    let memory_status = status_for_level(m.memory_percent);
    MetricsReport { disks, cpu_usage: m.cpu_usage, cpus, memory, disk_status, cpu_status, memory_status }
}

/// The space counted as used on a disk: total minus available, never
/// below zero.
pub fn used_space(total: u64, available: u64) -> (used: u64)
    ensures
        used == if available <= total { total - available } else { 0int },
        used <= total,
{
    if available <= total {
        total - available
    } else {
        0
    }
}

/// The used share of a capacity, in hundredths of a percent, rounded
/// down; zero capacity counts as unused.
pub fn usage_percent_hundredths(total: u64, used: u64) -> (p: u64)
    requires
        used <= total,
    ensures
        total > 0 ==> p == (used as int * 10000) / (total as int),
        total == 0 ==> p == 0,
        p <= 10000,
{
    if total == 0 {
        0
    } else {
        let wide: u128 = (used as u128) * 10000 / (total as u128);
        proof {
            assert((used as int) * 10000 <= (total as int) * 10000) by (nonlinear_arith)
                requires
                    used <= total,
            ;
            lemma_div_is_ordered((used as int) * 10000, (total as int) * 10000, total as int);
            assert(((total as int) * 10000) / (total as int) == 10000) by (nonlinear_arith)
                requires
                    total > 0,
            ;
        }
        wide as u64
    }
}

/// Builds the raw disk entry a metrics source reports for one disk, from
/// its capacity and its free space.
pub fn make_disk_usage(mount_point: String, total: u64, available: u64) -> (d: DiskUsage)
    ensures
        d.mount_point == mount_point,
        d.total == total,
        d.used == if available <= total { total - available } else { 0int },
        d.used_percent == if total > 0 {
            (d.used as int * 10000) / (total as int)
        } else {
            0
        },
        d.used_percent <= 10000,
{
    let used = used_space(total, available);
    let used_percent = usage_percent_hundredths(total, used);
    DiskUsage { mount_point, total, used, used_percent }
}

} // verus!
