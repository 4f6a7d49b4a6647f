//! One snapshot of the host, assembled from raw readings.
//!
//! Every quantity is exact. Sizes are in bytes. A share that the snapshot
//! works out (memory in use, room used on a volume) is held as the two
//! integers whose ratio it is; a share that the platform measures
//! (processor utilisation, battery charge) is in hundredths of a percent, as
//! it was read. Temperature is in thousandths of a degree Celsius. A
//! quantity that could not be measured is `None`, never a stand-in number.

use vstd::prelude::*;
use crate::percent::{lemma_share_in_range, share, share_of, Share, FULL_SHARE};

verus! {

/// What the battery is doing.
#[derive(Clone, Copy, Debug, PartialEq, Eq, Structural)]
pub enum BatteryState {
    Charging,
    Discharging,
    Full,
    Unavailable,
}

/// A raw battery reading, as the platform gave it.
#[derive(Clone, Copy, Debug, PartialEq, Eq)]
pub struct BatteryReading {
    /// Charge in hundredths of a percent.
    pub level: u32,
    /// Estimated seconds until empty, where the platform has an estimate.
    pub seconds_remaining: Option<u64>,
    pub state: BatteryState,
}

/// A remaining running time, split for display.
#[derive(Clone, Copy, Debug, PartialEq, Eq)]
pub struct TimeRemaining {
    pub hours: u64,
    pub minutes: u64,
}

/// A raw reading of one mounted volume.
#[derive(Clone, Debug, PartialEq, Eq)]
pub struct DiskReading {
    pub name: String,
    pub total: u64,
    pub available: u64,
}

pub struct DiskReadingView {
    pub name: Seq<char>,
    pub total: u64,
    pub available: u64,
}

impl View for DiskReading {
    type V = DiskReadingView;

    open spec fn view(&self) -> DiskReadingView {
        DiskReadingView { name: self.name@, total: self.total, available: self.available }
    }
}

/// One reported volume.
#[derive(Clone, Debug, PartialEq, Eq)]
pub struct DiskInfo {
    pub name: String,
    pub total: u64,
    pub available: u64,
    /// Share of the volume in use, exactly: what is not available, of the
    /// total. Unknown for a volume of size zero.
    pub used_percentage: Option<Share>,
}

pub struct DiskInfoView {
    pub name: Seq<char>,
    pub total: u64,
    pub available: u64,
    pub used_percentage: Option<Share>,
}

impl View for DiskInfo {
    type V = DiskInfoView;

    open spec fn view(&self) -> DiskInfoView {
        DiskInfoView {
            name: self.name@,
            total: self.total,
            available: self.available,
            used_percentage: self.used_percentage,
        }
    }
}

/// Everything the platform was asked, before any rule is applied.
#[derive(Clone, Debug, PartialEq, Eq)]
pub struct HostReadings {
    /// Bytes of memory in use; `None` where the platform's readings do not
    /// give it.
    pub memory_used: Option<u64>,
    pub memory_total: u64,
    /// Processor utilisation in hundredths of a percent, averaged over the
    /// interval between two readings of the platform; `None` where it was
    /// not measured.
    pub cpu_usage: Option<u32>,
    pub physical_cores: Option<usize>,
    /// `None` where the host has no battery or the platform cannot tell.
    pub battery: Option<BatteryReading>,
    pub disks: Vec<DiskReading>,
    /// Thousandths of a degree Celsius, where a sensor answered.
    pub temperature: Option<i64>,
}

pub struct HostReadingsView {
    pub memory_used: Option<u64>,
    pub memory_total: u64,
    pub cpu_usage: Option<u32>,
    pub physical_cores: Option<usize>,
    pub battery: Option<BatteryReading>,
    pub disks: Seq<DiskReadingView>,
    pub temperature: Option<i64>,
}

impl View for HostReadings {
    type V = HostReadingsView;

    open spec fn view(&self) -> HostReadingsView {
        HostReadingsView {
            memory_used: self.memory_used,
            memory_total: self.memory_total,
            cpu_usage: self.cpu_usage,
            physical_cores: self.physical_cores,
            battery: self.battery,
            disks: self.disks@.map_values(|d: DiskReading| d@),
            temperature: self.temperature,
        }
    }
}

/// A snapshot of the host. It is made once and never changed.
#[derive(Clone, Debug, PartialEq, Eq)]
pub struct SystemMetrics {
    pub memory_used: Option<u64>,
    pub memory_total: u64,
    /// Share of the memory in use, exactly: `memory_used` of `memory_total`.
    pub memory_percentage: Option<Share>,
    pub cpu_usage: Option<u32>,
    pub cpu_count: usize,
    pub battery_level: Option<u32>,
    pub battery_time_remaining: Option<TimeRemaining>,
    pub battery_state: BatteryState,
    pub disk_usage: Vec<DiskInfo>,
    pub temperature: Option<i64>,
}

pub struct SystemMetricsView {
    pub memory_used: Option<u64>,
    pub memory_total: u64,
    pub memory_percentage: Option<Share>,
    pub cpu_usage: Option<u32>,
    pub cpu_count: usize,
    pub battery_level: Option<u32>,
    pub battery_time_remaining: Option<TimeRemaining>,
    pub battery_state: BatteryState,
    pub disk_usage: Seq<DiskInfoView>,
    pub temperature: Option<i64>,
}

impl View for SystemMetrics {
    type V = SystemMetricsView;

    open spec fn view(&self) -> SystemMetricsView {
        SystemMetricsView {
            memory_used: self.memory_used,
            memory_total: self.memory_total,
            memory_percentage: self.memory_percentage,
            cpu_usage: self.cpu_usage,
            cpu_count: self.cpu_count,
            battery_level: self.battery_level,
            battery_time_remaining: self.battery_time_remaining,
            battery_state: self.battery_state,
            disk_usage: self.disk_usage@.map_values(|d: DiskInfo| d@),
            temperature: self.temperature,
        }
    }
}

/// The sampler could not reach the platform at all.
#[derive(Clone, Copy, Debug, PartialEq, Eq, Structural)]
pub enum SamplingError {
    Unavailable,
}

impl SamplingError {
    /// A sentence that names the failure.
    pub fn message(&self) -> (text: String)
        ensures
            text@ == "Failed to query the system"@,
    {
        "Failed to query the system".to_owned()
    }
}

/// A measured share, held to the whole where the platform overshoots.
pub open spec fn capped(v: u32) -> u32 {
    if v > FULL_SHARE {
        FULL_SHARE
    } else {
        v
    }
}

/// The number of cores to report: what was counted, and one where nothing or
/// zero was.
pub open spec fn core_count_of(cores: Option<usize>) -> usize {
    match cores {
        Some(n) => if n >= 1 { n } else { 1 },
        None => 1,
    }
}

/// Whole hours, and the whole minutes left over.
pub open spec fn time_of(seconds: u64) -> TimeRemaining {
    TimeRemaining { hours: seconds / 3600, minutes: (seconds % 3600) / 60 }
}

pub open spec fn battery_level_of(battery: Option<BatteryReading>) -> Option<u32> {
    match battery {
        Some(b) => Some(capped(b.level)),
        None => None,
    }
}

pub open spec fn battery_state_of(battery: Option<BatteryReading>) -> BatteryState {
    match battery {
        Some(b) => b.state,
        None => BatteryState::Unavailable,
    }
}

/// A remaining time is reported only for a battery that is discharging and
/// for which the platform has an estimate.
pub open spec fn battery_time_of(battery: Option<BatteryReading>) -> Option<TimeRemaining> {
    match battery {
        Some(b) => match b.seconds_remaining {
            Some(s) => if b.state == BatteryState::Discharging { Some(time_of(s)) } else { None },
            None => None,
        },
        None => None,
    }
}

/// A volume's reading is usable where it has no more room left than room.
pub open spec fn usable(d: DiskReadingView) -> bool {
    d.available <= d.total
}

pub open spec fn disk_info_of(d: DiskReadingView) -> DiskInfoView {
    DiskInfoView {
        name: d.name,
        total: d.total,
        available: d.available,
        used_percentage: share_of((d.total - d.available) as u64, d.total),
    }
}

/// The memory in use that a total and what is available of it give: their
/// difference, and unknown where more is said to be available than there is.
pub open spec fn used_of(total: u64, available: u64) -> Option<u64> {
    if available <= total {
        Some((total - available) as u64)
    } else {
        None
    }
}

/// The share of the memory in use: unknown where the memory in use is.
pub open spec fn memory_share_of(used: Option<u64>, total: u64) -> Option<Share> {
    match used {
        Some(u) => share_of(u, total),
        None => None,
    }
}

/// The volumes to report: the usable readings, in the order they were read.
pub open spec fn reported_disks(readings: Seq<DiskReadingView>) -> Seq<DiskInfoView>
    decreases readings.len(),
{
    if readings.len() == 0 {
        Seq::empty()
    } else if usable(readings.last()) {
        reported_disks(readings.drop_last()).push(disk_info_of(readings.last()))
    } else {
        reported_disks(readings.drop_last())
    }
}

/// The snapshot that a set of readings gives.
pub open spec fn metrics_of(h: HostReadingsView) -> SystemMetricsView {
    SystemMetricsView {
        memory_used: h.memory_used,
        memory_total: h.memory_total,
        memory_percentage: memory_share_of(h.memory_used, h.memory_total),
        cpu_usage: match h.cpu_usage {
            Some(v) => Some(capped(v)),
            None => None,
        },
        cpu_count: core_count_of(h.physical_cores),
        battery_level: battery_level_of(h.battery),
        battery_time_remaining: battery_time_of(h.battery),
        battery_state: battery_state_of(h.battery),
        disk_usage: reported_disks(h.disks),
        temperature: h.temperature,
    }
}

pub open spec fn share_in_range(s: Option<u32>) -> bool {
    s matches Some(v) ==> v <= FULL_SHARE
}

/// A share that is known is of a whole, and no more than the whole.
pub open spec fn exact_share_in_range(s: Option<Share>) -> bool {
    s matches Some(v) ==> v.valid() && v.percent_at_least(0) && v.percent_at_most(100)
}

pub open spec fn disk_in_range(d: DiskInfoView) -> bool {
    &&& d.available <= d.total
    &&& exact_share_in_range(d.used_percentage)
    &&& d.used_percentage == share_of((d.total - d.available) as u64, d.total)
    &&& d.used_percentage is Some <==> d.total > 0
}

/// What holds of every snapshot: each share lies between nothing and the
/// whole, the share of memory in use is the exact ratio of the two sizes, at
/// least one core is counted, no volume has more room left than room, and a
/// host without a battery reports neither charge nor time.
pub open spec fn in_range(m: SystemMetricsView) -> bool {
    &&& exact_share_in_range(m.memory_percentage)
    &&& m.memory_percentage == memory_share_of(m.memory_used, m.memory_total)
    &&& m.memory_percentage is Some <==> (m.memory_total > 0 && m.memory_used is Some
        && m.memory_used.unwrap() <= m.memory_total)
    &&& m.memory_percentage matches Some(s) ==> Some(s.part) == m.memory_used && s.whole
        == m.memory_total
    &&& share_in_range(m.cpu_usage)
    &&& m.cpu_count >= 1
    &&& share_in_range(m.battery_level)
    &&& m.battery_level is None ==> m.battery_state == BatteryState::Unavailable
    &&& m.battery_time_remaining matches Some(t) ==> t.minutes < 60 && m.battery_level is Some
        && m.battery_state == BatteryState::Discharging
    &&& forall|i: int| 0 <= i < m.disk_usage.len() ==> disk_in_range(#[trigger] m.disk_usage[i])
}

/// Every reported volume comes from a usable reading, so it is in range.
pub proof fn lemma_reported_disks_in_range(readings: Seq<DiskReadingView>)
    ensures
        reported_disks(readings).len() <= readings.len(),
        forall|i: int|
            0 <= i < reported_disks(readings).len() ==> disk_in_range(
                #[trigger] reported_disks(readings)[i],
            ),
    decreases readings.len(),
{
    if readings.len() > 0 {
        lemma_reported_disks_in_range(readings.drop_last());
        let d = readings.last();
        if usable(d) {
            lemma_share_in_range((d.total - d.available) as u64, d.total);
        }
    }
}

/// Whatever the platform answered, the snapshot made of it is in range.
pub proof fn lemma_metrics_in_range(h: HostReadingsView)
    ensures
        in_range(metrics_of(h)),
{
    match h.memory_used {
        Some(u) => {
            lemma_share_in_range(u, h.memory_total);
        },
        None => {},
    }
    lemma_reported_disks_in_range(h.disks);
}

/// Holds a measured share to the whole.
pub fn cap(v: u32) -> (r: u32)
    ensures
        r == capped(v),
{
    if v > FULL_SHARE {
        FULL_SHARE
    } else {
        v
    }
}

impl TimeRemaining {
    /// Splits a number of seconds into whole hours and minutes.
    pub fn from_seconds(seconds: u64) -> (t: TimeRemaining)
        ensures
            t == time_of(seconds),
            t.minutes < 60,
            t.hours * 3600 + t.minutes * 60 <= seconds < t.hours * 3600 + t.minutes * 60 + 60,
    {
        TimeRemaining { hours: seconds / 3600, minutes: (seconds % 3600) / 60 }
    }
}

impl DiskInfo {
    /// Reports one volume, or nothing where the reading is not usable.
    pub fn from_reading(reading: &DiskReading) -> (r: Option<DiskInfo>)
        ensures
            r is Some <==> usable(reading@),
            r matches Some(d) ==> d@ == disk_info_of(reading@) && disk_in_range(d@),
    {
        if reading.available > reading.total {
            return None;
        }
        let used: u64 = reading.total - reading.available;
        let used_percentage = share(used, reading.total);
        Some(
            DiskInfo {
                name: reading.name.clone(),
                total: reading.total,
                available: reading.available,
                used_percentage,
            },
        )
    }
}

/// Reports the usable volumes among `readings`, in their order.
pub fn report_disks(readings: &Vec<DiskReading>) -> (out: Vec<DiskInfo>)
    ensures
        out@.map_values(|d: DiskInfo| d@) == reported_disks(
            readings@.map_values(|d: DiskReading| d@),
        ),
{
    let ghost all = readings@.map_values(|d: DiskReading| d@);
    let mut out: Vec<DiskInfo> = Vec::new();
    let mut i: usize = 0;
    assert(out@.map_values(|d: DiskInfo| d@) =~= reported_disks(all.take(0)));
    while i < readings.len()
        invariant
            i <= readings.len(),
            all == readings@.map_values(|d: DiskReading| d@),
            out@.map_values(|d: DiskInfo| d@) == reported_disks(all.take(i as int)),
        decreases readings.len() - i,
    {
        let ghost before = out@.map_values(|d: DiskInfo| d@);
        let next = DiskInfo::from_reading(&readings[i]);
        proof {
            assert(all.take(i + 1).drop_last() =~= all.take(i as int));
            assert(all.take(i + 1).last() == readings@[i as int]@);
        }
        match next {
            Some(info) => {
                out.push(info);
                assert(out@.map_values(|d: DiskInfo| d@) =~= before.push(info@));
            },
            None => {},
        }
        i = i + 1;
    }
    assert(all.take(i as int) =~= all);
    out
}

impl HostReadings {
    /// The readings of a platform that tells memory, cores and volumes and
    /// nothing else: none where the platform cannot be asked at all, and
    /// otherwise what it told, with processor utilisation, battery and
    /// temperature left unknown. The memory in use is what is not available
    /// of the total.
    pub fn from_platform(
        supported: bool,
        memory_total: u64,
        memory_available: u64,
        physical_cores: Option<usize>,
        disks: Vec<DiskReading>,
    ) -> (r: Option<HostReadings>)
        ensures
            r is Some <==> supported,
            r matches Some(h) ==> h@ == (HostReadingsView {
                memory_used: used_of(memory_total, memory_available),
                memory_total,
                cpu_usage: None,
                physical_cores,
                battery: None,
                disks: disks@.map_values(|d: DiskReading| d@),
                temperature: None,
            }),
    {
        if !supported {
            return None;
        }
        let memory_used: Option<u64> = if memory_available <= memory_total {
            Some(memory_total - memory_available)
        } else {
            None
        };
        Some(
            HostReadings {
                memory_used,
                memory_total,
                cpu_usage: None,
                physical_cores,
                battery: None,
                disks,
                temperature: None,
            },
        )
    }
}

impl SystemMetrics {
    /// Assembles the snapshot that `readings` give.
    pub fn from_readings(readings: &HostReadings) -> (m: SystemMetrics)
        ensures
            m@ == metrics_of(readings@),
            in_range(m@),
    {
        proof {
            lemma_metrics_in_range(readings@);
        }
        let cpu_usage = match readings.cpu_usage {
            Some(v) => Some(cap(v)),
            None => None,
        };
        let cpu_count: usize = match readings.physical_cores {
            Some(n) => if n >= 1 { n } else { 1 },
            None => 1,
        };
        let battery_level = match readings.battery {
            Some(b) => Some(cap(b.level)),
            None => None,
        };
        let battery_state = match readings.battery {
            Some(b) => b.state,
            None => BatteryState::Unavailable,
        };
        let battery_time_remaining = match readings.battery {
            Some(b) => match b.seconds_remaining {
                Some(s) => match b.state {
                    BatteryState::Discharging => Some(TimeRemaining::from_seconds(s)),
                    _ => None,
                },
                None => None,
            },
            None => None,
        };
        SystemMetrics {
            memory_used: readings.memory_used,
            memory_total: readings.memory_total,
            memory_percentage: match readings.memory_used {
                Some(u) => share(u, readings.memory_total),
                None => None,
            },
            cpu_usage,
            cpu_count,
            battery_level,
            battery_time_remaining,
            battery_state,
            disk_usage: report_disks(&readings.disks),
            temperature: readings.temperature,
        }
    }
}

/// Turns what was read into the sampler's answer. A field that could not be
/// measured is unknown in the snapshot and fails nothing; only the absence
/// of all readings is an error.
pub fn sample_from(readings: Option<HostReadings>) -> (r: Result<SystemMetrics, SamplingError>)
    ensures
        r is Ok <==> readings is Some,
        r matches Ok(m) ==> m@ == metrics_of(readings.unwrap()@) && in_range(m@),
        r matches Err(e) ==> e == SamplingError::Unavailable,
{
    match readings {
        Some(h) => Ok(SystemMetrics::from_readings(&h)),
        None => Err(SamplingError::Unavailable),
    }
}

} // verus!
