//! Reading the host through `sysinfo`.
//!
//! Nothing is known of what the platform answers, so the declarations here
//! promise nothing of it. What is done with the answers is decided in
//! `metrics`, for every answer there can be.

use vstd::prelude::*;
use crate::metrics::{
    in_range, sample_from, BatteryState, DiskReading, HostReadings, SamplingError, SystemMetrics,
};

verus! {

/// `sysinfo::System`, the handle through which the platform is asked.
#[verifier::external_type_specification]
#[verifier::external_body]
pub struct ExSystem(sysinfo::System);

/// `sysinfo::System::new` makes a handle with nothing loaded. Nothing is
/// claimed of it.
pub assume_specification[ sysinfo::System::new ]() -> (sys: sysinfo::System);

/// `sysinfo::System::refresh_memory` reads the sizes of memory and swap
/// anew. Nothing is claimed of the handle afterwards.
pub assume_specification[ sysinfo::System::refresh_memory ](sys: &mut sysinfo::System);

/// `sysinfo::System::total_memory` gives the size of the memory in bytes, as
/// last read. Nothing is claimed of the number.
pub assume_specification[ sysinfo::System::total_memory ](sys: &sysinfo::System) -> (bytes: u64);

/// `sysinfo::System::available_memory` gives the memory that is available
/// for use in bytes, as last read. Nothing is claimed of the number, not
/// even that it stays below the total.
pub assume_specification[ sysinfo::System::available_memory ](sys: &sysinfo::System) -> (bytes:
    u64);

/// `sysinfo::System::physical_core_count` gives the number of physical cores
/// where the platform can count them. Nothing is claimed of the answer.
pub assume_specification[ sysinfo::System::physical_core_count ](sys: &sysinfo::System) -> (cores:
    Option<usize>);

/// Reads `sysinfo::IS_SUPPORTED_SYSTEM`, which says whether `sysinfo` can ask
/// this platform anything. Nothing is claimed of the answer.
#[verifier::external_body]
fn platform_supported() -> (supported: bool) {
    sysinfo::IS_SUPPORTED_SYSTEM
}

/// Calls `sysinfo::Disks::new_with_refreshed_list` and hands out, for each
/// disk of its `list`, what `name`, `total_space` and `available_space` give.
/// Nothing is claimed of the readings.
#[verifier::external_body]
fn mounted_volumes() -> (volumes: Vec<DiskReading>) {
    let disks = sysinfo::Disks::new_with_refreshed_list();
    let mut volumes = Vec::new();
    for disk in disks.list() {
        volumes.push(
            DiskReading {
                name: disk.name().to_string_lossy().into_owned(),
                total: disk.total_space(),
                available: disk.available_space(),
            },
        );
    }
    volumes
}

/// Reads memory, core count and mounted volumes. The answer is `None` where
/// the platform cannot be asked at all. Processor utilisation, battery and
/// temperature are left unknown: a caller that can measure them fills them
/// in before the snapshot is made.
pub fn read_host() -> (r: Option<HostReadings>)
    ensures
        r matches Some(h) ==> h.cpu_usage is None && h.battery is None && h.temperature is None,
{
    let supported = platform_supported();
    let mut sys = sysinfo::System::new();
    sys.refresh_memory();
    let memory_total = sys.total_memory();
    let memory_available = sys.available_memory();
    let physical_cores = sys.physical_core_count();
    let disks = mounted_volumes();
    HostReadings::from_platform(supported, memory_total, memory_available, physical_cores, disks)
}

/// Takes one snapshot of the host. Whatever the platform answers, a snapshot
/// that is returned is in range, and it reports as unknown what this reading
/// does not measure.
pub fn get_system_metrics() -> (r: Result<SystemMetrics, SamplingError>)
    ensures
        r matches Ok(m) ==> in_range(m@) && m.cpu_usage is None && m.battery_level is None
            && m.battery_time_remaining is None && m.battery_state == BatteryState::Unavailable
            && m.temperature is None,
        r matches Err(e) ==> e == SamplingError::Unavailable,
{
    let readings = read_host();
    sample_from(readings)
}

} // verus!
