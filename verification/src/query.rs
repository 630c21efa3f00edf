//! Reading the host and answering a query.

use sysinfo::System;
use vstd::prelude::*;

use crate::cpu::{text_or_unknown, CpuInfo, INITIAL_USAGE_BITS};
use crate::host::{
    available_memory, core_count, first_brand, host_name, interfaces, system_available_memory,
    system_core_count, system_first_brand, system_total_memory, total_memory, uptime_seconds,
    volumes,
};
use crate::snapshot::{snapshot_of, try_assemble, HostReading, HostReadingView, SystemInfo};

verus! {

/// The reading agrees with `system` in what `system` caches: the number of
/// cores and the two memory sizes.
pub open spec fn reading_of(reading: HostReadingView, system: System) -> bool {
    &&& reading.num_cores == system_core_count(system)
    &&& reading.total_memory == system_total_memory(system)
    &&& reading.available_memory == system_available_memory(system)
}

/// The processor reading that the sampler starts from: the brand of the
/// first processor of `system`, and no load yet.
pub fn initial_cpu_info(system: &System) -> (cpu: CpuInfo)
    ensures
        cpu@.model == text_or_unknown(system_first_brand(*system)),
        cpu@.usage_bits == INITIAL_USAGE_BITS,
{
    CpuInfo::new(first_brand(system))
}

/// Reads the host: cores and memory from `system`, everything else afresh
/// from the operating system.
pub fn read_host(system: &System) -> (reading: HostReading)
    ensures
        reading_of(reading@, *system),
{
    HostReading {
        hostname: host_name(),
        uptime_seconds: uptime_seconds(),
        num_cores: core_count(system),
        total_memory: total_memory(system),
        available_memory: available_memory(system),
        volumes: volumes(),
        interfaces: interfaces(),
    }
}

/// Answers one query: a copy of `cpu` joined with a fresh reading of the
/// host. There is no answer where `system` holds more available memory than
/// memory in all.
pub fn get_system_info(cpu: &CpuInfo, system: &System) -> (info: Option<SystemInfo>)
    ensures
        info is Some <==> system_available_memory(*system) <= system_total_memory(*system),
        info matches Some(snapshot) ==> snapshot.cpu_info@ == cpu@,
        info matches Some(snapshot) ==> exists|reading: HostReadingView|
            reading_of(reading, *system) && #[trigger] snapshot_of(cpu@, reading) == snapshot@,
{
    let reading = read_host(system);
    let info = try_assemble(cpu.snapshot(), reading);
    info
}

} // verus!
