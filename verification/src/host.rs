//! What this library takes from the `sysinfo` crate on trust.
//!
//! Nothing in this file is proved. Each function below makes one query of
//! `sysinfo` and hands the answer on as plain values; its contract is what
//! the rest of the library believes of that query.

use sysinfo::{Disks, Networks, System};
use vstd::prelude::*;

use crate::snapshot::{DiskInfo, NetworkStats};

verus! {

/// `sysinfo::System`, the handle that caches what was last read of the
/// processors and of memory.
#[verifier::external_type_specification]
#[verifier::external_body]
pub struct ExSystem(sysinfo::System);

/// The number of processors that `system` lists.
pub uninterp spec fn system_core_count(system: System) -> usize;

/// The bytes of main memory that `system` holds as the total.
pub uninterp spec fn system_total_memory(system: System) -> u64;

/// The bytes of main memory that `system` holds as available.
pub uninterp spec fn system_available_memory(system: System) -> u64;

/// The brand of the first processor that `system` lists, if it lists one.
pub uninterp spec fn system_first_brand(system: System) -> Option<Seq<char>>;

/// `System::cpus`: the length of the list of processors cached in `system`.
#[verifier::external_body]
pub(crate) fn core_count(system: &System) -> (count: usize)
    ensures
        count == system_core_count(*system),
{
    system.cpus().len()
}

/// `System::total_memory`: the cached size of main memory, in bytes.
#[verifier::external_body]
pub(crate) fn total_memory(system: &System) -> (bytes: u64)
    ensures
        bytes == system_total_memory(*system),
{
    system.total_memory()
}

/// `System::available_memory`: the cached amount of available memory, in
/// bytes. The crate does not bound it by the total.
#[verifier::external_body]
pub(crate) fn available_memory(system: &System) -> (bytes: u64)
    ensures
        bytes == system_available_memory(*system),
{
    system.available_memory()
}

/// `System::cpus` and `Cpu::brand`: a copy of the brand of the first
/// processor cached in `system`, or nothing where the list is empty.
#[verifier::external_body]
pub(crate) fn first_brand(system: &System) -> (brand: Option<String>)
    ensures
        brand.deep_view() == system_first_brand(*system),
{
    system.cpus().first().map(|cpu| cpu.brand().to_string())
}

/// `System::host_name`: the host's name as the operating system gives it at
/// this moment, or nothing. Nothing is claimed of the answer.
#[verifier::external_body]
pub(crate) fn host_name() -> (name: Option<String>) {
    System::host_name()
}

/// `System::uptime`: seconds since boot as the operating system gives them at
/// this moment. Nothing is claimed of the answer.
#[verifier::external_body]
pub(crate) fn uptime_seconds() -> (seconds: u64) {
    System::uptime()
}

/// `Disks::new_with_refreshed_list`: the volumes mounted at this moment, in
/// the crate's order, each with `Disk::name` (made text, lossily),
/// `Disk::total_space` and `Disk::available_space`. Nothing is claimed of the
/// answer.
#[verifier::external_body]
pub(crate) fn volumes() -> (found: Vec<DiskInfo>) {
    Disks::new_with_refreshed_list()
        .list()
        .iter()
        .map(|disk| DiskInfo {
            name: disk.name().to_string_lossy().into_owned(),
            total_space: disk.total_space(),
            available_space: disk.available_space(),
        })
        .collect()
}

/// `Networks::new_with_refreshed_list`: the interfaces present at this
/// moment, in no particular order, each with its name,
/// `NetworkData::total_received` and `NetworkData::total_transmitted`.
/// Nothing is claimed of the answer.
#[verifier::external_body]
pub(crate) fn interfaces() -> (found: Vec<NetworkStats>) {
    Networks::new_with_refreshed_list()
        .list()
        .iter()
        .map(|(name, data)| NetworkStats {
            name: name.clone(),
            received: data.total_received(),
            transmitted: data.total_transmitted(),
        })
        .collect()
}

} // verus!
