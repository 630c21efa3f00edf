//! The record that answers one query, and the parts it is made of.

use vstd::prelude::*;

use crate::cpu::{text_or_unknown, name_or_unknown, CpuInfo, CpuInfoView};
use crate::uptime::{format_uptime, uptime_text};

verus! {

/// Main memory in bytes. Used and free memory always add up to the total.
#[derive(Clone, Copy, Debug)]
pub struct MemoryInfo {
    total: u64,
    used: u64,
    free: u64,
}

/// A [`MemoryInfo`] as a mathematical value.
pub ghost struct MemoryInfoView {
    pub total: u64,
    pub used: u64,
    pub free: u64,
}

/// The memory reading of a host with `total` bytes of which `free` are
/// available.
pub open spec fn memory_of(total: u64, free: u64) -> MemoryInfoView
    recommends
        free <= total,
{
    MemoryInfoView { total, used: (total - free) as u64, free }
}

impl View for MemoryInfo {
    type V = MemoryInfoView;

    closed spec fn view(&self) -> MemoryInfoView {
        MemoryInfoView { total: self.total, used: self.used, free: self.free }
    }
}

impl MemoryInfo {
    #[verifier::type_invariant]
    spec fn adds_up(self) -> bool {
        self.used + self.free == self.total
    }

    /// The reading of a host with `total` bytes of which `free` are available.
    pub fn new(total: u64, free: u64) -> (memory: MemoryInfo)
        requires
            free <= total,
        ensures
            memory@ == memory_of(total, free),
    {
        MemoryInfo { total, used: total - free, free }
    }

    /// As [`MemoryInfo::new`], for values of which nothing is known: there is
    /// no reading where more is free than there is in all.
    pub fn checked(total: u64, free: u64) -> (memory: Option<MemoryInfo>)
        ensures
            memory is Some <==> free <= total,
            memory matches Some(m) ==> m@ == memory_of(total, free),
    {
        if free <= total {
            Some(MemoryInfo::new(total, free))
        } else {
            None
        }
    }

    pub fn total(&self) -> (bytes: u64)
        ensures
            bytes == self@.total,
    {
        self.total
    }

    pub fn used(&self) -> (bytes: u64)
        ensures
            bytes == self@.used,
            bytes == self@.total - self@.free,
    {
        proof {
            use_type_invariant(self);
        }
        self.used
    }

    pub fn free(&self) -> (bytes: u64)
        ensures
            bytes == self@.free,
            bytes <= self@.total,
    {
        proof {
            use_type_invariant(self);
        }
        self.free
    }
}

/// Used memory is the total less the free memory, in every reading that
/// [`memory_of`] describes.
pub proof fn lemma_used_is_total_less_free(total: u64, free: u64)
    requires
        free <= total,
    ensures
        memory_of(total, free).used == total - free,
        memory_of(total, free).used + memory_of(total, free).free == memory_of(total, free).total,
{
}

/// One mounted volume.
#[derive(Clone, Debug)]
pub struct DiskInfo {
    pub name: String,
    pub total_space: u64,
    pub available_space: u64,
}

/// A [`DiskInfo`] as a mathematical value.
pub ghost struct DiskInfoView {
    pub name: Seq<char>,
    pub total_space: u64,
    pub available_space: u64,
}

impl View for DiskInfo {
    type V = DiskInfoView;

    open spec fn view(&self) -> DiskInfoView {
        DiskInfoView {
            name: self.name@,
            total_space: self.total_space,
            available_space: self.available_space,
        }
    }
}

/// One network interface with its cumulative byte counters.
#[derive(Clone, Debug)]
pub struct NetworkStats {
    pub name: String,
    pub received: u64,
    pub transmitted: u64,
}

/// A [`NetworkStats`] as a mathematical value.
pub ghost struct NetworkStatsView {
    pub name: Seq<char>,
    pub received: u64,
    pub transmitted: u64,
}

impl View for NetworkStats {
    type V = NetworkStatsView;

    open spec fn view(&self) -> NetworkStatsView {
        NetworkStatsView { name: self.name@, received: self.received, transmitted: self.transmitted }
    }
}

/// What the host reports at the moment of a query, the processor load apart.
#[derive(Clone, Debug)]
pub struct HostReading {
    /// The host name, where the host can tell it.
    pub hostname: Option<String>,
    /// Seconds since the host booted.
    pub uptime_seconds: u64,
    /// Number of logical cores.
    pub num_cores: usize,
    /// Main memory in bytes.
    pub total_memory: u64,
    /// Bytes of main memory that are available for use.
    pub available_memory: u64,
    /// The mounted volumes, as the host lists them.
    pub volumes: Vec<DiskInfo>,
    /// The network interfaces, as the host lists them.
    pub interfaces: Vec<NetworkStats>,
}

/// A [`HostReading`] as a mathematical value.
pub ghost struct HostReadingView {
    pub hostname: Option<Seq<char>>,
    pub uptime_seconds: u64,
    pub num_cores: usize,
    pub total_memory: u64,
    pub available_memory: u64,
    pub volumes: Seq<DiskInfoView>,
    pub interfaces: Seq<NetworkStatsView>,
}

impl View for HostReading {
    type V = HostReadingView;

    open spec fn view(&self) -> HostReadingView {
        HostReadingView {
            hostname: self.hostname.deep_view(),
            uptime_seconds: self.uptime_seconds,
            num_cores: self.num_cores,
            total_memory: self.total_memory,
            available_memory: self.available_memory,
            volumes: self.volumes@.map_values(|disk: DiskInfo| disk@),
            interfaces: self.interfaces@.map_values(|interface: NetworkStats| interface@),
        }
    }
}

impl HostReadingView {
    /// No more memory is available than there is in all.
    pub open spec fn memory_adds_up(self) -> bool {
        self.available_memory <= self.total_memory
    }
}

/// The answer to one query.
#[derive(Clone, Debug)]
pub struct SystemInfo {
    pub cpu_info: CpuInfo,
    pub num_cores: usize,
    pub uptime: String,
    pub hostname: String,
    pub memory: MemoryInfo,
    pub disks: Vec<DiskInfo>,
    pub network: Vec<NetworkStats>,
}

/// A [`SystemInfo`] as a mathematical value.
pub ghost struct SystemInfoView {
    pub cpu_info: CpuInfoView,
    pub num_cores: usize,
    pub uptime: Seq<char>,
    pub hostname: Seq<char>,
    pub memory: MemoryInfoView,
    pub disks: Seq<DiskInfoView>,
    pub network: Seq<NetworkStatsView>,
}

impl View for SystemInfo {
    type V = SystemInfoView;

    open spec fn view(&self) -> SystemInfoView {
        SystemInfoView {
            cpu_info: self.cpu_info@,
            num_cores: self.num_cores,
            uptime: self.uptime@,
            hostname: self.hostname@,
            memory: self.memory@,
            disks: self.disks@.map_values(|disk: DiskInfo| disk@),
            network: self.network@.map_values(|interface: NetworkStats| interface@),
        }
    }
}

/// The snapshot made of the processor reading `cpu` and the host reading
/// `reading`.
pub open spec fn snapshot_of(cpu: CpuInfoView, reading: HostReadingView) -> SystemInfoView
    recommends
        reading.memory_adds_up(),
{
    SystemInfoView {
        cpu_info: cpu,
        num_cores: reading.num_cores,
        uptime: uptime_text(reading.uptime_seconds as nat),
        hostname: text_or_unknown(reading.hostname),
        memory: memory_of(reading.total_memory, reading.available_memory),
        disks: reading.volumes,
        network: reading.interfaces,
    }
}

/// Joins a copy of the processor reading with a host reading.
pub fn assemble(cpu: CpuInfo, reading: HostReading) -> (info: SystemInfo)
    requires
        reading@.memory_adds_up(),
    ensures
        info@ == snapshot_of(cpu@, reading@),
        info.disks@ == reading.volumes@,
        info.network@ == reading.interfaces@,
{
    SystemInfo {
        cpu_info: cpu,
        num_cores: reading.num_cores,
        uptime: format_uptime(reading.uptime_seconds),
        hostname: name_or_unknown(reading.hostname),
        memory: MemoryInfo::new(reading.total_memory, reading.available_memory),
        disks: reading.volumes,
        network: reading.interfaces,
    }
}

/// As [`assemble`], for a host reading of which nothing is known: there is no
/// snapshot where the reading's memory does not add up.
pub fn try_assemble(cpu: CpuInfo, reading: HostReading) -> (info: Option<SystemInfo>)
    ensures
        info is Some <==> reading@.memory_adds_up(),
        info matches Some(snapshot) ==> {
            &&& snapshot@ == snapshot_of(cpu@, reading@)
            &&& snapshot.disks@ == reading.volumes@
            &&& snapshot.network@ == reading.interfaces@
        },
{
    if reading.available_memory <= reading.total_memory {
        Some(assemble(cpu, reading))
    } else {
        None
    }
}

/// The lists of a snapshot are the lists of the host reading: as many
/// volumes and interfaces as the host listed, in its order, none when it
/// listed none.
pub proof fn lemma_lists_are_the_hosts(cpu: CpuInfoView, reading: HostReadingView)
    ensures
        snapshot_of(cpu, reading).disks == reading.volumes,
        snapshot_of(cpu, reading).network == reading.interfaces,
        snapshot_of(cpu, reading).disks.len() == reading.volumes.len(),
        snapshot_of(cpu, reading).network.len() == reading.interfaces.len(),
        reading.volumes.len() == 0 ==> snapshot_of(cpu, reading).disks == Seq::<DiskInfoView>::empty(),
        reading.interfaces.len() == 0 ==> snapshot_of(cpu, reading).network
            == Seq::<NetworkStatsView>::empty(),
{
}

/// Two queries of a host that lists as many volumes and interfaces both
/// times give snapshots of one shape, whatever the counters and the load
/// have done in between; where nothing changed at all, they give the same
/// snapshot.
pub proof fn lemma_unchanged_host_keeps_shape(
    first_cpu: CpuInfoView,
    first: HostReadingView,
    second_cpu: CpuInfoView,
    second: HostReadingView,
)
    requires
        first.volumes.len() == second.volumes.len(),
        first.interfaces.len() == second.interfaces.len(),
    ensures
        snapshot_of(first_cpu, first).disks.len() == snapshot_of(second_cpu, second).disks.len(),
        snapshot_of(first_cpu, first).network.len() == snapshot_of(
            second_cpu,
            second,
        ).network.len(),
        first_cpu == second_cpu && first == second ==> snapshot_of(first_cpu, first)
            == snapshot_of(second_cpu, second),
{
}

} // verus!
