//! A live snapshot of one host: processor load, memory, volumes, network
//! interfaces, uptime and host name.
//!
//! A background sampler publishes the total processor load into a shared
//! [`cpu::CpuInfo`]; every query copies that reading and joins it with what the
//! host reports at that moment into one [`snapshot::SystemInfo`].

pub mod cpu;
pub mod host;
pub mod query;
pub mod sampler;
pub mod snapshot;
pub mod uptime;

pub use uptime::format_uptime;
