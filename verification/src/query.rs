//! The live query: a fresh handle to the operating system's counters is
//! acquired on every call, refreshed once so that the CPU and memory
//! readings are drawn from the same instant, and the reading is then judged
//! by `build_metrics`.
//!
//! The calls into the `sysinfo` crate stand behind trusted wrappers. What
//! they return depends on the live state of the machine, so the wrappers
//! promise nothing of the values; everything the library claims of a
//! snapshot is proved in `build_metrics`, which holds for every reading the
//! wrappers could hand back.

use vstd::prelude::*;

use crate::json::f32_decimal;
use crate::json::json_of;
use crate::json::to_json;
use crate::metrics::MetricsError;
use crate::metrics::SystemMetrics;
use crate::metrics::build_metrics;

verus! {

#[verifier::external_type_specification]
#[verifier::external_body]
pub struct ExSystem(sysinfo::System);

/// Relies on sysinfo::System::new_all: a fresh handle with every
/// subsystem's information loaded, reused by nothing else.
#[verifier::external_body]
fn system_new_all() -> sysinfo::System {
    sysinfo::System::new_all()
}

/// Relies on sysinfo::System::refresh_all: re-reads every subsystem's
/// counters, CPU and memory included, in one synchronous pass.
#[verifier::external_body]
fn system_refresh_all(sys: &mut sysinfo::System) {
    sys.refresh_all()
}

/// Relies on sysinfo::System::global_cpu_usage: the CPU utilization
/// percentage aggregated over all cores, as last refreshed. The value is a
/// live reading, so nothing is promised of it; it is handed on verbatim as
/// its raw bit pattern, together with its standard decimal text, which is
/// determined by the bits alone.
#[verifier::external_body]
fn system_global_cpu_usage_reading(sys: &sysinfo::System) -> (r: (u32, String))
    ensures
        r.1@ == f32_decimal(r.0),
{
    let v = sys.global_cpu_usage();
    (v.to_bits(), format!("{}", v))
}

/// Relies on sysinfo::System::used_memory: the bytes of physical memory in
/// use, as last refreshed. A live reading: nothing is promised of it.
#[verifier::external_body]
fn system_used_memory(sys: &sysinfo::System) -> u64 {
    sys.used_memory()
}

/// Relies on sysinfo::System::total_memory: the bytes of physical memory
/// installed, as last refreshed; zero where the counters could not be read.
/// A live reading: nothing is promised of it.
#[verifier::external_body]
fn system_total_memory(sys: &sysinfo::System) -> u64 {
    sys.total_memory()
}

/// Takes a fresh snapshot of system resource usage.
///
/// Each call re-initializes and refreshes its own handle, so no stale
/// cached value can be returned and concurrent calls share no state. A
/// reading whose counters were unavailable is surfaced as
/// `MetricsUnavailable`, never as a zeroed snapshot: every snapshot
/// returned is well-formed.
pub fn get_system_metrics() -> (r: Result<SystemMetrics, MetricsError>)
    ensures
        r matches Ok(m) ==> m.wf(),
        r matches Err(e) ==> e == MetricsError::MetricsUnavailable,
{
    let mut sys = system_new_all();
    system_refresh_all(&mut sys);
    let (cpu_usage_bits, _cpu_text) = system_global_cpu_usage_reading(&sys);
    let memory_used = system_used_memory(&sys);
    let memory_total = system_total_memory(&sys);
    build_metrics(cpu_usage_bits, memory_used, memory_total)
}

/// Takes a fresh snapshot and renders it as a JSON object.
///
/// The string returned is exactly the rendering `json_of` gives some
/// well-formed snapshot; a reading whose counters were unavailable is
/// surfaced as `MetricsUnavailable`, never as a zeroed record.
pub fn get_system_metrics_json() -> (r: Result<String, MetricsError>)
    ensures
        r matches Ok(s) ==> exists|m: SystemMetrics| m.wf() && s@ == json_of(m),
        r matches Err(e) ==> e == MetricsError::MetricsUnavailable,
{
    let mut sys = system_new_all();
    system_refresh_all(&mut sys);
    let (cpu_usage_bits, cpu_text) = system_global_cpu_usage_reading(&sys);
    let memory_used = system_used_memory(&sys);
    let memory_total = system_total_memory(&sys);
    match build_metrics(cpu_usage_bits, memory_used, memory_total) {
        Ok(m) => {
            let s = to_json(&m, cpu_text.as_str());
            proof {
                assert(m.wf() && s@ == json_of(m));
            }
            Ok(s)
        },
        Err(e) => Err(e),
    }
}

} // verus!
