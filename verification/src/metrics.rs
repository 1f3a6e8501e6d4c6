//! The snapshot value object and the rule that decides when a reading from
//! the operating system counts as available.

use vstd::prelude::*;

verus! {

/// A point-in-time reading of system resource usage.
///
/// `cpu_usage_bits` carries the aggregate CPU utilization percentage as the
/// raw bit pattern of an IEEE 754 single-precision number, so that the value
/// read from the operating system is passed through verbatim, bit for bit.
/// `memory_used` and `memory_total` are byte counts of physical memory.
///
/// `memory_used <= memory_total` is expected of a healthy system but not
/// enforced here: the values are passed through as the operating system
/// reported them.
#[derive(Clone, Copy, Debug, PartialEq, Eq, Structural)]
pub struct SystemMetrics {
    pub cpu_usage_bits: u32,
    pub memory_used: u64,
    pub memory_total: u64,
}

/// The single error kind: the operating-system counters could not be read
/// (permission denial, unsupported platform, sandbox restriction, or a
/// failure of the underlying facility).
#[derive(Clone, Copy, Debug, PartialEq, Eq, Structural)]
pub enum MetricsError {
    MetricsUnavailable,
}

/// Whether `b`, read as the bit pattern of an IEEE 754 single-precision
/// number, encodes a finite value: the exponent field (bits 23..31) is not
/// all ones, which is the encoding of infinities and NaNs.
pub open spec fn f32_bits_finite(b: u32) -> bool {
    b & 0x7F80_0000u32 != 0x7F80_0000u32
}

impl SystemMetrics {
    /// A well-formed snapshot: drawn from a readable system, so the total
    /// memory is positive and the CPU percentage is a finite number.
    pub open spec fn wf(self) -> bool {
        self.memory_total > 0 && f32_bits_finite(self.cpu_usage_bits)
    }
}

/// Whether `b` encodes a finite value, executably.
pub fn is_finite_bits(b: u32) -> (r: bool)
    ensures
        r == f32_bits_finite(b),
{
    b & 0x7F80_0000u32 != 0x7F80_0000u32
}

/// Decides whether a raw reading from the operating system is an available
/// snapshot, and builds it.
///
/// A reading counts as unavailable when the reported total memory is zero
/// (the value the query facility yields where memory counters cannot be
/// read, which must not be mistaken for a machine with no memory) or when
/// the CPU percentage is not a finite number. Partial availability is a
/// failure: no partially-populated snapshot is ever returned. On success
/// the reading is passed through verbatim.
pub fn build_metrics(cpu_usage_bits: u32, memory_used: u64, memory_total: u64) -> (r: Result<
    SystemMetrics,
    MetricsError,
>)
    ensures
        r is Ok <==> memory_total > 0 && f32_bits_finite(cpu_usage_bits),
        r matches Ok(m) ==> m == (SystemMetrics { cpu_usage_bits, memory_used, memory_total }),
        r matches Err(e) ==> e == MetricsError::MetricsUnavailable,
{
    if memory_total > 0 && is_finite_bits(cpu_usage_bits) {
        Ok(SystemMetrics { cpu_usage_bits, memory_used, memory_total })
    } else {
        Err(MetricsError::MetricsUnavailable)
    }
}

/// On a healthy system every snapshot reports a positive memory total, a
/// non-negative used-memory count, and a finite CPU percentage.
pub proof fn lemma_snapshot_healthy(m: SystemMetrics)
    requires
        m.wf(),
    ensures
        m.memory_total > 0,
        m.memory_used >= 0,
        f32_bits_finite(m.cpu_usage_bits),
{
}

} // verus!
