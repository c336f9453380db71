//! Host metrics: one reading of memory and processor figures, stamped with
//! the time at which it was taken.

use vstd::prelude::*;

verus! {

/// One reading of the host.
#[derive(Clone, Copy, Debug, PartialEq, Eq)]
pub struct HostSample {
    /// Utilisation of all processors taken together, in percent: the bit
    /// pattern of an IEEE 754 single-precision number.
    pub cpu_usage_bits: u32,
    pub memory_total_bytes: u64,
    pub memory_used_bytes: u64,
    pub memory_available_bytes: u64,
    /// Number of logical processors.
    pub cpu_count: usize,
}

/// The metrics that the service reports: one reading of the host and the
/// time at which it was taken.
#[derive(Clone, Debug, PartialEq, Eq)]
pub struct SystemMetrics {
    pub memory_total_bytes: u64,
    pub memory_used_bytes: u64,
    pub memory_available_bytes: u64,
    /// Utilisation of all processors taken together, in percent: the bit
    /// pattern of an IEEE 754 single-precision number.
    pub cpu_usage_bits: u32,
    /// Number of logical processors.
    pub cpu_count: usize,
    /// When the reading was taken, as an RFC 3339 date and time.
    pub timestamp: String,
}

/// What a [`SystemMetrics`] says: the reading, and the time as text.
pub struct SystemMetricsView {
    pub sample: HostSample,
    pub timestamp: Seq<char>,
}

impl View for SystemMetrics {
    type V = SystemMetricsView;

    open spec fn view(&self) -> SystemMetricsView {
        SystemMetricsView {
            sample: HostSample {
                cpu_usage_bits: self.cpu_usage_bits,
                memory_total_bytes: self.memory_total_bytes,
                memory_used_bytes: self.memory_used_bytes,
                memory_available_bytes: self.memory_available_bytes,
                cpu_count: self.cpu_count,
            },
            timestamp: self.timestamp@,
        }
    }
}

impl HostSample {
    /// Whether the used-memory figure of this reading can be relied on: a
    /// host that claims more available than total memory is reported with no
    /// memory in use.
    pub open spec fn used_memory_is_guarded(self) -> bool {
        self.memory_available_bytes > self.memory_total_bytes ==> self.memory_used_bytes == 0
    }
}

impl SystemMetrics {
    /// Reports `sample` as taken at `timestamp`, figure for figure.
    pub fn from_sample(sample: HostSample, timestamp: String) -> (metrics: SystemMetrics)
        ensures
            metrics@ == (SystemMetricsView { sample, timestamp: timestamp@ }),
    {
        SystemMetrics {
            memory_total_bytes: sample.memory_total_bytes,
            memory_used_bytes: sample.memory_used_bytes,
            memory_available_bytes: sample.memory_available_bytes,
            cpu_usage_bits: sample.cpu_usage_bits,
            cpu_count: sample.cpu_count,
            timestamp,
        }
    }
}

/// `sysinfo::System`, the handle through which the host is read. Nothing
/// inside it is visible here.
#[verifier::external_type_specification]
#[verifier::external_body]
pub struct ExSystem(sysinfo::System);

/// `sysinfo::Cpu`, one processor's figures inside a `System`.
#[verifier::external_type_specification]
#[verifier::external_body]
pub struct ExCpu(sysinfo::Cpu);

/// The total physical memory, in bytes, that `sys` holds from its last
/// refresh: what `System::total_memory` hands out.
pub uninterp spec fn total_memory_of(sys: &sysinfo::System) -> u64;

/// The available physical memory, in bytes, that `sys` holds from its last
/// refresh: what `System::available_memory` hands out.
pub uninterp spec fn available_memory_of(sys: &sysinfo::System) -> u64;

/// The used physical memory, in bytes, that `sys` holds from its last
/// refresh: what `System::used_memory` hands out where it can be asked.
pub uninterp spec fn used_memory_of(sys: &sysinfo::System) -> u64;

/// The number of logical processors that `sys` holds: the length of the list
/// that `System::cpus` lends.
pub uninterp spec fn cpu_count_of(sys: &sysinfo::System) -> usize;

/// The figures of all processors taken together that `sys` holds: what
/// `System::global_cpu_info` lends.
pub uninterp spec fn global_cpu_of(sys: &sysinfo::System) -> &sysinfo::Cpu;

/// The utilisation that `cpu` holds, as the bit pattern of the
/// single-precision number that `Cpu::cpu_usage` hands out.
pub uninterp spec fn usage_bits_of(cpu: &sysinfo::Cpu) -> u32;

/// `System::new_all` reads the whole host once. Nothing is claimed of what it
/// found.
pub assume_specification[ sysinfo::System::new_all ]() -> (sys: sysinfo::System);

/// `System::refresh_all` reads the whole host again. Nothing is claimed of
/// what it found.
pub assume_specification[ sysinfo::System::refresh_all ](sys: &mut sysinfo::System);

/// `System::total_memory` returns the stored figure and only gives it the
/// name [`total_memory_of`].
pub assume_specification[ sysinfo::System::total_memory ](sys: &sysinfo::System) -> (bytes: u64)
    ensures
        bytes == total_memory_of(sys),
;

/// `System::available_memory` returns the stored figure and only gives it the
/// name [`available_memory_of`].
pub assume_specification[ sysinfo::System::available_memory ](
    sys: &sysinfo::System,
) -> (bytes: u64)
    ensures
        bytes == available_memory_of(sys),
;

/// `System::used_memory`. On Linux and Windows it subtracts the available
/// figure from the total one, which overflows when the host reports more
/// available than total memory, so such a `System` is kept away from it.
/// The figure depends on what `sys` holds and on nothing else, and only gets
/// the name [`used_memory_of`].
pub assume_specification[ sysinfo::System::used_memory ](sys: &sysinfo::System) -> (bytes: u64)
    requires
        available_memory_of(sys) <= total_memory_of(sys),
    ensures
        bytes == used_memory_of(sys),
;

/// `System::cpus` lends the stored list of logical processors; its length
/// only gets the name [`cpu_count_of`].
pub assume_specification<'a>[ sysinfo::System::cpus ](
    sys: &'a sysinfo::System,
) -> (cpus: &'a [sysinfo::Cpu])
    ensures
        cpus@.len() == cpu_count_of(sys),
;

/// `System::global_cpu_info` lends the stored figures of all processors
/// taken together, and only gives them the name [`global_cpu_of`].
pub assume_specification<'a>[ sysinfo::System::global_cpu_info ](
    sys: &'a sysinfo::System,
) -> (cpu: &'a sysinfo::Cpu)
    ensures
        cpu == global_cpu_of(sys),
;

/// `Cpu::cpu_usage`, a single-precision percentage, handed on as its
/// IEEE 754 bit pattern. It returns the stored figure, which only gets the
/// name [`usage_bits_of`].
#[verifier::external_body]
fn cpu_usage_bits(cpu: &sysinfo::Cpu) -> (bits: u32)
    ensures
        bits == usage_bits_of(cpu),
{
    cpu.cpu_usage().to_bits()
}

/// `chrono::Utc::now`, written out by `DateTime::to_rfc3339`. The text
/// depends on the clock, so nothing is claimed of it. No argument decides
/// what the clock says: chrono panics on one that stands before 1970.
#[verifier::external_body]
fn current_timestamp() -> (text: String) {
    chrono::Utc::now().to_rfc3339()
}

/// The used memory that a reading of `sys` reports: the figure that `sys`
/// holds, or 0 where the host claims more available than total memory and
/// the figure cannot be had.
pub open spec fn guarded_used_memory(sys: &sysinfo::System) -> u64 {
    if available_memory_of(sys) <= total_memory_of(sys) {
        used_memory_of(sys)
    } else {
        0
    }
}

/// The reading that `sys` holds, figure for figure.
pub open spec fn reading_of(sys: &sysinfo::System) -> HostSample {
    HostSample {
        cpu_usage_bits: usage_bits_of(global_cpu_of(sys)),
        memory_total_bytes: total_memory_of(sys),
        memory_used_bytes: guarded_used_memory(sys),
        memory_available_bytes: available_memory_of(sys),
        cpu_count: cpu_count_of(sys),
    }
}

/// Reads the used-memory figure of `sys`, or reports 0 where the host claims
/// more available than total memory and the figure cannot be had.
fn used_memory_or_zero(sys: &sysinfo::System, total: u64, available: u64) -> (used: u64)
    requires
        total == total_memory_of(sys),
        available == available_memory_of(sys),
    ensures
        used == guarded_used_memory(sys),
{
    if available <= total {
        sys.used_memory()
    } else {
        0
    }
}

/// Reads out what `sys` holds, without refreshing it: every figure of the
/// reading is the one that `sys` hands out, but for the used memory of a host
/// that claims more available than total memory, which is 0.
pub fn read_sample(sys: &sysinfo::System) -> (sample: HostSample)
    ensures
        sample == reading_of(sys),
{
    let cpu_usage_bits = cpu_usage_bits(sys.global_cpu_info());
    let memory_total_bytes = sys.total_memory();
    let memory_available_bytes = sys.available_memory();
    let memory_used_bytes = used_memory_or_zero(sys, memory_total_bytes, memory_available_bytes);
    let cpu_count = sys.cpus().len();
    HostSample {
        cpu_usage_bits,
        memory_total_bytes,
        memory_used_bytes,
        memory_available_bytes,
        cpu_count,
    }
}

/// Takes one reading of the host: all of the host is read into a fresh
/// `System`, read once more, and the reading is what that one `System` then
/// holds.
pub fn sample_host() -> (sample: HostSample)
    ensures
        exists|sys: &sysinfo::System| sample == #[trigger] reading_of(sys),
        sample.used_memory_is_guarded(),
{
    let mut sys = sysinfo::System::new_all();
    sys.refresh_all();
    read_sample(&sys)
}

/// Answers a request for the metrics: reads the host once and stamps the
/// reading with the current time. Every call reads anew.
pub fn get_metrics() -> (metrics: SystemMetrics)
    ensures
        exists|sys: &sysinfo::System| metrics@.sample == #[trigger] reading_of(sys),
        metrics@.sample.used_memory_is_guarded(),
{
    let sample = sample_host();
    let timestamp = current_timestamp();
    SystemMetrics::from_sample(sample, timestamp)
}

} // verus!
