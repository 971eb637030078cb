//! Host readings as plain integers, and the average load over logical cores.
//! Percentages, energies and temperatures are held in hundredths.
use vstd::prelude::*;

verus! {

/// The values of the summary screen.
#[derive(Clone, Copy, Debug, PartialEq, Eq, Structural)]
pub struct Summary {
    /// Load averaged over logical cores, in hundredths of a percent.
    pub cpu_usage_centi: u64,
    /// Memory in use, in kilobytes.
    pub used_memory_kb: u64,
    /// Charge of the first battery in hundredths of a percent; `None` without one.
    pub battery_centi: Option<u64>,
}

/// A reading of the first processor.
#[derive(Clone, Debug)]
pub struct CpuSnapshot {
    pub name: String,
    pub frequency_mhz: u64,
    /// In hundredths of a percent.
    pub usage_centi: u64,
}

/// A reading of memory, in kilobytes.
#[derive(Clone, Copy, Debug, PartialEq, Eq, Structural)]
pub struct MemorySnapshot {
    pub total_kb: u64,
    pub used_kb: u64,
    pub free_kb: u64,
}

/// The charging state of a battery.
#[derive(Clone, Copy, Debug, PartialEq, Eq, Structural)]
pub enum BatteryState {
    Unknown,
    Charging,
    Discharging,
    Empty,
    Full,
}

/// A reading of the first battery.
#[derive(Clone, Copy, Debug, PartialEq, Eq, Structural)]
pub struct BatterySnapshot {
    pub state: BatteryState,
    /// Stored energy in hundredths of a watt-hour.
    pub energy_centi_wh: u64,
    /// Temperature in hundredths of a degree Celsius, where the device reports one.
    pub temperature_centi_c: Option<i64>,
}

pub open spec fn sum_of(s: Seq<u32>) -> int
    decreases s.len(),
{
    if s.len() == 0 {
        0
    } else {
        sum_of(s.drop_last()) + s.last()
    }
}

/// The average of per-core loads, rounded to the nearest integer (halves up);
/// `0` for no cores.
pub open spec fn average_of(s: Seq<u32>) -> int {
    if s.len() == 0 {
        0
    } else {
        (sum_of(s) + s.len() / 2) / (s.len() as int)
    }
}

/// The load averaged over logical cores, from the load of each core (any unit,
/// hundredths of a percent in this library), rounded to the nearest integer with
/// halves going up. With no cores it is `0`.
pub fn aggregate_cpu_usage(per_core: &Vec<u32>) -> (r: u32)
    ensures
        r == average_of(per_core@),
{
    let n = per_core.len();
    if n == 0 {
        return 0;
    }
    let mut total: u128 = 0;
    let mut i: usize = 0;
    while i < n
        invariant
            n == per_core@.len(),
            i <= n,
            total == sum_of(per_core@.subrange(0, i as int)),
            total <= i * (u32::MAX as int),
        decreases n - i,
    {
        proof {
            let s = per_core@.subrange(0, i as int + 1);
            assert(s.drop_last() =~= per_core@.subrange(0, i as int));
            assert((i + 1) * (u32::MAX as int) == i * (u32::MAX as int) + (u32::MAX as int))
                by (nonlinear_arith);
        }
        total = total + per_core[i] as u128;
        i = i + 1;
    }
    proof {
        assert(per_core@.subrange(0, n as int) =~= per_core@);
        let t = total as int;
        let m = n as int;
        assert((t + m / 2) / m <= u32::MAX) by (nonlinear_arith)
            requires t <= m * (u32::MAX as int), m > 0, t >= 0, 0 <= m / 2 < m;
    }
    ((total + (n as u128) / 2) / (n as u128)) as u32
}

} // verus!
