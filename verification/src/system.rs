//! A summary of what the machine offers, computed from readings that the
//! driver took. Sizes stay in bytes; the caller scales them for display.

use vstd::prelude::*;
use vstd::string::StringExecFns;

verus! {

/// What was read from the machine.
#[derive(Clone, Debug, PartialEq, Eq)]
pub struct SystemReadings {
    pub os_name: Option<String>,
    /// The brand of each processor core, in order.
    pub cpu_brands: Vec<String>,
    pub total_memory: u64,
    pub available_memory: u64,
    /// The total and the available space of each disk.
    pub disks: Vec<(u64, u64)>,
}

/// What the readings amount to.
#[derive(Clone, Debug, PartialEq, Eq)]
pub struct SystemSummary {
    pub os: String,
    pub cpu_brand: String,
    pub cpu_cores: usize,
    pub total_memory_bytes: u64,
    pub available_memory_bytes: u64,
    pub total_disk_bytes: u128,
    pub available_disk_bytes: u128,
}

/// The total space of all disks.
pub open spec fn total_space(disks: Seq<(u64, u64)>) -> nat
    decreases disks.len(),
{
    if disks.len() == 0 {
        0
    } else {
        total_space(disks.drop_last()) + disks.last().0 as nat
    }
}

/// The available space of all disks.
pub open spec fn available_space(disks: Seq<(u64, u64)>) -> nat
    decreases disks.len(),
{
    if disks.len() == 0 {
        0
    } else {
        available_space(disks.drop_last()) + disks.last().1 as nat
    }
}

proof fn lemma_space_bounds(disks: Seq<(u64, u64)>)
    ensures
        total_space(disks) <= disks.len() * 0xffff_ffff_ffff_ffff,
        available_space(disks) <= disks.len() * 0xffff_ffff_ffff_ffff,
    decreases disks.len(),
{
    if disks.len() > 0 {
        lemma_space_bounds(disks.drop_last());
        assert((disks.len() - 1) * 0xffff_ffff_ffff_ffff + 0xffff_ffff_ffff_ffff == disks.len()
            * 0xffff_ffff_ffff_ffff) by (nonlinear_arith);
    }
}

/// Sums up the readings: the operating system's name or `Unknown OS`, the
/// brand of the first core or `Unknown CPU`, the number of cores, the
/// memory as read, and the space of all disks together.
pub fn summarize(readings: &SystemReadings) -> (summary: SystemSummary)
    ensures
        summary.os@ == (match readings.os_name {
            Some(name) => name@,
            None => "Unknown OS"@,
        }),
        summary.cpu_brand@ == (if readings.cpu_brands@.len() > 0 {
            readings.cpu_brands@[0]@
        } else {
            "Unknown CPU"@
        }),
        summary.cpu_cores == readings.cpu_brands@.len(),
        summary.total_memory_bytes == readings.total_memory,
        summary.available_memory_bytes == readings.available_memory,
        summary.total_disk_bytes == total_space(readings.disks@),
        summary.available_disk_bytes == available_space(readings.disks@),
{
    let os = match &readings.os_name {
        Some(name) => name.clone(),
        None => String::from_str("Unknown OS"),
    };
    let cpu_brand = if readings.cpu_brands.len() > 0 {
        readings.cpu_brands[0].clone()
    } else {
        String::from_str("Unknown CPU")
    };
    let mut total: u128 = 0;
    let mut available: u128 = 0;
    let mut i: usize = 0;
    assert(readings.disks@.take(0) == Seq::<(u64, u64)>::empty());
    while i < readings.disks.len()
        invariant
            i <= readings.disks.len(),
            total == total_space(readings.disks@.take(i as int)),
            available == available_space(readings.disks@.take(i as int)),
        decreases readings.disks.len() - i,
    {
        proof {
            let seen = readings.disks@.take(i as int);
            let next = readings.disks@.take(i + 1);
            assert(next.drop_last() == seen);
            assert(next.last() == readings.disks@[i as int]);
            lemma_space_bounds(next);
            assert(next.len() * 0xffff_ffff_ffff_ffff <= 0xffff_ffff_ffff_ffff
                * 0xffff_ffff_ffff_ffff) by (nonlinear_arith)
                requires
                    next.len() <= 0xffff_ffff_ffff_ffff,
            ;
        }
        total = total + readings.disks[i].0 as u128;
        available = available + readings.disks[i].1 as u128;
        i = i + 1;
    }
    assert(readings.disks@.take(readings.disks@.len() as int) == readings.disks@);
    SystemSummary {
        os,
        cpu_brand,
        cpu_cores: readings.cpu_brands.len(),
        total_memory_bytes: readings.total_memory,
        available_memory_bytes: readings.available_memory,
        total_disk_bytes: total,
        available_disk_bytes: available,
    }
}

} // verus!
