use vstd::prelude::*;

verus! {

/// The smallest amount of physical memory, in KiB, that the bundle runs on.
pub const MIN_MEMORY_KIB: u64 = 409600;

/// The free disk space, in KiB, below which the user is asked to confirm.
pub const RECOMMENDED_DISK_KIB: u64 = 5242880;

/// Whether a host with `total_kib` KiB of physical memory meets the floor.
pub fn memory_sufficient(total_kib: u64) -> (r: bool)
    ensures
        r == (total_kib >= MIN_MEMORY_KIB),
{
    total_kib >= MIN_MEMORY_KIB
}

/// Whether `free_kib` KiB of free disk space meets the recommendation; when it
/// does not, installing goes on only after the user agrees.
pub fn disk_sufficient(free_kib: u64) -> (r: bool)
    ensures
        r == (free_kib >= RECOMMENDED_DISK_KIB),
{
    free_kib >= RECOMMENDED_DISK_KIB
}

} // verus!
