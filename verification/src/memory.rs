//! Working-set decisions: the hint given to the game and which background
//! processes are trimmed.
use crate::guards::{is_protected_process, listed, protected_processes};
use crate::model::MemoryOptimization;
use vstd::prelude::*;

verus! {

/// Background processes are trimmed only above this working set (100 MiB);
/// trimming small ones costs paging for little memory.
pub const MIN_TRIM_BYTES: usize = 104857600;

/// The working-set bounds asked for the game: the configured minimum and
/// four times it as the maximum; none when no minimum is configured.
pub fn working_set_bounds(opts: &MemoryOptimization) -> (r: Option<(usize, usize)>)
    requires
        opts.target_min_working_set_bytes matches Some(b) ==> b * 4 <= usize::MAX,
    ensures
        opts.target_min_working_set_bytes is None ==> r is None,
        opts.target_min_working_set_bytes matches Some(b) ==> r == Some((b as usize, (b * 4) as usize)),
{
    match opts.target_min_working_set_bytes {
        Some(b) => {
            let min_bytes = b as usize;
            Some((min_bytes, min_bytes * 4))
        },
        None => None,
    }
}

/// Whether process `pid` named `exe_name` is looked at for trimming while
/// the game runs as `target_pid`: not the game, not the idle process, not a
/// protected process.
pub fn is_trim_candidate(pid: u32, target_pid: u32, exe_name: &str) -> (b: bool)
    ensures
        b == (pid != target_pid && pid != 0 && !listed(protected_processes(), exe_name@)),
{
    pid != target_pid && pid != 0 && !is_protected_process(exe_name)
}

/// Whether a candidate is trimmed: its memory counters were read and its
/// working set is above `MIN_TRIM_BYTES`. Otherwise it counts as skipped.
pub fn should_trim(counters_read: bool, working_set: usize) -> (b: bool)
    ensures
        b == (counters_read && working_set > MIN_TRIM_BYTES),
{
    counters_read && working_set > MIN_TRIM_BYTES
}

} // verus!
