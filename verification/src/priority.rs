//! How the game's priority and CPU affinity settings reach Windows.
use crate::model::{CpuAffinity, ProcessPriority};
use vstd::prelude::*;

verus! {

/// The Windows priority class of each priority setting (the
/// `*_PRIORITY_CLASS` values of `SetPriorityClass`).
pub open spec fn spec_priority_class(p: ProcessPriority) -> u32 {
    match p {
        ProcessPriority::Idle => 64,
        ProcessPriority::BelowNormal => 16384,
        ProcessPriority::Normal => 32,
        ProcessPriority::AboveNormal => 32768,
        ProcessPriority::High => 128,
        ProcessPriority::Realtime => 256,
    }
}

/// The Windows priority class that `p` asks for.
pub fn priority_class(p: &ProcessPriority) -> (c: u32)
    ensures
        c == spec_priority_class(*p),
{
    match p {
        ProcessPriority::Idle => 64,
        ProcessPriority::BelowNormal => 16384,
        ProcessPriority::Normal => 32,
        ProcessPriority::AboveNormal => 32768,
        ProcessPriority::High => 128,
        ProcessPriority::Realtime => 256,
    }
}

/// Whether setting `p` is logged as a security warning: Realtime priority
/// can stop Windows from servicing hardware interrupts.
pub fn warns_realtime(p: &ProcessPriority) -> (b: bool)
    ensures
        b == (*p == ProcessPriority::Realtime),
{
    match p {
        ProcessPriority::Realtime => true,
        _ => false,
    }
}

/// The affinity mask handed to `SetProcessAffinityMask`: the configured
/// mask as a `usize`, or none when the affinity is left unchanged.
pub fn affinity_mask(a: &CpuAffinity) -> (m: Option<usize>)
    ensures
        a.mask is None ==> m is None,
        a.mask matches Some(x) ==> m == Some(x as usize),
{
    match a.mask {
        Some(x) => Some(x as usize),
        None => None,
    }
}

} // verus!
