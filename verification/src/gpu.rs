//! The per-executable GPU preference that DirectX reads from the registry.
use crate::model::GpuPreference;
use crate::text::owned;
use vstd::prelude::*;

verus! {

broadcast use vstd::string::group_string_axioms;

/// The registry value that selects `pref`; `Default` writes nothing.
pub open spec fn spec_gpu_pref_value(pref: GpuPreference) -> Option<Seq<char>> {
    match pref {
        GpuPreference::Default => None,
        GpuPreference::PowerSaving => Some("GpuPreference=1;"@),
        GpuPreference::HighPerformance => Some("GpuPreference=2;"@),
    }
}

/// The registry value that selects `pref`, if it asks for a change.
pub fn gpu_pref_value(pref: &GpuPreference) -> (v: Option<String>)
    ensures
        v matches Some(s) ==> spec_gpu_pref_value(*pref) == Some(s@),
        v is None <==> spec_gpu_pref_value(*pref) is None,
{
    match pref {
        GpuPreference::Default => None,
        GpuPreference::PowerSaving => Some(owned("GpuPreference=1;")),
        GpuPreference::HighPerformance => Some(owned("GpuPreference=2;")),
    }
}

} // verus!
