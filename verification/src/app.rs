//! Decisions of the user interface.
use crate::model::{AppConfig, ProcessPriority, SessionPhase};
use vstd::prelude::*;

verus! {

/// The tabs of the main window.
#[derive(Clone, Copy, Debug, PartialEq, Eq, Structural)]
pub enum Tab {
    Dashboard,
    Profiles,
    Logs,
    Settings,
}

/// Whether the Launch button is enabled: no session is under way and a
/// profile is selected.
pub fn can_launch(phase: SessionPhase, selected_profile: Option<usize>) -> (b: bool)
    ensures
        b == (!phase.spec_is_active() && selected_profile is Some),
{
    !phase.is_active() && selected_profile.is_some()
}

/// Whether launching a profile with `priority` first asks the user to
/// confirm: Realtime priority, when the settings ask for confirmation.
pub fn needs_realtime_confirmation(priority: ProcessPriority, config: &AppConfig) -> (b: bool)
    ensures
        b == (priority == ProcessPriority::Realtime && config.confirm_realtime_priority),
{
    priority == ProcessPriority::Realtime && config.confirm_realtime_priority
}

} // verus!
