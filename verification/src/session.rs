//! The session across runs of the application: the session the user
//! interface prepares for a launch, and the one found interrupted at start.
use crate::model::{SessionPhase, SessionState, SessionView};
use crate::text::owned;
use crate::time::Timestamp;
use vstd::prelude::*;

verus! {

broadcast use vstd::string::group_string_axioms;

/// The session found at start-up, if it was interrupted: one that was
/// preparing, running or restoring when the application stopped.
pub fn interrupted_session(loaded: Option<SessionState>) -> (r: Option<SessionState>)
    ensures
        r == (match loaded {
            Some(s) => if s.phase.spec_is_active() {
                Some(s)
            } else {
                None
            },
            None => None,
        }),
{
    match loaded {
        Some(s) => if s.phase.is_active() {
            Some(s)
        } else {
            None
        },
        None => None,
    }
}

/// The session a launch starts from: blank but for the profile's friendly
/// name, the PreLaunch phase and the start time.
pub fn session_for_launch(profile_name: &str, started_at: Timestamp) -> (s: SessionState)
    ensures
        s@ == (SessionView {
            profile_id: None,
            profile_name: Some(profile_name@),
            target_pid: None,
            phase: SessionPhase::PreLaunch,
            started_at: Some(started_at),
            ended_at: None,
            pre_session_snapshot: None,
            session_log: Seq::empty(),
        }),
{
    let mut s = SessionState::default();
    s.phase = SessionPhase::PreLaunch;
    s.profile_name = Some(owned(profile_name));
    s.started_at = Some(started_at);
    assert(s@.session_log =~= Seq::empty());
    s
}

} // verus!
