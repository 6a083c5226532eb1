//! A launch, step by step. The launch decides; the caller does the work
//! (reads the system, stops services, starts the game, waits) and reports
//! what came of it. Each step takes the report of the last action and gives
//! the next action, until the launch finishes.
use crate::errors::{AppError, AppResult};
use crate::model::{
    opt_view, GpuPreference, KilledProcessRecord, Profile, SessionPhase, SessionState, SessionView,
    SnapshotView, SystemSnapshot,
};
use crate::optimizer::{
    launch_args_of, launch_command, process_close_plan, queried_services, record_queries,
    record_service_queries, restarted_services, service_stop_plan, services_to_query, stop_plan,
    to_relaunch, closes_view, close_plan, stops_view, LaunchCommand, Optimizer, ProcessClose,
    RestorePlan, ServiceStop, ServiceStopKind, lemma_stopped_services_restarted,
    lemma_record_queries_unique,
};
use crate::paths::{exe_file_name, file_name};
use crate::text::{owned, views};
use crate::time::Timestamp;
use vstd::prelude::*;
use vstd::string::StringExecFns;

verus! {

broadcast use vstd::string::group_string_axioms;

/// Where a launch stands: which report it waits for.
#[derive(Clone, Copy, Debug, PartialEq, Eq, Structural)]
pub enum LaunchStage {
    Start,
    AwaitElevation,
    AwaitExecutable,
    AwaitServiceQueries,
    AwaitGpuRead,
    AwaitPreLaunchSaved,
    AwaitServicesStopped,
    AwaitServicesDelay,
    AwaitProcessesClosed,
    AwaitProcessesDelay,
    AwaitGpuSet,
    AwaitGpuPublished,
    AwaitSpawn,
    AwaitRunningSaved,
    AwaitLaunchDelay,
    AwaitSettings,
    AwaitTrim,
    AwaitMonitor,
    AwaitReapply,
    AwaitFinalPidPublished,
    AwaitRestoringSaved,
    AwaitRestore,
    AwaitCompletedSaved,
    Finished,
}

impl LaunchStage {
    /// The order of the stages; every step moves to a later one.
    pub open spec fn rank(self) -> int {
        match self {
            LaunchStage::Start => 0,
            LaunchStage::AwaitElevation => 1,
            LaunchStage::AwaitExecutable => 2,
            LaunchStage::AwaitServiceQueries => 3,
            LaunchStage::AwaitGpuRead => 4,
            LaunchStage::AwaitPreLaunchSaved => 5,
            LaunchStage::AwaitServicesStopped => 6,
            LaunchStage::AwaitServicesDelay => 7,
            LaunchStage::AwaitProcessesClosed => 8,
            LaunchStage::AwaitProcessesDelay => 9,
            LaunchStage::AwaitGpuSet => 10,
            LaunchStage::AwaitGpuPublished => 11,
            LaunchStage::AwaitSpawn => 12,
            LaunchStage::AwaitRunningSaved => 13,
            LaunchStage::AwaitLaunchDelay => 14,
            LaunchStage::AwaitSettings => 15,
            LaunchStage::AwaitTrim => 16,
            LaunchStage::AwaitMonitor => 17,
            LaunchStage::AwaitReapply => 18,
            LaunchStage::AwaitFinalPidPublished => 19,
            LaunchStage::AwaitRestoringSaved => 20,
            LaunchStage::AwaitRestore => 21,
            LaunchStage::AwaitCompletedSaved => 22,
            LaunchStage::Finished => 23,
        }
    }

    /// The session phase the launch has recorded by this stage, once it has
    /// recorded one and while it has not finished.
    pub open spec fn recorded_phase(self) -> Option<SessionPhase> {
        if 5 <= self.rank() <= 12 {
            Some(SessionPhase::PreLaunch)
        } else if 13 <= self.rank() <= 19 {
            Some(SessionPhase::Running)
        } else if 20 <= self.rank() <= 21 {
            Some(SessionPhase::Restoring)
        } else if self.rank() == 22 {
            Some(SessionPhase::Completed)
        } else {
            None
        }
    }
}

/// What the caller reports after an action.
#[derive(Debug)]
pub enum LaunchEvent {
    /// The launch is to begin.
    Begin,
    /// Whether the process runs with administrator rights.
    Elevation(bool),
    /// Whether the game's executable exists.
    ExecutableExists(bool),
    /// For each queried service in turn, whether it was running; `None`
    /// where the query failed.
    ServicesQueried(Vec<Option<bool>>),
    /// The game's GPU preference before the session, if it had one.
    GpuPreferenceRead(Option<String>),
    /// Whether the session was saved.
    SessionSaved(AppResult<()>),
    /// The action completed and has nothing to report.
    Done,
    /// The programs that were terminated.
    ProcessesClosed(Vec<KilledProcessRecord>),
    /// The GPU preference was set; the value it had before, if any.
    GpuPreferenceSet(AppResult<Option<String>>),
    /// The game was started with this process id, or failed to start with
    /// this message.
    Spawned(Result<u32, String>),
    /// The game (or its successor) exited; the process id last watched.
    MonitorFinished(AppResult<u32>),
}

/// What the caller is to do next.
#[derive(Debug)]
pub enum LaunchAction {
    /// Check that the process runs with administrator rights.
    CheckElevation,
    /// Check that this executable exists.
    CheckExecutable(String),
    /// Ask whether each of these services is running.
    QueryServices(Vec<String>),
    /// Read the GPU preference of this executable.
    ReadGpuPreference(String),
    /// Persist the session (`LaunchSession::session`) and show it.
    SaveSession,
    /// Stop these services (or report why not).
    StopServices(Vec<ServiceStop>),
    /// Wait this many milliseconds.
    Sleep(u64),
    /// Terminate every process of each of these programs.
    CloseProcesses(Vec<ProcessClose>),
    /// Set the GPU preference of this executable.
    SetGpuPreference(String, GpuPreference),
    /// Show the session (`LaunchSession::session`) without persisting it.
    PublishSession,
    /// Start the game.
    Spawn(LaunchCommand),
    /// Apply the profile's priority, affinity and working set to this process.
    ApplySettings(u32),
    /// Trim the working sets of the other processes.
    TrimBackground(u32),
    /// Watch this process and its successors with the same executable name,
    /// waiting `grace_secs` after each exit for a successor.
    Monitor { pid: u32, exe_name: String, grace_secs: u64 },
    /// Put the system back.
    Restore(RestorePlan),
    /// The launch is over, with this outcome.
    Finish(AppResult<()>),
}

/// A launch in progress.
pub struct LaunchSession {
    profile: Profile,
    exe_name: String,
    session: SessionState,
    snapshot: SystemSnapshot,
    stage: LaunchStage,
    initial_pid: u32,
    final_pid: u32,
}

/// A launch as plain values.
pub ghost struct LaunchView {
    pub profile: Profile,
    pub exe_name: Seq<char>,
    pub session: SessionView,
    pub snapshot: SnapshotView,
    pub stage: LaunchStage,
    pub initial_pid: u32,
    pub final_pid: u32,
}

impl View for LaunchSession {
    type V = LaunchView;

    closed spec fn view(&self) -> LaunchView {
        LaunchView {
            profile: self.profile,
            exe_name: self.exe_name@,
            session: self.session@,
            snapshot: self.snapshot@,
            stage: self.stage,
            initial_pid: self.initial_pid,
            final_pid: self.final_pid,
        }
    }
}

/// `pre` with only its stage changed.
pub open spec fn moved(pre: LaunchView, post: LaunchView, stage: LaunchStage) -> bool {
    post == LaunchView { stage, ..pre }
}

/// `act` starts the game of `profile`.
pub open spec fn spawns(profile: Profile, act: LaunchAction) -> bool {
    act matches LaunchAction::Spawn(c) && c.program@ == profile.executable_path@ && views(c.args@)
        == launch_args_of(profile.launch_args) && c.working_dir == profile.working_directory
}

/// `act` watches the launched game.
pub open spec fn monitors(pre: LaunchView, act: LaunchAction) -> bool {
    act matches LaunchAction::Monitor { pid, exe_name, grace_secs } && pid == pre.initial_pid
        && exe_name@ == pre.exe_name && grace_secs == pre.profile.delays.relaunch_grace_secs
}

/// `act` ends the launch with the error `e`.
pub open spec fn fails_with(pre: LaunchView, post: LaunchView, act: LaunchAction, e: AppError) -> bool {
    moved(pre, post, LaunchStage::Finished) && act == LaunchAction::Finish(Err(e))
}

/// The snapshot the restore works from: the one recorded with the session.
pub open spec fn restore_snapshot(s: SessionView) -> SnapshotView {
    match s.pre_session_snapshot {
        Some(v) => v,
        None => SystemSnapshot::default_view(),
    }
}

/// `plan` restores the system recorded in `snap` for the game of `profile`.
pub open spec fn restores(plan: RestorePlan, snap: SnapshotView, profile: Profile) -> bool {
    &&& plan.exe_name@ == file_name(profile.executable_path@)
    &&& opt_view(plan.gpu_previous) == snap.gpu_preference_before
    &&& views(plan.start_services@) == restarted_services(snap.services)
    &&& plan.relaunch@ == to_relaunch(snap.killed_processes)
}

/// One step of a launch: in `pre`, on report `ev` at time `now`, the launch
/// goes to `post` and asks for `act`.
pub open spec fn next(pre: LaunchView, ev: LaunchEvent, now: Timestamp, post: LaunchView, act: LaunchAction) -> bool {
    match pre.stage {
        LaunchStage::Start => moved(pre, post, LaunchStage::AwaitElevation) && act
            == LaunchAction::CheckElevation,
        LaunchStage::AwaitElevation => match ev {
            LaunchEvent::Elevation(true) => moved(pre, post, LaunchStage::AwaitExecutable)
                && (act matches LaunchAction::CheckExecutable(p) && p@
                == pre.profile.executable_path@),
            _ => fails_with(pre, post, act, AppError::NotElevated),
        },
        LaunchStage::AwaitExecutable => match ev {
            LaunchEvent::ExecutableExists(true) => post == LaunchView {
                stage: LaunchStage::AwaitServiceQueries,
                snapshot: SnapshotView { captured_at: now, ..pre.snapshot },
                ..pre
            } && (act matches LaunchAction::QueryServices(names) && views(names@)
                == queried_services(pre.profile.services@)),
            _ => act matches LaunchAction::Finish(Err(AppError::ExecutableNotFound(p))) && p@
                == pre.profile.executable_path@ && moved(pre, post, LaunchStage::Finished),
        },
        LaunchStage::AwaitServiceQueries => match ev {
            LaunchEvent::ServicesQueried(r) => post == LaunchView {
                stage: LaunchStage::AwaitGpuRead,
                snapshot: SnapshotView {
                    services: record_queries(
                        pre.snapshot.services,
                        queried_services(pre.profile.services@),
                        r@,
                    ),
                    ..pre.snapshot
                },
                ..pre
            } && (act matches LaunchAction::ReadGpuPreference(e) && e@ == pre.exe_name),
            _ => false,
        },
        LaunchStage::AwaitGpuRead => match ev {
            LaunchEvent::GpuPreferenceRead(g) => {
                let snap = SnapshotView { gpu_preference_before: opt_view(g), ..pre.snapshot };
                post == LaunchView {
                    stage: LaunchStage::AwaitPreLaunchSaved,
                    snapshot: snap,
                    session: SessionView {
                        profile_id: Some(pre.profile.id),
                        profile_name: Some(pre.profile.friendly_name@),
                        phase: SessionPhase::PreLaunch,
                        started_at: Some(now),
                        pre_session_snapshot: Some(snap),
                        ..pre.session
                    },
                    ..pre
                } && act == LaunchAction::SaveSession
            },
            _ => false,
        },
        LaunchStage::AwaitPreLaunchSaved => match ev {
            LaunchEvent::SessionSaved(Ok(_)) => moved(pre, post, LaunchStage::AwaitServicesStopped)
                && (act matches LaunchAction::StopServices(p) && stops_view(p@) == stop_plan(
                pre.profile.services@,
                pre.snapshot.services,
            )),
            LaunchEvent::SessionSaved(Err(e)) => fails_with(pre, post, act, e),
            _ => false,
        },
        LaunchStage::AwaitServicesStopped => moved(pre, post, LaunchStage::AwaitServicesDelay) && act
            == LaunchAction::Sleep(pre.profile.delays.after_services_ms),
        LaunchStage::AwaitServicesDelay => moved(pre, post, LaunchStage::AwaitProcessesClosed)
            && (act matches LaunchAction::CloseProcesses(p) && closes_view(p@) == close_plan(
            pre.profile.processes@,
        )),
        LaunchStage::AwaitProcessesClosed => match ev {
            LaunchEvent::ProcessesClosed(k) => post == LaunchView {
                stage: LaunchStage::AwaitProcessesDelay,
                snapshot: SnapshotView {
                    killed_processes: pre.snapshot.killed_processes + k@,
                    ..pre.snapshot
                },
                ..pre
            } && act == LaunchAction::Sleep(pre.profile.delays.after_processes_ms),
            _ => false,
        },
        LaunchStage::AwaitProcessesDelay => if pre.profile.gpu_preference != GpuPreference::Default {
            moved(pre, post, LaunchStage::AwaitGpuSet) && (act matches LaunchAction::SetGpuPreference(
                e,
                g,
            ) && e@ == pre.exe_name && g == pre.profile.gpu_preference)
        } else {
            moved(pre, post, LaunchStage::AwaitSpawn) && spawns(pre.profile, act)
        },
        LaunchStage::AwaitGpuSet => match ev {
            LaunchEvent::GpuPreferenceSet(Ok(prev)) => {
                let snap = SnapshotView { gpu_preference_before: opt_view(prev), ..pre.snapshot };
                post == LaunchView {
                    stage: LaunchStage::AwaitGpuPublished,
                    snapshot: snap,
                    session: SessionView { pre_session_snapshot: Some(snap), ..pre.session },
                    ..pre
                } && act == LaunchAction::PublishSession
            },
            _ => moved(pre, post, LaunchStage::AwaitSpawn) && spawns(pre.profile, act),
        },
        LaunchStage::AwaitGpuPublished => moved(pre, post, LaunchStage::AwaitSpawn) && spawns(
            pre.profile,
            act,
        ),
        LaunchStage::AwaitSpawn => match ev {
            LaunchEvent::Spawned(Ok(pid)) => post == LaunchView {
                stage: LaunchStage::AwaitRunningSaved,
                initial_pid: pid,
                session: SessionView {
                    target_pid: Some(pid),
                    phase: SessionPhase::Running,
                    pre_session_snapshot: Some(pre.snapshot),
                    ..pre.session
                },
                ..pre
            } && act == LaunchAction::SaveSession,
            LaunchEvent::Spawned(Err(msg)) => moved(pre, post, LaunchStage::Finished)
                && (act matches LaunchAction::Finish(
                Err(AppError::ProcessError { process, message }),
            ) && process@ == pre.profile.executable_path@ && message@ == "Failed to launch: "@
                + msg@),
            _ => false,
        },
        LaunchStage::AwaitRunningSaved => match ev {
            LaunchEvent::SessionSaved(Ok(_)) => moved(pre, post, LaunchStage::AwaitLaunchDelay) && act
                == LaunchAction::Sleep(pre.profile.delays.after_launch_ms),
            LaunchEvent::SessionSaved(Err(e)) => fails_with(pre, post, act, e),
            _ => false,
        },
        LaunchStage::AwaitLaunchDelay => moved(pre, post, LaunchStage::AwaitSettings) && act
            == LaunchAction::ApplySettings(pre.initial_pid),
        LaunchStage::AwaitSettings => if pre.profile.memory_optimization.trim_other_processes {
            moved(pre, post, LaunchStage::AwaitTrim) && act == LaunchAction::TrimBackground(
                pre.initial_pid,
            )
        } else {
            moved(pre, post, LaunchStage::AwaitMonitor) && monitors(pre, act)
        },
        LaunchStage::AwaitTrim => moved(pre, post, LaunchStage::AwaitMonitor) && monitors(pre, act),
        LaunchStage::AwaitMonitor => match ev {
            LaunchEvent::MonitorFinished(Ok(f)) => if f != pre.initial_pid {
                post == LaunchView { stage: LaunchStage::AwaitReapply, final_pid: f, ..pre } && act
                    == LaunchAction::ApplySettings(f)
            } else {
                post == LaunchView {
                    stage: LaunchStage::AwaitFinalPidPublished,
                    final_pid: f,
                    session: SessionView { target_pid: Some(f), ..pre.session },
                    ..pre
                } && act == LaunchAction::PublishSession
            },
            LaunchEvent::MonitorFinished(Err(e)) => fails_with(pre, post, act, e),
            _ => false,
        },
        LaunchStage::AwaitReapply => post == LaunchView {
            stage: LaunchStage::AwaitFinalPidPublished,
            session: SessionView { target_pid: Some(pre.final_pid), ..pre.session },
            ..pre
        } && act == LaunchAction::PublishSession,
        LaunchStage::AwaitFinalPidPublished => post == LaunchView {
            stage: LaunchStage::AwaitRestoringSaved,
            session: SessionView { phase: SessionPhase::Restoring, ..pre.session },
            ..pre
        } && act == LaunchAction::SaveSession,
        LaunchStage::AwaitRestoringSaved => match ev {
            LaunchEvent::SessionSaved(Ok(_)) => moved(pre, post, LaunchStage::AwaitRestore)
                && (act matches LaunchAction::Restore(plan) && restores(
                plan,
                restore_snapshot(pre.session),
                pre.profile,
            )),
            LaunchEvent::SessionSaved(Err(e)) => fails_with(pre, post, act, e),
            _ => false,
        },
        LaunchStage::AwaitRestore => post == LaunchView {
            stage: LaunchStage::AwaitCompletedSaved,
            session: SessionView {
                phase: SessionPhase::Completed,
                ended_at: Some(now),
                ..pre.session
            },
            ..pre
        } && act == LaunchAction::SaveSession,
        LaunchStage::AwaitCompletedSaved => match ev {
            LaunchEvent::SessionSaved(Ok(_)) => moved(pre, post, LaunchStage::Finished) && act
                == LaunchAction::Finish(Ok(())),
            LaunchEvent::SessionSaved(Err(e)) => fails_with(pre, post, act, e),
            _ => false,
        },
        LaunchStage::Finished => false,
    }
}

/// Which report a launch in `stage` waits for.
pub open spec fn expects(stage: LaunchStage, ev: LaunchEvent) -> bool {
    match stage {
        LaunchStage::Start => ev is Begin,
        LaunchStage::AwaitElevation => ev is Elevation,
        LaunchStage::AwaitExecutable => ev is ExecutableExists,
        LaunchStage::AwaitServiceQueries => ev is ServicesQueried,
        LaunchStage::AwaitGpuRead => ev is GpuPreferenceRead,
        LaunchStage::AwaitPreLaunchSaved => ev is SessionSaved,
        LaunchStage::AwaitProcessesClosed => ev is ProcessesClosed,
        LaunchStage::AwaitGpuSet => ev is GpuPreferenceSet,
        LaunchStage::AwaitSpawn => ev is Spawned,
        LaunchStage::AwaitRunningSaved => ev is SessionSaved,
        LaunchStage::AwaitMonitor => ev is MonitorFinished,
        LaunchStage::AwaitRestoringSaved => ev is SessionSaved,
        LaunchStage::AwaitCompletedSaved => ev is SessionSaved,
        LaunchStage::Finished => false,
        _ => ev is Done,
    }
}

impl LaunchView {
    /// What holds of every launch: its executable name is that of the
    /// profile, its snapshot records no name twice, the session holds the
    /// phase of its stage, and once the session records a snapshot its
    /// services are those of the launch.
    pub open spec fn wf(self) -> bool {
        &&& self.exe_name == file_name(self.profile.executable_path@)
        &&& self.snapshot.wf()
        &&& self.stage.recorded_phase() matches Some(p) ==> self.session.phase == p
        &&& (5 <= self.stage.rank() <= 22 ==> (self.session.pre_session_snapshot matches Some(s)
            && s.services == self.snapshot.services))
        &&& (13 <= self.stage.rank() <= 22 ==> self.session.pre_session_snapshot == Some(self.snapshot))
        &&& (self.stage == LaunchStage::AwaitCompletedSaved ==> self.session.ended_at is Some)
    }
}

impl LaunchSession {
    /// A launch of `profile`, recording into `session` (the session the
    /// user interface prepared for it).
    pub fn new(profile: Profile, session: SessionState) -> (l: LaunchSession)
        ensures
            l@.stage == LaunchStage::Start,
            l@.profile == profile,
            l@.session == session@,
            l@.snapshot == SystemSnapshot::default_view(),
            l@.wf(),
    {
        let exe_name = exe_file_name(profile.executable_path.as_str());
        LaunchSession {
            profile,
            exe_name,
            session,
            snapshot: SystemSnapshot::default(),
            stage: LaunchStage::Start,
            initial_pid: 0,
            final_pid: 0,
        }
    }

    /// The profile being launched.
    pub fn profile(&self) -> (p: &Profile)
        ensures
            *p == self@.profile,
    {
        &self.profile
    }

    /// The session as the launch has recorded it.
    pub fn session(&self) -> (s: &SessionState)
        ensures
            s@ == self@.session,
    {
        &self.session
    }

    /// The stage of the launch.
    pub fn stage(&self) -> (s: LaunchStage)
        ensures
            s == self@.stage,
    {
        self.stage
    }

    /// Whether the launch is over.
    pub fn is_finished(&self) -> (b: bool)
        ensures
            b == (self@.stage == LaunchStage::Finished),
    {
        self.stage == LaunchStage::Finished
    }

    /// Whether the launch waits for a report of the kind of `ev`.
    pub fn accepts(&self, ev: &LaunchEvent) -> (b: bool)
        ensures
            b == expects(self@.stage, *ev),
    {
        match self.stage {
            LaunchStage::Start => matches!(ev, LaunchEvent::Begin { .. }),
            LaunchStage::AwaitElevation => matches!(ev, LaunchEvent::Elevation { .. }),
            LaunchStage::AwaitExecutable => matches!(ev, LaunchEvent::ExecutableExists { .. }),
            LaunchStage::AwaitServiceQueries => matches!(ev, LaunchEvent::ServicesQueried { .. }),
            LaunchStage::AwaitGpuRead => matches!(ev, LaunchEvent::GpuPreferenceRead { .. }),
            LaunchStage::AwaitPreLaunchSaved => matches!(ev, LaunchEvent::SessionSaved { .. }),
            LaunchStage::AwaitProcessesClosed => matches!(ev, LaunchEvent::ProcessesClosed { .. }),
            LaunchStage::AwaitGpuSet => matches!(ev, LaunchEvent::GpuPreferenceSet { .. }),
            LaunchStage::AwaitSpawn => matches!(ev, LaunchEvent::Spawned { .. }),
            LaunchStage::AwaitRunningSaved => matches!(ev, LaunchEvent::SessionSaved { .. }),
            LaunchStage::AwaitMonitor => matches!(ev, LaunchEvent::MonitorFinished { .. }),
            LaunchStage::AwaitRestoringSaved => matches!(ev, LaunchEvent::SessionSaved { .. }),
            LaunchStage::AwaitCompletedSaved => matches!(ev, LaunchEvent::SessionSaved { .. }),
            LaunchStage::Finished => false,
            _ => matches!(ev, LaunchEvent::Done { .. }),
        }
    }

    fn finish_with(&mut self, e: AppError) -> (act: LaunchAction)
        ensures
            fails_with(old(self)@, final(self)@, act, e),
    {
        self.stage = LaunchStage::Finished;
        LaunchAction::Finish(Err(e))
    }

    fn spawn_action(&mut self) -> (act: LaunchAction)
        ensures
            moved(old(self)@, final(self)@, LaunchStage::AwaitSpawn),
            spawns(old(self)@.profile, act),
    {
        self.stage = LaunchStage::AwaitSpawn;
        LaunchAction::Spawn(launch_command(&self.profile))
    }

    fn monitor_action(&mut self) -> (act: LaunchAction)
        ensures
            moved(old(self)@, final(self)@, LaunchStage::AwaitMonitor),
            monitors(old(self)@, act),
    {
        self.stage = LaunchStage::AwaitMonitor;
        LaunchAction::Monitor {
            pid: self.initial_pid,
            exe_name: self.exe_name.clone(),
            grace_secs: self.profile.delays.relaunch_grace_secs,
        }
    }

    /// Takes the report `ev` of the last action, made at time `now`, and
    /// gives the next action.
    pub fn step(&mut self, ev: LaunchEvent, now: Timestamp) -> (act: LaunchAction)
        requires
            expects(old(self)@.stage, ev),
        ensures
            next(old(self)@, ev, now, final(self)@, act),
    {
        match self.stage {
            LaunchStage::Start => {
                self.stage = LaunchStage::AwaitElevation;
                LaunchAction::CheckElevation
            },
            LaunchStage::AwaitElevation => match ev {
                LaunchEvent::Elevation(true) => {
                    self.stage = LaunchStage::AwaitExecutable;
                    LaunchAction::CheckExecutable(self.profile.executable_path.clone())
                },
                _ => self.finish_with(AppError::NotElevated),
            },
            LaunchStage::AwaitExecutable => match ev {
                LaunchEvent::ExecutableExists(true) => {
                    self.snapshot.captured_at = now;
                    self.stage = LaunchStage::AwaitServiceQueries;
                    LaunchAction::QueryServices(services_to_query(&self.profile))
                },
                _ => {
                    let p = self.profile.executable_path.clone();
                    self.finish_with(AppError::ExecutableNotFound(p))
                },
            },
            LaunchStage::AwaitServiceQueries => match ev {
                LaunchEvent::ServicesQueried(results) => {
                    let names = services_to_query(&self.profile);
                    record_service_queries(&mut self.snapshot.services, &names, &results);
                    self.stage = LaunchStage::AwaitGpuRead;
                    LaunchAction::ReadGpuPreference(self.exe_name.clone())
                },
                _ => {
                    proof {
                        assert(false);
                    }
                    self.finish_with(AppError::NotElevated)
                },
            },
            LaunchStage::AwaitGpuRead => match ev {
                LaunchEvent::GpuPreferenceRead(g) => {
                    self.snapshot.gpu_preference_before = g;
                    self.session.profile_id = Some(self.profile.id);
                    self.session.profile_name = Some(self.profile.friendly_name.clone());
                    self.session.phase = SessionPhase::PreLaunch;
                    self.session.started_at = Some(now);
                    self.session.pre_session_snapshot = Some(self.snapshot.copy());
                    self.stage = LaunchStage::AwaitPreLaunchSaved;
                    LaunchAction::SaveSession
                },
                _ => {
                    proof {
                        assert(false);
                    }
                    self.finish_with(AppError::NotElevated)
                },
            },
            LaunchStage::AwaitPreLaunchSaved => match ev {
                LaunchEvent::SessionSaved(Ok(_)) => {
                    self.stage = LaunchStage::AwaitServicesStopped;
                    LaunchAction::StopServices(service_stop_plan(&self.profile, &self.snapshot.services))
                },
                LaunchEvent::SessionSaved(Err(e)) => self.finish_with(e),
                _ => {
                    proof {
                        assert(false);
                    }
                    self.finish_with(AppError::NotElevated)
                },
            },
            LaunchStage::AwaitServicesStopped => {
                self.stage = LaunchStage::AwaitServicesDelay;
                LaunchAction::Sleep(self.profile.delays.after_services_ms)
            },
            LaunchStage::AwaitServicesDelay => {
                self.stage = LaunchStage::AwaitProcessesClosed;
                LaunchAction::CloseProcesses(process_close_plan(&self.profile))
            },
            LaunchStage::AwaitProcessesClosed => match ev {
                LaunchEvent::ProcessesClosed(k) => {
                    let mut k = k;
                    self.snapshot.killed_processes.append(&mut k);
                    self.stage = LaunchStage::AwaitProcessesDelay;
                    LaunchAction::Sleep(self.profile.delays.after_processes_ms)
                },
                _ => {
                    proof {
                        assert(false);
                    }
                    self.finish_with(AppError::NotElevated)
                },
            },
            LaunchStage::AwaitProcessesDelay => {
                if self.profile.gpu_preference != GpuPreference::Default {
                    self.stage = LaunchStage::AwaitGpuSet;
                    LaunchAction::SetGpuPreference(self.exe_name.clone(), self.profile.gpu_preference)
                } else {
                    self.spawn_action()
                }
            },
            LaunchStage::AwaitGpuSet => match ev {
                LaunchEvent::GpuPreferenceSet(Ok(prev)) => {
                    self.snapshot.gpu_preference_before = prev;
                    self.session.pre_session_snapshot = Some(self.snapshot.copy());
                    self.stage = LaunchStage::AwaitGpuPublished;
                    LaunchAction::PublishSession
                },
                _ => self.spawn_action(),
            },
            LaunchStage::AwaitGpuPublished => self.spawn_action(),
            LaunchStage::AwaitSpawn => match ev {
                LaunchEvent::Spawned(Ok(pid)) => {
                    self.initial_pid = pid;
                    self.session.target_pid = Some(pid);
                    self.session.phase = SessionPhase::Running;
                    self.session.pre_session_snapshot = Some(self.snapshot.copy());
                    self.stage = LaunchStage::AwaitRunningSaved;
                    LaunchAction::SaveSession
                },
                LaunchEvent::Spawned(Err(msg)) => {
                    let message = owned("Failed to launch: ").concat(msg.as_str());
                    let process = self.profile.executable_path.clone();
                    self.stage = LaunchStage::Finished;
                    LaunchAction::Finish(Err(AppError::ProcessError { process, message }))
                },
                _ => {
                    proof {
                        assert(false);
                    }
                    self.finish_with(AppError::NotElevated)
                },
            },
            LaunchStage::AwaitRunningSaved => match ev {
                LaunchEvent::SessionSaved(Ok(_)) => {
                    self.stage = LaunchStage::AwaitLaunchDelay;
                    LaunchAction::Sleep(self.profile.delays.after_launch_ms)
                },
                LaunchEvent::SessionSaved(Err(e)) => self.finish_with(e),
                _ => {
                    proof {
                        assert(false);
                    }
                    self.finish_with(AppError::NotElevated)
                },
            },
            LaunchStage::AwaitLaunchDelay => {
                self.stage = LaunchStage::AwaitSettings;
                LaunchAction::ApplySettings(self.initial_pid)
            },
            LaunchStage::AwaitSettings => {
                if self.profile.memory_optimization.trim_other_processes {
                    self.stage = LaunchStage::AwaitTrim;
                    LaunchAction::TrimBackground(self.initial_pid)
                } else {
                    self.monitor_action()
                }
            },
            LaunchStage::AwaitTrim => self.monitor_action(),
            LaunchStage::AwaitMonitor => match ev {
                LaunchEvent::MonitorFinished(Ok(f)) => {
                    self.final_pid = f;
                    if f != self.initial_pid {
                        self.stage = LaunchStage::AwaitReapply;
                        LaunchAction::ApplySettings(f)
                    } else {
                        self.session.target_pid = Some(f);
                        self.stage = LaunchStage::AwaitFinalPidPublished;
                        LaunchAction::PublishSession
                    }
                },
                LaunchEvent::MonitorFinished(Err(e)) => self.finish_with(e),
                _ => {
                    proof {
                        assert(false);
                    }
                    self.finish_with(AppError::NotElevated)
                },
            },
            LaunchStage::AwaitReapply => {
                self.session.target_pid = Some(self.final_pid);
                self.stage = LaunchStage::AwaitFinalPidPublished;
                LaunchAction::PublishSession
            },
            LaunchStage::AwaitFinalPidPublished => {
                self.session.phase = SessionPhase::Restoring;
                self.stage = LaunchStage::AwaitRestoringSaved;
                LaunchAction::SaveSession
            },
            LaunchStage::AwaitRestoringSaved => match ev {
                LaunchEvent::SessionSaved(Ok(_)) => {
                    let plan = match &self.session.pre_session_snapshot {
                        Some(s) => Optimizer::restore_plan(s, &self.profile),
                        None => Optimizer::restore_plan(&SystemSnapshot::default(), &self.profile),
                    };
                    self.stage = LaunchStage::AwaitRestore;
                    LaunchAction::Restore(plan)
                },
                LaunchEvent::SessionSaved(Err(e)) => self.finish_with(e),
                _ => {
                    proof {
                        assert(false);
                    }
                    self.finish_with(AppError::NotElevated)
                },
            },
            LaunchStage::AwaitRestore => {
                self.session.phase = SessionPhase::Completed;
                self.session.ended_at = Some(now);
                self.stage = LaunchStage::AwaitCompletedSaved;
                LaunchAction::SaveSession
            },
            LaunchStage::AwaitCompletedSaved => match ev {
                LaunchEvent::SessionSaved(Ok(_)) => {
                    self.stage = LaunchStage::Finished;
                    LaunchAction::Finish(Ok(()))
                },
                LaunchEvent::SessionSaved(Err(e)) => self.finish_with(e),
                _ => {
                    proof {
                        assert(false);
                    }
                    self.finish_with(AppError::NotElevated)
                },
            },
            LaunchStage::Finished => {
                proof {
                    assert(false);
                }
                self.finish_with(AppError::NotElevated)
            },
        }
    }
}

/// Every step moves a launch to a later stage, so a launch finishes after at
/// most as many steps as there are stages.
pub proof fn lemma_step_progresses(
    pre: LaunchView,
    ev: LaunchEvent,
    now: Timestamp,
    post: LaunchView,
    act: LaunchAction,
)
    requires
        next(pre, ev, now, post, act),
    ensures
        post.stage.rank() > pre.stage.rank(),
        post.stage.rank() <= 23,
{
}

/// Every step keeps what holds of a launch; in particular the session phase
/// only moves forward, PreLaunch, Running, Restoring, Completed.
pub proof fn lemma_step_keeps_wf(
    pre: LaunchView,
    ev: LaunchEvent,
    now: Timestamp,
    post: LaunchView,
    act: LaunchAction,
)
    requires
        pre.wf(),
        next(pre, ev, now, post, act),
    ensures
        post.wf(),
        pre.stage.recorded_phase() is Some && post.stage.recorded_phase() is Some
            ==> pre.stage.recorded_phase()->0.rank() <= post.stage.recorded_phase()->0.rank(),
{
    if let LaunchEvent::ServicesQueried(r) = ev {
        lemma_record_queries_unique(pre.snapshot.services, queried_services(pre.profile.services@), r@);
    }
}

/// A launch reports success only once the session is recorded Completed,
/// with its end time.
pub proof fn lemma_success_is_completed(
    pre: LaunchView,
    ev: LaunchEvent,
    now: Timestamp,
    post: LaunchView,
    act: LaunchAction,
)
    requires
        pre.wf(),
        next(pre, ev, now, post, act),
        act matches LaunchAction::Finish(Ok(_)),
    ensures
        post.session.phase == SessionPhase::Completed,
        post.session.ended_at is Some,
{
}

/// A launch that fails leaves the session as it was: the phase stays at the
/// last one the launch recorded.
pub proof fn lemma_failure_keeps_session(
    pre: LaunchView,
    ev: LaunchEvent,
    now: Timestamp,
    post: LaunchView,
    act: LaunchAction,
)
    requires
        next(pre, ev, now, post, act),
        act matches LaunchAction::Finish(Err(_)),
    ensures
        post.session == pre.session,
        post.stage == LaunchStage::Finished,
{
}

/// `vs` is a run of a launch: each view goes to the next on report `evs[i]`
/// at time `ts[i]`, with action `acts[i]`.
pub open spec fn is_run(vs: Seq<LaunchView>, evs: Seq<LaunchEvent>, ts: Seq<Timestamp>, acts: Seq<LaunchAction>) -> bool {
    &&& vs.len() == evs.len() + 1
    &&& ts.len() == evs.len()
    &&& acts.len() == evs.len()
    &&& forall|i: int| #![trigger evs[i]] 0 <= i < evs.len() ==> next(vs[i], evs[i], ts[i], vs[i + 1], acts[i])
}

proof fn lemma_run_stages(vs: Seq<LaunchView>, evs: Seq<LaunchEvent>, ts: Seq<Timestamp>, acts: Seq<LaunchAction>)
    requires
        is_run(vs, evs, ts, acts),
        vs[0].wf(),
    ensures
        forall|i: int| 0 <= i < vs.len() ==> #[trigger] vs[i].wf(),
        forall|i: int| 0 <= i < vs.len() ==> #[trigger] vs[i].stage.rank() >= vs[0].stage.rank() + i,
        forall|i: int, j: int| 0 <= i < j < vs.len() ==> #[trigger] vs[i].stage.rank() < #[trigger] vs[j].stage.rank(),
    decreases evs.len(),
{
    if evs.len() > 0 {
        let n = evs.len() - 1;
        let pvs = vs.drop_last();
        let pevs = evs.drop_last();
        let pts = ts.drop_last();
        let pacts = acts.drop_last();
        assert forall|i: int| #![trigger pevs[i]] 0 <= i < pevs.len() implies next(pvs[i], pevs[i], pts[i], pvs[i + 1], pacts[i]) by {
            assert(evs[i] == pevs[i]);
        }
        lemma_run_stages(pvs, pevs, pts, pacts);
        assert(evs[n] == evs[n]);
        assert(pvs[n].wf());
        lemma_step_keeps_wf(vs[n], evs[n], ts[n], vs[n + 1], acts[n]);
        lemma_step_progresses(vs[n], evs[n], ts[n], vs[n + 1], acts[n]);
        assert forall|i: int| 0 <= i < vs.len() implies #[trigger] vs[i].wf() by {
            if i < vs.len() - 1 {
                assert(pvs[i] == vs[i]);
            }
        }
        assert forall|i: int| 0 <= i < vs.len() implies #[trigger] vs[i].stage.rank() >= vs[0].stage.rank() + i by {
            if i < vs.len() - 1 {
                assert(pvs[i] == vs[i]);
            } else {
                assert(pvs[n] == vs[n]);
                assert(pvs[0] == vs[0]);
            }
        }
        assert forall|i: int, j: int| 0 <= i < j < vs.len() implies #[trigger] vs[i].stage.rank() < #[trigger] vs[j].stage.rank() by {
            assert(pvs[i] == vs[i]);
            if j < vs.len() - 1 {
                assert(pvs[j] == vs[j]);
            } else {
                assert(pvs[n] == vs[n]);
                if i < n {
                    assert(pvs[i].stage.rank() < pvs[n].stage.rank());
                }
            }
        }
    }
}

/// Over a whole launch, the session phases it records come in the order
/// PreLaunch, Running, Restoring, Completed, each later one no earlier than
/// the one before; the session holds the recorded phase at every stage
/// that records one (never Idle, Failed or Interrupted); and a launch
/// takes at most as many steps as there are stages.
pub proof fn lemma_run_phases_in_order(
    vs: Seq<LaunchView>,
    evs: Seq<LaunchEvent>,
    ts: Seq<Timestamp>,
    acts: Seq<LaunchAction>,
)
    requires
        is_run(vs, evs, ts, acts),
        vs[0].wf(),
    ensures
        vs.len() <= 24,
        forall|i: int|
            0 <= i < vs.len() && #[trigger] vs[i].stage.recorded_phase() is Some ==> vs[i].session.phase
                == vs[i].stage.recorded_phase()->0,
        forall|i: int, j: int|
            0 <= i <= j < vs.len() && #[trigger] vs[i].stage.recorded_phase() is Some
                && #[trigger] vs[j].stage.recorded_phase() is Some ==> vs[i].session.phase.rank()
                <= vs[j].session.phase.rank(),
{
    lemma_run_stages(vs, evs, ts, acts);
    let last = vs.len() - 1;
    assert(vs[last].stage.rank() >= vs[0].stage.rank() + last);
    assert forall|i: int| 0 <= i < vs.len() && #[trigger] vs[i].stage.recorded_phase() is Some implies vs[i].session.phase
        == vs[i].stage.recorded_phase()->0 by {
        assert(vs[i].wf());
    }
    assert forall|i: int, j: int|
        0 <= i <= j < vs.len() && #[trigger] vs[i].stage.recorded_phase() is Some
            && #[trigger] vs[j].stage.recorded_phase() is Some implies vs[i].session.phase.rank()
            <= vs[j].session.phase.rank() by {
        assert(vs[i].wf() && vs[j].wf());
        if i < j {
            assert(vs[i].stage.rank() < vs[j].stage.rank());
        }
    }
}

/// The GPU preference read before the session is what the snapshot, and
/// the session's copy of it, records.
pub proof fn lemma_gpu_read_is_recorded(
    pre: LaunchView,
    g: Option<String>,
    now: Timestamp,
    post: LaunchView,
    act: LaunchAction,
)
    requires
        pre.stage == LaunchStage::AwaitGpuRead,
        next(pre, LaunchEvent::GpuPreferenceRead(g), now, post, act),
    ensures
        post.snapshot.gpu_preference_before == opt_view(g),
        post.session.pre_session_snapshot == Some(post.snapshot),
{
}

/// Only reading the GPU preference and setting it successfully change the
/// recorded GPU preference; every other step keeps it.
proof fn lemma_step_keeps_gpu(pre: LaunchView, ev: LaunchEvent, now: Timestamp, post: LaunchView, act: LaunchAction)
    requires
        next(pre, ev, now, post, act),
        pre.stage != LaunchStage::AwaitGpuRead,
        !(ev matches LaunchEvent::GpuPreferenceSet(Ok(_))),
    ensures
        post.snapshot.gpu_preference_before == pre.snapshot.gpu_preference_before,
{
}

/// A restore is asked for only once the session is saved as Restoring, and
/// it puts back the launch's own snapshot.
proof fn lemma_restore_uses_snapshot(pre: LaunchView, ev: LaunchEvent, now: Timestamp, post: LaunchView, plan: RestorePlan)
    requires
        pre.wf(),
        next(pre, ev, now, post, LaunchAction::Restore(plan)),
    ensures
        opt_view(plan.gpu_previous) == pre.snapshot.gpu_preference_before,
{
    assert(pre.stage == LaunchStage::AwaitRestoringSaved);
}

proof fn lemma_gpu_kept_from(
    vs: Seq<LaunchView>,
    evs: Seq<LaunchEvent>,
    ts: Seq<Timestamp>,
    acts: Seq<LaunchAction>,
    i: int,
    g: Option<String>,
    m: int,
)
    requires
        is_run(vs, evs, ts, acts),
        vs[0].wf(),
        0 <= i < m < vs.len(),
        vs[i].stage == LaunchStage::AwaitGpuRead,
        evs[i] == LaunchEvent::GpuPreferenceRead(g),
        forall|n: int| #![trigger evs[n]] i < n < m ==> !(evs[n] matches LaunchEvent::GpuPreferenceSet(Ok(_))),
    ensures
        vs[m].snapshot.gpu_preference_before == opt_view(g),
    decreases m - i,
{
    lemma_run_stages(vs, evs, ts, acts);
    if m == i + 1 {
        assert(evs[i] == evs[i]);
        lemma_gpu_read_is_recorded(vs[i], g, ts[i], vs[i + 1], acts[i]);
    } else {
        lemma_gpu_kept_from(vs, evs, ts, acts, i, g, m - 1);
        let n = m - 1;
        assert(evs[n] == evs[n]);
        assert(vs[i].stage.rank() < vs[n].stage.rank());
        lemma_step_keeps_gpu(vs[n], evs[n], ts[n], vs[n + 1], acts[n]);
    }
}

/// Unless setting the GPU preference succeeds, the restore puts back the GPU
/// preference read before the session: in a run, when the launch reads `g`
/// and no later step sets a preference successfully before it asks for the
/// restore, the restore's previous value is `g` (so a preference the game
/// already had is written back, not removed).
pub proof fn lemma_restore_puts_back_gpu_read(
    vs: Seq<LaunchView>,
    evs: Seq<LaunchEvent>,
    ts: Seq<Timestamp>,
    acts: Seq<LaunchAction>,
    i: int,
    g: Option<String>,
    j: int,
    plan: RestorePlan,
)
    requires
        is_run(vs, evs, ts, acts),
        vs[0].wf(),
        0 <= i < j < evs.len(),
        vs[i].stage == LaunchStage::AwaitGpuRead,
        evs[i] == LaunchEvent::GpuPreferenceRead(g),
        forall|n: int| #![trigger evs[n]] i < n < j ==> !(evs[n] matches LaunchEvent::GpuPreferenceSet(Ok(_))),
        acts[j] == LaunchAction::Restore(plan),
    ensures
        opt_view(plan.gpu_previous) == opt_view(g),
{
    lemma_run_stages(vs, evs, ts, acts);
    lemma_gpu_kept_from(vs, evs, ts, acts, i, g, j);
    assert(evs[j] == evs[j]);
    assert(vs[j].wf());
    lemma_restore_uses_snapshot(vs[j], evs[j], ts[j], vs[j + 1], plan);
}

/// The restore of a launch starts again every service its stop step
/// stopped: when the launch asks for the restore, each service the stop
/// step (computed from the same profile and recorded states) stops is in
/// the restore's start list; and it never stops a protected service.
pub proof fn lemma_restore_restarts_stopped_services(
    pre: LaunchView,
    ev: LaunchEvent,
    now: Timestamp,
    post: LaunchView,
    plan: RestorePlan,
    i: int,
)
    requires
        pre.wf(),
        next(pre, ev, now, post, LaunchAction::Restore(plan)),
        0 <= i < stop_plan(pre.profile.services@, pre.snapshot.services).len(),
        stop_plan(pre.profile.services@, pre.snapshot.services)[i].0 == ServiceStopKind::Stop,
    ensures
        views(plan.start_services@).contains(
            stop_plan(pre.profile.services@, pre.snapshot.services)[i].1,
        ),
        !crate::guards::listed(
            crate::guards::protected_services(),
            stop_plan(pre.profile.services@, pre.snapshot.services)[i].1,
        ),
{
    assert(pre.stage == LaunchStage::AwaitRestoringSaved);
    lemma_stopped_services_restarted(pre.profile.services@, pre.snapshot.services, i);
}

} // verus!
