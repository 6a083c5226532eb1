use game_optimizer::errors::AppError;
use game_optimizer::launch::{LaunchAction, LaunchEvent, LaunchSession, LaunchStage};
use game_optimizer::model::{
    GpuPreference, KilledProcessRecord, ProcessAction, Profile, ServiceAction, SessionPhase,
    SystemSnapshot,
};
use game_optimizer::optimizer::{
    launch_command, process_close_plan, record_service_queries, service_stop_plan,
    services_to_query, table_lookup, table_set, Optimizer, ServiceStopKind,
};
use game_optimizer::session::session_for_launch;
use game_optimizer::time::Timestamp;

fn svc(name: &str, stop: bool) -> ServiceAction {
    let mut s = ServiceAction::stop_on_launch_named(name);
    s.stop_on_launch = stop;
    s
}

fn proc_action(name: &str, kill: bool, ignored: bool, relaunch: bool) -> ProcessAction {
    let mut p = ProcessAction::kill_on_launch_named(name);
    p.kill_on_launch = kill;
    p.is_ignored = ignored;
    p.relaunch_after = relaunch;
    p
}

fn dcs_profile() -> Profile {
    let mut p = Profile::default();
    p.name = "dcs-vr".to_string();
    p.friendly_name = "DCS World VR".to_string();
    p.executable_path = "C:\\Games\\DCS World\\bin\\DCS.exe".to_string();
    p.launch_args = Some("--force_enable_VR  --no-launcher".to_string());
    p.services = vec![svc("SysMain", true), svc("WSearch", true), svc("Spooler", false), svc("EventLog", true)];
    p.processes = vec![
        proc_action("OneDrive.exe", true, false, true),
        proc_action("Discord.exe", true, true, false),
        proc_action("Steam.exe", false, false, false),
    ];
    p.gpu_preference = GpuPreference::HighPerformance;
    p.delays.relaunch_grace_secs = 60;
    p
}

#[test]
fn services_queried_stopped_and_restarted() {
    let p = dcs_profile();
    assert_eq!(services_to_query(&p), vec!["SysMain", "WSearch", "EventLog"]);
    let mut table: Vec<(String, bool)> = Vec::new();
    record_service_queries(&mut table, &services_to_query(&p), &vec![Some(true), Some(false), Some(true)]);
    assert_eq!(table_lookup(&table, "SysMain"), Some(true));
    assert_eq!(table_lookup(&table, "WSearch"), Some(false));
    assert_eq!(table_lookup(&table, "Spooler"), None);
    let plan = service_stop_plan(&p, &table);
    let kinds: Vec<(ServiceStopKind, &str)> = plan.iter().map(|s| (s.kind, s.service_name.as_str())).collect();
    assert_eq!(
        kinds,
        vec![
            (ServiceStopKind::Stop, "SysMain"),
            (ServiceStopKind::AlreadyStopped, "WSearch"),
            (ServiceStopKind::Protected, "EventLog"),
        ]
    );
    let mut snap = SystemSnapshot::default();
    snap.services = table;
    let restore = Optimizer::restore_plan(&snap, &p);
    assert_eq!(restore.start_services, vec!["SysMain", "EventLog"]);
    assert_eq!(restore.exe_name, "DCS.exe");
}

#[test]
fn a_failed_query_records_nothing_and_a_repeat_updates_in_place() {
    let mut table: Vec<(String, bool)> = Vec::new();
    table_set(&mut table, "A".to_string(), true);
    table_set(&mut table, "B".to_string(), false);
    table_set(&mut table, "A".to_string(), false);
    assert_eq!(table, vec![("A".to_string(), false), ("B".to_string(), false)]);
    let names = vec!["C".to_string(), "D".to_string()];
    record_service_queries(&mut table, &names, &vec![None]);
    assert_eq!(table.len(), 2);
}

#[test]
fn programs_closed_and_command_built() {
    let p = dcs_profile();
    let closes = process_close_plan(&p);
    assert_eq!(closes.len(), 1);
    assert_eq!(closes[0].exe_name, "OneDrive.exe");
    assert!(closes[0].relaunch);
    let c = launch_command(&p);
    assert_eq!(c.program, "C:\\Games\\DCS World\\bin\\DCS.exe");
    assert_eq!(c.args, vec!["--force_enable_VR", "--no-launcher"]);
    assert_eq!(c.working_dir, None);
    let mut q = dcs_profile();
    q.launch_args = Some(String::new());
    q.working_directory = Some("C:\\Games".to_string());
    let c2 = launch_command(&q);
    assert!(c2.args.is_empty());
    assert_eq!(c2.working_dir, Some("C:\\Games".to_string()));
}

#[test]
fn restore_relaunches_every_program_marked_for_relaunch() {
    let p = dcs_profile();
    let mut snap = SystemSnapshot::default();
    snap.gpu_preference_before = Some("GpuPreference=1;".to_string());
    snap.killed_processes = vec![
        KilledProcessRecord { exe_name: "OneDrive.exe".to_string(), pid: 1, cmdline: None, working_dir: None, should_relaunch: true },
        KilledProcessRecord { exe_name: "A.exe".to_string(), pid: 2, cmdline: Some("a".to_string()), working_dir: None, should_relaunch: true },
        KilledProcessRecord { exe_name: "B.exe".to_string(), pid: 3, cmdline: Some("b".to_string()), working_dir: None, should_relaunch: false },
    ];
    let plan = Optimizer::restore_plan(&snap, &p);
    assert_eq!(plan.gpu_previous, Some("GpuPreference=1;".to_string()));
    assert_eq!(plan.relaunch.len(), 2);
    assert_eq!(plan.relaunch[0].exe_name, "OneDrive.exe");
    assert_eq!(plan.relaunch[1].exe_name, "A.exe");
}

fn t(secs: i64) -> Timestamp {
    Timestamp { secs, nanos: 0 }
}

fn step(l: &mut LaunchSession, ev: LaunchEvent, now: i64) -> LaunchAction {
    assert!(l.accepts(&ev));
    l.step(ev, t(now))
}

#[test]
fn a_whole_launch_through_a_launcher_hand_over() {
    let p = dcs_profile();
    let session = session_for_launch("DCS World VR", t(1));
    let mut l = LaunchSession::new(p, session);
    assert_eq!(l.stage(), LaunchStage::Start);
    assert!(matches!(step(&mut l, LaunchEvent::Begin, 2), LaunchAction::CheckElevation));
    match step(&mut l, LaunchEvent::Elevation(true), 3) {
        LaunchAction::CheckExecutable(path) => assert_eq!(path, "C:\\Games\\DCS World\\bin\\DCS.exe"),
        other => panic!("{:?}", other),
    }
    match step(&mut l, LaunchEvent::ExecutableExists(true), 4) {
        LaunchAction::QueryServices(names) => assert_eq!(names, vec!["SysMain", "WSearch", "EventLog"]),
        other => panic!("{:?}", other),
    }
    match step(&mut l, LaunchEvent::ServicesQueried(vec![Some(true), Some(false), None]), 5) {
        LaunchAction::ReadGpuPreference(exe) => assert_eq!(exe, "DCS.exe"),
        other => panic!("{:?}", other),
    }
    assert!(matches!(step(&mut l, LaunchEvent::GpuPreferenceRead(None), 6), LaunchAction::SaveSession));
    assert_eq!(l.session().phase, SessionPhase::PreLaunch);
    assert_eq!(l.session().started_at, Some(t(6)));
    assert_eq!(l.session().profile_name.as_deref(), Some("DCS World VR"));
    match step(&mut l, LaunchEvent::SessionSaved(Ok(())), 7) {
        LaunchAction::StopServices(plan) => {
            assert_eq!(plan.len(), 3);
            assert_eq!(plan[0].kind, ServiceStopKind::Stop);
            assert_eq!(plan[1].kind, ServiceStopKind::AlreadyStopped);
            assert_eq!(plan[2].kind, ServiceStopKind::AlreadyStopped);
        },
        other => panic!("{:?}", other),
    }
    assert!(matches!(step(&mut l, LaunchEvent::Done, 8), LaunchAction::Sleep(1000)));
    match step(&mut l, LaunchEvent::Done, 9) {
        LaunchAction::CloseProcesses(c) => assert_eq!(c.len(), 1),
        other => panic!("{:?}", other),
    }
    let killed = vec![KilledProcessRecord { exe_name: "OneDrive.exe".to_string(), pid: 77, cmdline: None, working_dir: None, should_relaunch: true }];
    assert!(matches!(step(&mut l, LaunchEvent::ProcessesClosed(killed), 10), LaunchAction::Sleep(500)));
    match step(&mut l, LaunchEvent::Done, 11) {
        LaunchAction::SetGpuPreference(exe, g) => {
            assert_eq!(exe, "DCS.exe");
            assert_eq!(g, GpuPreference::HighPerformance);
        },
        other => panic!("{:?}", other),
    }
    assert!(matches!(step(&mut l, LaunchEvent::GpuPreferenceSet(Ok(None)), 12), LaunchAction::PublishSession));
    match step(&mut l, LaunchEvent::Done, 13) {
        LaunchAction::Spawn(c) => assert_eq!(c.args, vec!["--force_enable_VR", "--no-launcher"]),
        other => panic!("{:?}", other),
    }
    assert!(matches!(step(&mut l, LaunchEvent::Spawned(Ok(1234)), 14), LaunchAction::SaveSession));
    assert_eq!(l.session().phase, SessionPhase::Running);
    assert_eq!(l.session().target_pid, Some(1234));
    assert_eq!(l.session().pre_session_snapshot.as_ref().unwrap().killed_processes.len(), 1);
    assert!(matches!(step(&mut l, LaunchEvent::SessionSaved(Ok(())), 15), LaunchAction::Sleep(3000)));
    assert!(matches!(step(&mut l, LaunchEvent::Done, 16), LaunchAction::ApplySettings(1234)));
    match step(&mut l, LaunchEvent::Done, 17) {
        LaunchAction::Monitor { pid, exe_name, grace_secs } => {
            assert_eq!((pid, exe_name.as_str(), grace_secs), (1234, "DCS.exe", 60));
        },
        other => panic!("{:?}", other),
    }
    assert!(matches!(step(&mut l, LaunchEvent::MonitorFinished(Ok(5678)), 18), LaunchAction::ApplySettings(5678)));
    assert!(matches!(step(&mut l, LaunchEvent::Done, 19), LaunchAction::PublishSession));
    assert_eq!(l.session().target_pid, Some(5678));
    assert!(matches!(step(&mut l, LaunchEvent::Done, 20), LaunchAction::SaveSession));
    assert_eq!(l.session().phase, SessionPhase::Restoring);
    match step(&mut l, LaunchEvent::SessionSaved(Ok(())), 21) {
        LaunchAction::Restore(plan) => {
            assert_eq!(plan.start_services, vec!["SysMain"]);
            assert_eq!(plan.gpu_previous, None);
            assert_eq!(plan.exe_name, "DCS.exe");
            assert_eq!(plan.relaunch.len(), 1);
            assert_eq!(plan.relaunch[0].exe_name, "OneDrive.exe");
            assert_eq!(plan.relaunch[0].pid, 77);
        },
        other => panic!("{:?}", other),
    }
    assert!(matches!(step(&mut l, LaunchEvent::Done, 22), LaunchAction::SaveSession));
    assert_eq!(l.session().phase, SessionPhase::Completed);
    assert_eq!(l.session().ended_at, Some(t(22)));
    assert!(matches!(step(&mut l, LaunchEvent::SessionSaved(Ok(())), 23), LaunchAction::Finish(Ok(()))));
    assert!(l.is_finished());
    assert!(!l.accepts(&LaunchEvent::Done));
}

#[test]
fn a_launch_without_rights_or_executable_stops_at_once() {
    let mut l = LaunchSession::new(dcs_profile(), session_for_launch("x", t(0)));
    step(&mut l, LaunchEvent::Begin, 1);
    assert!(matches!(step(&mut l, LaunchEvent::Elevation(false), 2), LaunchAction::Finish(Err(AppError::NotElevated))));
    assert!(l.is_finished());

    let mut l = LaunchSession::new(dcs_profile(), session_for_launch("x", t(0)));
    step(&mut l, LaunchEvent::Begin, 1);
    step(&mut l, LaunchEvent::Elevation(true), 2);
    match step(&mut l, LaunchEvent::ExecutableExists(false), 3) {
        LaunchAction::Finish(Err(AppError::ExecutableNotFound(p))) => assert_eq!(p, "C:\\Games\\DCS World\\bin\\DCS.exe"),
        other => panic!("{:?}", other),
    }
}

fn to_spawn(l: &mut LaunchSession, gpu_ok: bool) -> LaunchAction {
    step(l, LaunchEvent::Begin, 1);
    step(l, LaunchEvent::Elevation(true), 2);
    step(l, LaunchEvent::ExecutableExists(true), 3);
    step(l, LaunchEvent::ServicesQueried(vec![]), 4);
    step(l, LaunchEvent::GpuPreferenceRead(Some("GpuPreference=1;".to_string())), 5);
    step(l, LaunchEvent::SessionSaved(Ok(())), 6);
    step(l, LaunchEvent::Done, 7);
    step(l, LaunchEvent::Done, 8);
    step(l, LaunchEvent::ProcessesClosed(vec![]), 9);
    step(l, LaunchEvent::Done, 10);
    if gpu_ok {
        step(l, LaunchEvent::GpuPreferenceSet(Ok(Some("GpuPreference=1;".to_string()))), 11);
        step(l, LaunchEvent::Done, 12)
    } else {
        step(l, LaunchEvent::GpuPreferenceSet(Err(AppError::RegistryError("denied".to_string()))), 11)
    }
}

#[test]
fn a_game_that_fails_to_start_ends_the_launch() {
    let mut l = LaunchSession::new(dcs_profile(), session_for_launch("x", t(0)));
    assert!(matches!(to_spawn(&mut l, false), LaunchAction::Spawn(_)));
    match step(&mut l, LaunchEvent::Spawned(Err("file not found".to_string())), 12) {
        LaunchAction::Finish(Err(AppError::ProcessError { process, message })) => {
            assert_eq!(process, "C:\\Games\\DCS World\\bin\\DCS.exe");
            assert_eq!(message, "Failed to launch: file not found");
        },
        other => panic!("{:?}", other),
    }
    assert_eq!(l.session().phase, SessionPhase::PreLaunch);
}

#[test]
fn a_game_that_exits_itself_is_restored_with_its_earlier_gpu_preference() {
    let mut p = dcs_profile();
    p.memory_optimization.trim_other_processes = true;
    let mut l = LaunchSession::new(p, session_for_launch("x", t(0)));
    assert!(matches!(to_spawn(&mut l, true), LaunchAction::Spawn(_)));
    step(&mut l, LaunchEvent::Spawned(Ok(9)), 13);
    step(&mut l, LaunchEvent::SessionSaved(Ok(())), 14);
    assert!(matches!(step(&mut l, LaunchEvent::Done, 15), LaunchAction::ApplySettings(9)));
    assert!(matches!(step(&mut l, LaunchEvent::Done, 16), LaunchAction::TrimBackground(9)));
    assert!(matches!(step(&mut l, LaunchEvent::Done, 17), LaunchAction::Monitor { .. }));
    assert!(matches!(step(&mut l, LaunchEvent::MonitorFinished(Ok(9)), 18), LaunchAction::PublishSession));
    step(&mut l, LaunchEvent::Done, 19);
    match step(&mut l, LaunchEvent::SessionSaved(Ok(())), 20) {
        LaunchAction::Restore(plan) => assert_eq!(plan.gpu_previous, Some("GpuPreference=1;".to_string())),
        other => panic!("{:?}", other),
    }
}

#[test]
fn a_failed_save_ends_the_launch_with_its_error() {
    let mut l = LaunchSession::new(dcs_profile(), session_for_launch("x", t(0)));
    step(&mut l, LaunchEvent::Begin, 1);
    step(&mut l, LaunchEvent::Elevation(true), 2);
    step(&mut l, LaunchEvent::ExecutableExists(true), 3);
    step(&mut l, LaunchEvent::ServicesQueried(vec![]), 4);
    step(&mut l, LaunchEvent::GpuPreferenceRead(None), 5);
    let err = AppError::SessionError("disk full".to_string());
    match step(&mut l, LaunchEvent::SessionSaved(Err(err)), 6) {
        LaunchAction::Finish(Err(AppError::SessionError(m))) => assert_eq!(m, "disk full"),
        other => panic!("{:?}", other),
    }
    assert!(l.is_finished());
}

#[test]
fn without_a_gpu_preference_the_game_starts_right_after_the_waits() {
    let mut p = dcs_profile();
    p.gpu_preference = GpuPreference::Default;
    let mut l = LaunchSession::new(p, session_for_launch("x", t(0)));
    step(&mut l, LaunchEvent::Begin, 1);
    step(&mut l, LaunchEvent::Elevation(true), 2);
    step(&mut l, LaunchEvent::ExecutableExists(true), 3);
    step(&mut l, LaunchEvent::ServicesQueried(vec![]), 4);
    step(&mut l, LaunchEvent::GpuPreferenceRead(None), 5);
    step(&mut l, LaunchEvent::SessionSaved(Ok(())), 6);
    step(&mut l, LaunchEvent::Done, 7);
    step(&mut l, LaunchEvent::Done, 8);
    step(&mut l, LaunchEvent::ProcessesClosed(vec![]), 9);
    assert!(matches!(step(&mut l, LaunchEvent::Done, 10), LaunchAction::Spawn(_)));
}
