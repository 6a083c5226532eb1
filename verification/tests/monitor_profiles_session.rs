use game_optimizer::app::{can_launch, needs_realtime_confirmation, Tab};
use game_optimizer::model::{AppConfig, ProcessPriority, Profile, SessionPhase, SessionState};
use game_optimizer::monitor::{Monitor, MonitorAction, MonitorEvent};
use game_optimizer::profiles::{
    duplicate_profile, find_profile_by_friendly_name, import_profile, is_json_file_name,
    optional_text, profile_file_name, profile_name_from_stem, profiles_dir, recovery_profile,
    sort_profiles, str_lex_le, with_identity,
};
use game_optimizer::session::{interrupted_session, session_for_launch};
use game_optimizer::time::Timestamp;

fn step(m: &mut Monitor, ev: MonitorEvent) -> MonitorAction {
    assert!(m.accepts(&ev));
    m.step(ev)
}

#[test]
fn the_monitor_follows_a_launcher_to_the_game() {
    let (mut m, first) = Monitor::new(100, "DCS.exe", 2);
    assert!(matches!(first, MonitorAction::WaitForExit(100)));
    assert!(matches!(step(&mut m, MonitorEvent::Exited { stop_requested: false }), MonitorAction::SleepSecond));
    assert!(matches!(step(&mut m, MonitorEvent::GraceSecond { stop_requested: false }), MonitorAction::SleepSecond));
    match step(&mut m, MonitorEvent::GraceSecond { stop_requested: false }) {
        MonitorAction::Scan(name) => assert_eq!(name, "DCS.exe"),
        other => panic!("{:?}", other),
    }
    assert!(matches!(step(&mut m, MonitorEvent::Scanned(vec![100, 200])), MonitorAction::WaitForExit(200)));
    assert!(matches!(step(&mut m, MonitorEvent::Exited { stop_requested: false }), MonitorAction::SleepSecond));
    step(&mut m, MonitorEvent::GraceSecond { stop_requested: false });
    step(&mut m, MonitorEvent::GraceSecond { stop_requested: false });
    assert!(matches!(step(&mut m, MonitorEvent::Scanned(vec![])), MonitorAction::Finished(200)));
    assert!(m.is_done());
}

#[test]
fn the_monitor_stops_when_asked() {
    let (mut m, _) = Monitor::new(7, "x.exe", 30);
    assert!(matches!(step(&mut m, MonitorEvent::Exited { stop_requested: true }), MonitorAction::Finished(7)));
    let (mut m, _) = Monitor::new(7, "x.exe", 30);
    step(&mut m, MonitorEvent::Exited { stop_requested: false });
    assert!(matches!(step(&mut m, MonitorEvent::GraceSecond { stop_requested: true }), MonitorAction::Finished(7)));
    let (mut m, _) = Monitor::new(7, "x.exe", 0);
    assert!(matches!(step(&mut m, MonitorEvent::Exited { stop_requested: false }), MonitorAction::Scan(_)));
    assert!(!m.accepts(&MonitorEvent::Exited { stop_requested: false }));
}

#[test]
fn profile_files_and_names() {
    assert_eq!(profiles_dir(), "profiles");
    assert_eq!(profile_file_name("DCS World VR"), "dcs-world-vr.json");
    assert_eq!(profile_file_name("msfs-2024"), "msfs-2024.json");
    assert_eq!(profile_name_from_stem("Star Wars Squadrons"), "star-wars-squadrons");
    assert_eq!(profile_name_from_stem("DCS ÄÖ"), "dcs-äö");
    assert!(is_json_file_name("dcs-vr.json"));
    assert!(!is_json_file_name("dcs-vr.JSON"));
    assert!(!is_json_file_name(".json"));
    assert!(is_json_file_name("a.b.json"));
    assert!(!is_json_file_name("notes.txt"));
    assert!(!is_json_file_name("json"));
    assert_eq!(optional_text(String::new()), None);
    assert_eq!(optional_text("-vr".to_string()), Some("-vr".to_string()));
}

fn named(friendly: &str, name: &str) -> Profile {
    let mut p = Profile::default();
    p.friendly_name = friendly.to_string();
    p.name = name.to_string();
    p
}

#[test]
fn the_profile_list_is_sorted_by_friendly_name_keeping_ties_in_order() {
    let sorted = sort_profiles(vec![
        named("Star Wars: Squadrons", "a"),
        named("Assetto Corsa", "b"),
        named("F1 24", "c"),
        named("Assetto Corsa", "d"),
        named("DCS World VR", "e"),
    ]);
    let order: Vec<(&str, &str)> = sorted.iter().map(|p| (p.friendly_name.as_str(), p.name.as_str())).collect();
    assert_eq!(
        order,
        vec![("Assetto Corsa", "b"), ("Assetto Corsa", "d"), ("DCS World VR", "e"), ("F1 24", "c"), ("Star Wars: Squadrons", "a")]
    );
    assert!(str_lex_le("B", "a"));
    assert!(!str_lex_le("b", "B"));
    assert!(str_lex_le("ab", "ab"));
    assert!(str_lex_le("", "a"));
    assert!(!str_lex_le("abc", "ab"));
}

#[test]
fn duplicates_and_imports_get_a_new_identity() {
    let mut src = named("DCS World VR", "dcs-vr");
    src.notes = "VR".to_string();
    src.process_priority = ProcessPriority::AboveNormal;
    let dup = duplicate_profile(&src);
    assert_eq!(dup.name, "dcs-vr-copy");
    assert_eq!(dup.friendly_name, "DCS World VR (Copy)");
    assert_eq!(dup.notes, "VR");
    assert_eq!(dup.process_priority, ProcessPriority::AboveNormal);
    assert_ne!(dup.id, src.id);
    let id = src.id;
    let imported = import_profile(src);
    assert_ne!(imported.id, id);
    assert_eq!(imported.name, "dcs-vr");
}

#[test]
fn the_profile_for_a_recovery() {
    let profiles = vec![named("A", "a1"), named("B", "b1"), named("B", "b2")];
    assert_eq!(find_profile_by_friendly_name(&profiles, "B"), Some(1));
    assert_eq!(find_profile_by_friendly_name(&profiles, "C"), None);
    let r = recovery_profile(&profiles, "B");
    assert_eq!(r.name, "b1");
    assert_eq!(r.id, profiles[1].id);
    let fresh = recovery_profile(&profiles, "Unknown");
    assert_eq!(fresh.friendly_name, "Unknown");
    assert!(fresh.name.is_empty() && fresh.executable_path.is_empty());
}

#[test]
fn sessions_found_at_start_up() {
    let mut s = SessionState::default();
    s.phase = SessionPhase::Running;
    assert!(interrupted_session(Some(s)).is_some());
    let mut s = SessionState::default();
    s.phase = SessionPhase::Completed;
    assert!(interrupted_session(Some(s)).is_none());
    assert!(interrupted_session(None).is_none());
    let l = session_for_launch("F1 24", Timestamp { secs: 5, nanos: 1 });
    assert_eq!(l.phase, SessionPhase::PreLaunch);
    assert_eq!(l.profile_name.as_deref(), Some("F1 24"));
    assert_eq!(l.started_at, Some(Timestamp { secs: 5, nanos: 1 }));
    assert!(l.pre_session_snapshot.is_none() && l.target_pid.is_none());
    let c = l.copy();
    assert_eq!(c.profile_name.as_deref(), Some("F1 24"));
}

#[test]
fn dashboard_decisions() {
    assert!(can_launch(SessionPhase::Idle, Some(0)));
    assert!(can_launch(SessionPhase::Completed, Some(2)));
    assert!(!can_launch(SessionPhase::Running, Some(0)));
    assert!(!can_launch(SessionPhase::Idle, None));
    let mut c = AppConfig::default();
    assert!(needs_realtime_confirmation(ProcessPriority::Realtime, &c));
    assert!(!needs_realtime_confirmation(ProcessPriority::High, &c));
    c.confirm_realtime_priority = false;
    assert!(!needs_realtime_confirmation(ProcessPriority::Realtime, &c));
    assert_ne!(Tab::Dashboard, Tab::Logs);
}

#[test]
fn a_new_identity_keeps_every_setting() {
    let mut p = Profile::default();
    p.name = "dcs".to_string();
    p.friendly_name = "DCS World".to_string();
    p.notes = "VR".to_string();
    let id = uuid::Uuid::from_u128(42);
    let created = Timestamp { secs: 10, nanos: 5 };
    let updated = Timestamp { secs: 20, nanos: 7 };
    let r = with_identity(p, id, created, updated);
    assert_eq!(r.id, id);
    assert_eq!(r.created_at, created);
    assert_eq!(r.updated_at, updated);
    assert_eq!(r.name, "dcs");
    assert_eq!(r.friendly_name, "DCS World");
    assert_eq!(r.notes, "VR");
}
