use game_optimizer::logger::{
    add_to_buffer, clear_buffer, get_log_entries, recent_entries, LogBuffer, LogEntry, LogFilter,
    MAX_BUFFER_ENTRIES,
};
use game_optimizer::model::{
    default_after_launch, default_after_processes, default_after_services, default_logs_dir,
    default_profiles_dir, default_relaunch_grace_secs, default_true, AppConfig, CpuAffinity,
    DelayConfig, GpuPreference, MemoryOptimization, ProcessAction, ProcessPriority, Profile,
    ServiceAction, SessionPhase, SessionState, SystemSnapshot,
};

#[test]
fn defaults_of_the_settings() {
    let d = DelayConfig::default();
    assert_eq!((d.after_services_ms, d.after_processes_ms, d.after_launch_ms, d.relaunch_grace_secs), (1000, 500, 3000, 30));
    assert_eq!(
        (default_after_services(), default_after_processes(), default_after_launch(), default_relaunch_grace_secs()),
        (1000, 500, 3000, 30)
    );
    assert!(default_true());
    let c = AppConfig::default();
    assert_eq!(c.profiles_dir, "profiles");
    assert_eq!(c.logs_dir, "logs");
    assert!(c.confirm_realtime_priority && c.confirm_before_launch);
    assert_eq!(default_profiles_dir(), "profiles");
    assert_eq!(default_logs_dir(), "logs");
    assert_eq!(ProcessPriority::default(), ProcessPriority::High);
    assert_eq!(GpuPreference::default(), GpuPreference::HighPerformance);
    assert_eq!(SessionPhase::default(), SessionPhase::Idle);
    let a = CpuAffinity::default();
    assert!(a.mask.is_none() && a.description.is_empty());
    let m = MemoryOptimization::default();
    assert!(!m.trim_other_processes && m.target_min_working_set_bytes.is_none());
}

#[test]
fn a_new_profile() {
    let p = Profile::default();
    assert!(p.name.is_empty() && p.friendly_name.is_empty() && p.executable_path.is_empty());
    assert!(p.services.is_empty() && p.processes.is_empty() && p.scheduled_tasks.is_empty());
    assert_eq!(p.process_priority, ProcessPriority::High);
    assert_eq!(p.gpu_preference, GpuPreference::HighPerformance);
    assert_eq!(p.delays.after_launch_ms, 3000);
    let q = Profile::default();
    assert_ne!(p.id, q.id);
    let c = p.copied();
    assert_eq!(c.id, p.id);
    assert_eq!(c.created_at, p.created_at);
}

#[test]
fn labels_shown_for_the_choices() {
    assert_eq!(ProcessPriority::BelowNormal.label(), "Below Normal");
    assert_eq!(ProcessPriority::Realtime.label(), "Realtime (DANGEROUS)");
    assert_eq!(GpuPreference::PowerSaving.label(), "Power Saving");
    assert_eq!(GpuPreference::HighPerformance.label(), "High Performance");
    assert_eq!(SessionPhase::PreLaunch.label(), "Pre-Launch");
    assert_eq!(SessionPhase::Interrupted.label(), "Interrupted");
}

#[test]
fn phases_under_way() {
    assert!(SessionPhase::PreLaunch.is_active());
    assert!(SessionPhase::Running.is_active());
    assert!(SessionPhase::Restoring.is_active());
    assert!(!SessionPhase::Idle.is_active());
    assert!(!SessionPhase::Completed.is_active());
    assert!(!SessionPhase::Failed.is_active());
    assert!(!SessionPhase::Interrupted.is_active());
}

#[test]
fn editor_entries_for_typed_names() {
    let s = ServiceAction::stop_on_launch_named("SysMain");
    assert_eq!((s.service_name.as_str(), s.display_name.as_str(), s.stop_on_launch, s.was_running), ("SysMain", "SysMain", true, None));
    let p = ProcessAction::kill_on_launch_named("OneDrive.exe");
    assert!(p.kill_on_launch && !p.is_ignored && !p.relaunch_after);
    assert_eq!(p.exe_name, "OneDrive.exe");
}

#[test]
fn blank_session_and_snapshot() {
    let s = SessionState::default();
    assert_eq!(s.phase, SessionPhase::Idle);
    assert!(s.profile_name.is_none() && s.pre_session_snapshot.is_none() && s.session_log.is_empty());
    let snap = SystemSnapshot::default();
    assert_eq!(snap.captured_at.secs, 0);
    assert!(snap.services.is_empty() && snap.killed_processes.is_empty());
    let c = snap.copy();
    assert!(c.gpu_preference_before.is_none());
}

fn entry(level: &str, message: &str) -> LogEntry {
    LogEntry { timestamp: String::new(), level: level.to_string(), message: message.to_string() }
}

#[test]
fn the_log_buffer_keeps_the_newest_entries() {
    let mut b = LogBuffer::new();
    for i in 0..(MAX_BUFFER_ENTRIES + 1) {
        b.push_entry(entry("INFO", &i.to_string()));
    }
    let all = get_log_entries(&b);
    assert_eq!(all.len(), 500);
    assert_eq!(b.len(), 500);
    assert_eq!(all[0].message, "1");
    assert_eq!(all[499].message, "500");
    clear_buffer(&mut b);
    assert_eq!(b.len(), 0);
}

#[test]
fn added_entries_carry_level_message_and_time() {
    let mut b = LogBuffer::new();
    add_to_buffer(&mut b, "WARN", "Service SysMain already stopped, skipped");
    let e = &b.entries()[0];
    assert_eq!(e.level, "WARN");
    assert_eq!(e.message, "Service SysMain already stopped, skipped");
    // e.g. 2024-05-01T12:00:00.000Z
    assert_eq!(e.timestamp.len(), 24);
    for (i, c) in e.timestamp.chars().enumerate() {
        match i {
            4 | 7 => assert_eq!(c, '-'),
            10 => assert_eq!(c, 'T'),
            13 | 16 => assert_eq!(c, ':'),
            19 => assert_eq!(c, '.'),
            23 => assert_eq!(c, 'Z'),
            _ => assert!(c.is_ascii_digit()),
        }
    }
}

#[test]
fn the_log_view_filters_by_level() {
    let f = LogFilter::default();
    assert!(f.allows("INFO") && f.allows("WARN") && f.allows("ERROR") && f.allows("SECURITY"));
    assert!(!f.allows("DEBUG"));
    assert!(f.allows("TRACE"));
    assert!(f.auto_scroll);
    let entries = vec![entry("DEBUG", "a"), entry("INFO", "b"), entry("DEBUG", "c"), entry("X", "d")];
    let shown = f.filter_entries(&entries);
    let msgs: Vec<&str> = shown.iter().map(|e| e.message.as_str()).collect();
    assert_eq!(msgs, vec!["b", "d"]);
    let recent = recent_entries(&entries, 2);
    assert_eq!(recent.len(), 2);
    assert_eq!(recent[0].message, "c");
    assert_eq!(recent_entries(&entries, 10).len(), 4);
}
