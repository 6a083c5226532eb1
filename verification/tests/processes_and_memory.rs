use game_optimizer::errors::AppError;
use game_optimizer::memory::{is_trim_candidate, should_trim, working_set_bounds, MIN_TRIM_BYTES};
use game_optimizer::model::{CpuAffinity, MemoryOptimization, ProcessPriority};
use game_optimizer::priority::{affinity_mask, priority_class, warns_realtime};
use game_optimizer::monitor::successor_pid;
use game_optimizer::processes::{find_pids_by_name, kill_processes_by_name, terminated_records, ProcessInfo};

fn list() -> Vec<ProcessInfo> {
    vec![
        ProcessInfo { pid: 4, exe_name: "System".to_string(), exe_path: None, cmdline: None, working_dir: None },
        ProcessInfo {
            pid: 100,
            exe_name: "OneDrive.exe".to_string(),
            exe_path: Some("C:\\OneDrive\\OneDrive.exe".to_string()),
            cmdline: Some("C:\\OneDrive\\OneDrive.exe".to_string()),
            working_dir: Some("C:\\OneDrive".to_string()),
        },
        ProcessInfo { pid: 200, exe_name: "discord.exe".to_string(), exe_path: Some("C:\\d.exe".to_string()), cmdline: None, working_dir: None },
        ProcessInfo { pid: 300, exe_name: "ONEDRIVE.EXE".to_string(), exe_path: None, cmdline: None, working_dir: None },
    ]
}

#[test]
fn processes_are_found_by_name_ignoring_ascii_case() {
    assert_eq!(find_pids_by_name(&list(), "onedrive.exe"), vec![100, 300]);
    assert_eq!(find_pids_by_name(&list(), "Discord.exe"), vec![200]);
    assert!(find_pids_by_name(&list(), "steam.exe").is_empty());
}

#[test]
fn every_process_of_a_closed_program_is_recorded() {
    let records = kill_processes_by_name(&list(), "OneDrive.exe", true).unwrap();
    assert_eq!(records.len(), 2);
    assert_eq!(records[0].pid, 100);
    assert_eq!(records[1].pid, 300);
    assert!(records.iter().all(|r| r.exe_name == "OneDrive.exe" && r.should_relaunch));
    assert_eq!(records[0].cmdline.as_deref(), Some("C:\\OneDrive\\OneDrive.exe"));
    assert_eq!(records[0].working_dir.as_deref(), Some("C:\\OneDrive"));
    assert!(records[1].cmdline.is_none() && records[1].working_dir.is_none());
    assert!(kill_processes_by_name(&list(), "steam.exe", false).unwrap().is_empty());
}

#[test]
fn protected_processes_are_never_closed() {
    match kill_processes_by_name(&list(), "System", false) {
        Err(AppError::SecurityGuard(m)) => assert_eq!(m, "Process 'System' is protected"),
        other => panic!("unexpected {:?}", other),
    }
}

#[test]
fn the_successor_is_the_first_other_process() {
    assert_eq!(successor_pid(&vec![10, 20, 30], 10), Some(20));
    assert_eq!(successor_pid(&vec![10, 10], 10), None);
    assert_eq!(successor_pid(&vec![], 10), None);
}

#[test]
fn working_set_decisions() {
    let none = MemoryOptimization { trim_other_processes: false, target_min_working_set_bytes: None };
    assert_eq!(working_set_bounds(&none), None);
    let some = MemoryOptimization { trim_other_processes: false, target_min_working_set_bytes: Some(256 * 1024 * 1024) };
    assert_eq!(working_set_bounds(&some), Some((256 * 1024 * 1024, 1024 * 1024 * 1024)));
    assert_eq!(MIN_TRIM_BYTES, 100 * 1024 * 1024);
    assert!(is_trim_candidate(50, 42, "Discord.exe"));
    assert!(!is_trim_candidate(42, 42, "game.exe"));
    assert!(!is_trim_candidate(0, 42, "Idle"));
    assert!(!is_trim_candidate(50, 42, "dwm.exe"));
    assert!(should_trim(true, MIN_TRIM_BYTES + 1));
    assert!(!should_trim(true, MIN_TRIM_BYTES));
    assert!(!should_trim(false, usize::MAX));
}

#[test]
fn only_terminated_processes_keep_their_record() {
    let records = kill_processes_by_name(&list(), "OneDrive.exe", true).unwrap();
    let kept = terminated_records(&records, &vec![false, true]);
    assert_eq!(kept.len(), 1);
    assert_eq!(kept[0].pid, 300);
    assert!(terminated_records(&records, &vec![true]).iter().map(|r| r.pid).eq([100]));
    assert!(terminated_records(&records, &vec![]).is_empty());
}

#[test]
fn priority_settings_map_to_windows_priority_classes() {
    assert_eq!(priority_class(&ProcessPriority::Idle), 64);
    assert_eq!(priority_class(&ProcessPriority::BelowNormal), 16384);
    assert_eq!(priority_class(&ProcessPriority::Normal), 32);
    assert_eq!(priority_class(&ProcessPriority::AboveNormal), 32768);
    assert_eq!(priority_class(&ProcessPriority::High), 128);
    assert_eq!(priority_class(&ProcessPriority::Realtime), 256);
    assert!(warns_realtime(&ProcessPriority::Realtime));
    assert!(!warns_realtime(&ProcessPriority::High));
    assert_eq!(affinity_mask(&CpuAffinity { mask: Some(0xF0), description: "P-cores".to_string() }), Some(0xF0));
    assert_eq!(affinity_mask(&CpuAffinity::default()), None);
}
