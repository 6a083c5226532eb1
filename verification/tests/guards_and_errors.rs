use game_optimizer::errors::{check_elevation, AppError};
use game_optimizer::guards::{is_protected_process, is_protected_service, is_warned_process};
use game_optimizer::services::check_service_stop;

#[test]
fn protected_services_ignore_ascii_case() {
    assert!(is_protected_service("lsass"));
    assert!(is_protected_service("LSASS"));
    assert!(is_protected_service("windefend"));
    assert!(is_protected_service("UserManager"));
    assert!(!is_protected_service("SysMain"));
    assert!(!is_protected_service("WSearch"));
    assert!(!is_protected_service(""));
}

#[test]
fn protected_and_warned_processes() {
    assert!(is_protected_process("svchost.exe"));
    assert!(is_protected_process("SVCHOST.EXE"));
    assert!(is_protected_process("msmpeng.exe"));
    assert!(!is_protected_process("OneDrive.exe"));
    assert!(is_warned_process("Explorer.EXE"));
    assert!(!is_warned_process("Discord.exe"));
    assert!(!is_protected_process("explorer.exe"));
}

#[test]
fn stopping_a_protected_service_is_refused() {
    match check_service_stop("EventLog") {
        Err(AppError::SecurityGuard(m)) => assert_eq!(m, "Service 'EventLog' is protected"),
        other => panic!("unexpected {:?}", other),
    }
    assert!(check_service_stop("SysMain").is_ok());
}

#[test]
fn elevation_is_required() {
    assert!(matches!(check_elevation(false), Err(AppError::NotElevated)));
    assert!(check_elevation(true).is_ok());
    assert!(AppError::protected_process("x").is_security_guard());
    assert!(!AppError::NotElevated.is_security_guard());
}
