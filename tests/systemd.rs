use casaos_installer::systemd::{
    capture, disable, enable, is_active, unit_args, unit_state, unit_exists, ActiveState,
    SubState, SystemctlError, UnitOp, UnitState,
};

fn status_reply(unit: &str) -> Result<String, SystemctlError> {
    let text = format!(
        "● {} - CasaOS service\n     Loaded: loaded\n     Active: active (running)\n",
        unit
    );
    capture(true, true, Some(text.into_bytes()))
}

#[test]
fn test_check_exists() {
    assert!(unit_exists(&status_reply("casaos-gateway.service")).unwrap());
    assert!(unit_exists(&status_reply("casaos-message-bus.service")).unwrap());
    assert!(unit_exists(&status_reply("casaos-user-service.service")).unwrap());
    assert!(unit_exists(&status_reply("casaos-local-storage.service")).unwrap());
    assert!(unit_exists(&status_reply("casaos-app-management.service")).unwrap());
    assert!(unit_exists(&status_reply("rclone.service")).unwrap());
    assert!(unit_exists(&status_reply("casaos.service")).unwrap());
}

#[test]
fn unknown_unit_does_not_exist() {
    let reply = capture(true, false, Some(Vec::new()));
    assert_eq!(reply, Err(SystemctlError::Failed));
    assert_eq!(unit_exists(&reply), Ok(false));
}

#[test]
fn capture_reports_each_error() {
    assert_eq!(capture(false, false, None), Err(SystemctlError::Spawn));
    assert_eq!(capture(true, false, Some(b"x".to_vec())), Err(SystemctlError::Failed));
    assert_eq!(capture(true, true, None), Err(SystemctlError::EmptyOutput));
    assert_eq!(capture(true, true, Some(Vec::new())), Err(SystemctlError::EmptyOutput));
    assert_eq!(
        capture(true, true, Some(vec![0xff, 0xfe])),
        Err(SystemctlError::InvalidUtf8)
    );
}

#[test]
fn capture_decodes_utf8() {
    let reply = capture(true, true, Some("état ✓".as_bytes().to_vec()));
    assert_eq!(reply, Ok("état ✓".to_string()));
}

#[test]
fn is_active_ignores_trailing_white_space() {
    assert_eq!(is_active(&Ok("active\n".to_string())), Ok(true));
    assert_eq!(is_active(&Ok("active \t\r\n".to_string())), Ok(true));
    assert_eq!(is_active(&Ok("active".to_string())), Ok(true));
    assert_eq!(is_active(&Ok("inactive\n".to_string())), Ok(false));
    assert_eq!(is_active(&Ok(" active\n".to_string())), Ok(false));
    assert_eq!(is_active(&Ok("activating\n".to_string())), Ok(false));
    assert_eq!(is_active(&Ok("failed\n".to_string())), Ok(false));
    assert_eq!(is_active(&Err(SystemctlError::Failed)), Err(SystemctlError::Failed));
}

#[test]
fn enable_and_disable_need_a_successful_run() {
    assert_eq!(enable(Ok(true)), Ok(true));
    assert_eq!(enable(Ok(false)), Ok(false));
    assert_eq!(enable(Err(SystemctlError::Spawn)), Ok(false));
    assert_eq!(disable(Ok(true)), Ok(true));
    assert_eq!(disable(Ok(false)), Ok(false));
    assert_eq!(disable(Err(SystemctlError::Spawn)), Ok(false));
}

#[test]
fn unit_args_name_the_operation() {
    assert_eq!(unit_args(UnitOp::Status, "casaos.service"), vec!["status", "casaos.service"]);
    assert_eq!(unit_args(UnitOp::IsActive, "a"), vec!["is-active", "a"]);
    assert_eq!(unit_args(UnitOp::EnableNow, "a"), vec!["enable", "--now", "a"]);
    assert_eq!(unit_args(UnitOp::DisableNow, "a"), vec!["disable", "--now", "a"]);
    assert_eq!(unit_args(UnitOp::Stop, "a"), vec!["stop", "a"]);
    assert_eq!(unit_args(UnitOp::Disable, "a"), vec!["disable", "a"]);
}

#[test]
fn status_reduces_the_active_field() {
    let running = "● casaos.service - CasaOS Main Service\n     Loaded: loaded (/usr/lib/systemd/system/casaos.service; enabled)\n     Active: active (running) since Mon 2023-01-02 10:00:00 UTC; 1h ago\n   Main PID: 1234 (casaos)\n";
    assert_eq!(
        unit_state(running),
        Some(UnitState { active: ActiveState::Active, sub: SubState::Running })
    );
    let exited = "● a.service\n     Active: active (exited) since Mon\n";
    assert_eq!(
        unit_state(exited),
        Some(UnitState { active: ActiveState::Active, sub: SubState::Dead })
    );
    let inactive = "○ rclone.service\n     Active: inactive (dead)\n";
    assert_eq!(
        unit_state(inactive),
        Some(UnitState { active: ActiveState::Inactive, sub: SubState::Dead })
    );
    let failed = "× b.service\n     Active: failed (Result: exit-code) since Tue\n";
    assert_eq!(
        unit_state(failed),
        Some(UnitState { active: ActiveState::Failed, sub: SubState::Dead })
    );
    assert_eq!(unit_state("     Active: activating (start) since Tue\n"), None);
    assert_eq!(unit_state("no such unit\n"), None);
    assert_eq!(unit_state(""), None);
}

#[test]
fn trailing_unicode_white_space_is_trimmed() {
    for c in ['\u{85}', '\u{a0}', '\u{1680}', '\u{2003}', '\u{2028}', '\u{202f}', '\u{3000}'] {
        assert!(c.is_whitespace());
        assert_eq!(is_active(&Ok(format!("active{}", c))), Ok(true));
    }
    for c in ['\u{200b}', '\u{feff}', 'x'] {
        assert!(!c.is_whitespace());
        assert_eq!(is_active(&Ok(format!("active{}", c))), Ok(false));
    }
}
