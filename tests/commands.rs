use casaos_installer::cli::{Cli, SubCommand};
use casaos_installer::commands::{disable, enable, restart, start, status, stop, uninstall, update};
use casaos_installer::config::Config;

#[test]
fn error_messages() {
    assert_eq!(
        start::Error::ServiceStartError("casaos.service".to_string()).message(),
        "Failed to start service casaos.service"
    );
    assert_eq!(
        stop::Error::StopAllError("busy".to_string()).message(),
        "Failed to stop all services: busy"
    );
    assert_eq!(
        restart::Error::ServiceNotFound("x".to_string()).message(),
        "Service not found: x"
    );
    assert_eq!(enable::Error::PermissionDenied.message(), "Permission denied");
    assert_eq!(
        enable::Error::EnableService("a".to_string()).message(),
        "Failed to enable service a"
    );
    assert_eq!(
        disable::Error::DisableAllError("b".to_string()).message(),
        "Failed to disable all services: b"
    );
    assert_eq!(
        status::Error::GetServiceStatusFailed.message(),
        "Failed to get service status"
    );
}

#[test]
fn uninstall_report() {
    let ok = uninstall::run(&Ok(()));
    assert!(ok.success);
    assert_eq!(ok.message, "Uninstall CasaOS successfully.");
    let bad = uninstall::run(&Err("permission denied".to_string()));
    assert!(!bad.success);
    assert_eq!(bad.message, "Failed to uninstall CasaOS.\npermission denied");
}

#[test]
fn command_values() {
    let cli = Cli { subcommand: SubCommand::Update(update::Args { alpha: true }) };
    assert!(matches!(cli.subcommand, SubCommand::Update(update::Args { alpha: true })));
    let s = start::Start { all: false, service: Some("rclone.service".to_string()) };
    assert_eq!(s.service.as_deref(), Some("rclone.service"));
    let _ = Config::default();
    let _ = stop::Stop::default();
}
