use casaos_installer::install::{InstallRun, Phase, Summary};
use casaos_installer::manifest::WalkEntry;
use casaos_installer::scripts::{select_scripts, ScriptRun};
use casaos_installer::services::{
    casa_services, health, teardown_plan, BringUp, Health, ServiceOutcome, ServiceStep, TeardownOp,
};

#[test]
fn services_list_ends_with_capstone() {
    let s = casa_services();
    assert_eq!(s.len(), 7);
    assert_eq!(s[0], "casaos-gateway.service");
    assert_eq!(s[6], "casaos.service");
}

#[test]
fn bring_up_goes_front_to_back() {
    let mut b = BringUp::new(casa_services());
    let mut started = Vec::new();
    loop {
        match b.step() {
            ServiceStep::CheckExists(i) => b.on_exists(i != 2),
            ServiceStep::EnableAndStart(i) => {
                started.push(i);
                b.on_started(i != 4);
            }
            ServiceStep::Done => break,
        }
    }
    assert_eq!(started, vec![0, 1, 3, 4, 5, 6]);
    assert_eq!(b.outcomes[2], ServiceOutcome::Unknown);
    assert_eq!(b.outcomes[4], ServiceOutcome::StartFailed);
    assert_eq!(b.outcomes[6], ServiceOutcome::Started);
    assert!(b.degraded());
}

#[test]
fn bring_up_of_all_services_is_clean() {
    let mut b = BringUp::new(vec!["a".to_string(), "b".to_string()]);
    assert_eq!(b.step(), ServiceStep::CheckExists(0));
    b.on_exists(true);
    assert_eq!(b.step(), ServiceStep::EnableAndStart(0));
    b.on_started(true);
    assert_eq!(b.step(), ServiceStep::CheckExists(1));
    b.on_exists(true);
    b.on_started(true);
    assert_eq!(b.step(), ServiceStep::Done);
    assert!(!b.degraded());
}

#[test]
fn teardown_stops_then_disables_each() {
    assert_eq!(
        teardown_plan(2),
        vec![
            TeardownOp::Stop(0),
            TeardownOp::Disable(0),
            TeardownOp::Stop(1),
            TeardownOp::Disable(1)
        ]
    );
    assert!(teardown_plan(0).is_empty());
}

#[test]
fn health_classifies() {
    assert_eq!(health(false, true), Health::Missing);
    assert_eq!(health(true, true), Health::Running);
    assert_eq!(health(true, false), Health::NotRunning);
}

#[test]
fn scripts_are_shell_files() {
    let e = |p: &str, f: bool| WalkEntry { path: p.to_string(), is_file: f };
    let entries = vec![
        e("/b/scripts/migration/script.d", false),
        e("/b/scripts/migration/script.d/01-a.sh", true),
        e("/b/scripts/migration/script.d/02-b.txt", true),
        e("/b/scripts/migration/script.d/.sh", true),
        e("/b/scripts/migration/script.d/dir.sh", false),
        e("/b/scripts/migration/script.d/x.sh.bak", true),
        e("/b/scripts/migration/script.d/sub/03-c.sh", true),
    ];
    assert_eq!(
        select_scripts(&entries),
        vec![
            "/b/scripts/migration/script.d/01-a.sh".to_string(),
            "/b/scripts/migration/script.d/sub/03-c.sh".to_string()
        ]
    );
}

#[test]
fn script_run_collects_failures() {
    let scripts = vec!["a.sh".to_string(), "b.sh".to_string(), "c.sh".to_string()];
    let mut run = ScriptRun::new(scripts.clone(), false);
    let mut ran = Vec::new();
    while let Some(i) = run.next() {
        ran.push(i);
        run.record(i != 1);
    }
    assert_eq!(ran, vec![0, 1, 2]);
    assert_eq!(run.failures(), vec![1]);

    let mut run = ScriptRun::new(scripts, true);
    let mut ran = Vec::new();
    while let Some(i) = run.next() {
        ran.push(i);
        run.record(i != 1);
    }
    assert_eq!(ran, vec![0, 1]);
    assert_eq!(run.failures(), vec![1]);
}

#[test]
fn install_phases_run_in_order() {
    let mut run = InstallRun::new();
    let order = [
        Phase::Download,
        Phase::Extract,
        Phase::Migrate,
        Phase::Copy,
        Phase::WriteManifest,
        Phase::Setup,
        Phase::Services,
    ];
    for p in order.iter() {
        assert_eq!(run.phase, *p);
        assert!(!run.finished());
        let failures = if *p == Phase::Services { 1 } else { 0 };
        run.complete_phase(failures);
    }
    assert_eq!(run.phase, Phase::Done);
    assert!(run.finished());
    assert_eq!(run.summary(), Summary::CompletedWithWarnings);
}

#[test]
fn install_fails_on_required_phase() {
    let mut run = InstallRun::new();
    run.complete_phase(0);
    run.complete_phase(1);
    assert_eq!(run.phase, Phase::Failed);
    assert_eq!(run.summary(), Summary::Failed);

    let mut run = InstallRun::new();
    for _ in 0..7 {
        run.complete_phase(0);
    }
    assert_eq!(run.summary(), Summary::Success);

    let mut run = InstallRun::new();
    run.abort();
    assert_eq!(run.summary(), Summary::Failed);
}

#[test]
fn scripts_run_in_lexical_order() {
    let e = |p: &str| WalkEntry { path: p.to_string(), is_file: true };
    let entries = vec![e("/s/b.sh"), e("/s/a/z.sh"), e("/s/a.sh"), e("/s/B.sh"), e("/s/a.sh")];
    assert_eq!(
        select_scripts(&entries),
        vec![
            "/s/B.sh".to_string(),
            "/s/a.sh".to_string(),
            "/s/a.sh".to_string(),
            "/s/a/z.sh".to_string(),
            "/s/b.sh".to_string()
        ]
    );
}
