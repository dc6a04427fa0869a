use vscode_profile_importer::creation::{
    start_creation, CreationAction, CreationEvent, CreationNotice, CreationSession, CreationStage, GroupSignal,
};
use vscode_profile_importer::install::{start_install, InstallAction, InstallEvent, InstallStage, WaitOutcome};
use vscode_profile_importer::text::decimal_string;

fn storage_with(name: &str) -> String {
    format!("{{\"userDataProfiles\": [{{\"name\": \"{}\", \"location\": \"-x\"}}]}}", name)
}

fn step(session: &mut CreationSession, event: CreationEvent) -> CreationAction {
    session.step(event)
}

fn finish_message(a: CreationAction) -> Result<(), String> {
    match a {
        CreationAction::Finish(r) => r,
        _ => panic!("expected the creation to finish"),
    }
}

#[test]
fn creation_dry_run_only_announces() {
    let (mut s, a) = start_creation("P".to_string(), 30, true, true);
    assert!(matches!(a, CreationAction::Notice(CreationNotice::DryRun)));
    let a = step(&mut s, CreationEvent::Continue);
    assert_eq!(finish_message(a), Ok(()));
    assert!(matches!(s.stage(), CreationStage::Finished));
}

#[test]
fn creation_skips_registered_profile() {
    let (mut s, a) = start_creation("Here".to_string(), 30, false, true);
    assert!(matches!(a, CreationAction::ReadStorage));
    let a = step(&mut s, CreationEvent::StorageRead(Some(storage_with("Here"))));
    assert!(matches!(a, CreationAction::Notice(CreationNotice::AlreadyRegistered)));
    assert_eq!(finish_message(step(&mut s, CreationEvent::Continue)), Ok(()));
}

#[test]
fn creation_full_run_with_group_signals() {
    let (mut s, _) = start_creation("C/C++ Dev".to_string(), 30, false, true);
    let a = step(&mut s, CreationEvent::StorageRead(None));
    match a {
        CreationAction::MakeTempDir(folder) => assert_eq!(folder, "C_C++ Dev"),
        _ => panic!("expected the temporary directory"),
    }
    assert!(matches!(step(&mut s, CreationEvent::Done(Ok(()))), CreationAction::Launch { new_group: true }));
    assert!(matches!(step(&mut s, CreationEvent::Done(Ok(()))), CreationAction::Poll));
    let a = step(&mut s, CreationEvent::Polled { storage: Some(storage_with("Other")), elapsed_secs: 0 });
    assert!(matches!(a, CreationAction::Pause(1000)));
    assert!(matches!(step(&mut s, CreationEvent::Continue), CreationAction::Poll));
    let a = step(&mut s, CreationEvent::Polled { storage: Some(storage_with("C/C++ Dev")), elapsed_secs: 1 });
    assert!(matches!(a, CreationAction::Notice(CreationNotice::Registered)));
    assert!(matches!(step(&mut s, CreationEvent::Continue), CreationAction::SignalGroup(GroupSignal::Terminate)));
    assert!(matches!(step(&mut s, CreationEvent::Continue), CreationAction::Pause(500)));
    assert!(matches!(step(&mut s, CreationEvent::Continue), CreationAction::SignalGroup(GroupSignal::Kill)));
    assert!(matches!(step(&mut s, CreationEvent::Continue), CreationAction::StopWindow));
    assert!(matches!(step(&mut s, CreationEvent::Continue), CreationAction::CheckLeftovers));
    assert!(matches!(step(&mut s, CreationEvent::Leftovers(true)), CreationAction::Pause(1000)));
    assert!(matches!(step(&mut s, CreationEvent::Continue), CreationAction::CheckLeftovers));
    assert!(matches!(step(&mut s, CreationEvent::Leftovers(false)), CreationAction::RemoveTempDir));
    assert_eq!(finish_message(step(&mut s, CreationEvent::Continue)), Ok(()));
}

#[test]
fn creation_without_group_signals_stops_window_directly() {
    let (mut s, _) = start_creation("P".to_string(), 30, false, false);
    step(&mut s, CreationEvent::StorageRead(None));
    assert!(matches!(step(&mut s, CreationEvent::Done(Ok(()))), CreationAction::Launch { new_group: false }));
    step(&mut s, CreationEvent::Done(Ok(())));
    let a = step(&mut s, CreationEvent::Polled { storage: Some(storage_with("P")), elapsed_secs: 3 });
    assert!(matches!(a, CreationAction::Notice(CreationNotice::Registered)));
    assert!(matches!(step(&mut s, CreationEvent::Continue), CreationAction::StopWindow));
}

#[test]
fn creation_looks_for_leftovers_ten_times_at_most() {
    let (mut s, _) = start_creation("P".to_string(), 30, false, false);
    step(&mut s, CreationEvent::StorageRead(None));
    step(&mut s, CreationEvent::Done(Ok(())));
    step(&mut s, CreationEvent::Done(Ok(())));
    step(&mut s, CreationEvent::Polled { storage: Some(storage_with("P")), elapsed_secs: 0 });
    step(&mut s, CreationEvent::Continue);
    let mut a = step(&mut s, CreationEvent::Continue);
    let mut checks = 0;
    while matches!(a, CreationAction::CheckLeftovers) {
        checks += 1;
        assert!(matches!(step(&mut s, CreationEvent::Leftovers(true)), CreationAction::Pause(1000)));
        a = step(&mut s, CreationEvent::Continue);
    }
    assert_eq!(checks, 10);
    assert!(matches!(a, CreationAction::RemoveTempDir));
    assert_eq!(finish_message(step(&mut s, CreationEvent::Continue)), Ok(()));
}

#[test]
fn creation_times_out_after_cleanup() {
    let (mut s, _) = start_creation("Slow".to_string(), 30, false, true);
    step(&mut s, CreationEvent::StorageRead(None));
    step(&mut s, CreationEvent::Done(Ok(())));
    step(&mut s, CreationEvent::Done(Ok(())));
    let a = step(&mut s, CreationEvent::Polled { storage: None, elapsed_secs: 29 });
    assert!(matches!(a, CreationAction::Pause(1000)));
    step(&mut s, CreationEvent::Continue);
    let a = step(&mut s, CreationEvent::Polled { storage: None, elapsed_secs: 30 });
    assert!(matches!(a, CreationAction::StopWindow));
    assert!(matches!(step(&mut s, CreationEvent::Continue), CreationAction::RemoveTempDir));
    assert_eq!(
        finish_message(step(&mut s, CreationEvent::Continue)),
        Err("Timed out after 30s waiting for profile 'Slow' to be registered in storage.json. \
             Make sure VS Code is installed and can open a window."
            .to_string())
    );
}

#[test]
fn creation_reports_directory_and_launch_failures() {
    let (mut s, _) = start_creation("P".to_string(), 5, false, true);
    step(&mut s, CreationEvent::StorageRead(Some("not json".to_string())));
    let a = step(&mut s, CreationEvent::Done(Err("permission denied".to_string())));
    assert_eq!(finish_message(a), Err("permission denied".to_string()));

    let (mut s, _) = start_creation("P".to_string(), 5, false, true);
    step(&mut s, CreationEvent::StorageRead(None));
    step(&mut s, CreationEvent::Done(Ok(())));
    let a = step(&mut s, CreationEvent::Done(Err("No such file or directory".to_string())));
    assert_eq!(finish_message(a), Err("Failed to launch VS Code: No such file or directory".to_string()));
}

#[test]
fn decimal_string_exact_values() {
    assert_eq!(decimal_string(0), "0");
    assert_eq!(decimal_string(7), "7");
    assert_eq!(decimal_string(120), "120");
    assert_eq!(decimal_string(u64::MAX), u64::MAX.to_string());
}

#[test]
fn install_dry_run_succeeds_without_spawning() {
    let (mut s, a) = start_install(120, true);
    assert_eq!(a, InstallAction::Notice);
    assert_eq!(s.step(InstallEvent::Continue), InstallAction::Finish(true));
    assert!(matches!(s.stage(), InstallStage::Finished));
}

#[test]
fn install_outcomes() {
    let (mut s, a) = start_install(120, false);
    assert_eq!(a, InstallAction::Spawn);
    assert_eq!(s.step(InstallEvent::Spawned(false)), InstallAction::Finish(false));

    for (outcome, expected) in [
        (WaitOutcome::Exited(true), true),
        (WaitOutcome::Exited(false), false),
        (WaitOutcome::Failed, false),
    ] {
        let (mut s, _) = start_install(7, false);
        assert_eq!(s.step(InstallEvent::Spawned(true)), InstallAction::Wait(7));
        assert_eq!(s.step(InstallEvent::Waited(outcome)), InstallAction::Finish(expected));
    }

    let (mut s, _) = start_install(7, false);
    s.step(InstallEvent::Spawned(true));
    assert_eq!(s.step(InstallEvent::Waited(WaitOutcome::TimedOut)), InstallAction::Stop);
    assert_eq!(s.step(InstallEvent::Continue), InstallAction::Finish(false));
}
