use backend_supervisor::launcher::{
    initial_launch_action, launch_step, LaunchAction, LaunchEvent, LaunchPhase, LocatorMode,
};
use backend_supervisor::probe::{check_python_backend_status, probe_indicates_running, ProbeOutcome};
use backend_supervisor::queries::{get_app_version, get_file_metadata, FileMetadata};
use backend_supervisor::text::{parent_of, u32_dec_string};

fn empty_probe() -> ProbeOutcome {
    ProbeOutcome::Output { stdout: Vec::new() }
}

fn matching_probe() -> ProbeOutcome {
    ProbeOutcome::Output {
        stdout: b"12345 python3 main.py\n".to_vec(),
    }
}

#[test]
fn status_not_running_when_no_match() {
    let r = check_python_backend_status(&empty_probe());
    assert_eq!(r, Err("Python backend is not running".to_string()));
    assert!(!probe_indicates_running(&empty_probe()));
}

#[test]
fn status_failure_when_tool_unavailable() {
    let probe = ProbeOutcome::ToolError {
        detail: "No such file or directory".to_string(),
    };
    let r = check_python_backend_status(&probe);
    assert_eq!(
        r,
        Err("Error checking backend status: No such file or directory".to_string())
    );
    assert!(!probe_indicates_running(&probe));
}

#[test]
fn status_running_when_match_found() {
    let r = check_python_backend_status(&matching_probe());
    let msg = r.expect("a match must be reported as success");
    assert!(msg.contains("running"));
    assert_eq!(msg, "Python backend is running");
    assert!(probe_indicates_running(&matching_probe()));
}

#[test]
fn status_running_among_unrelated_output() {
    // Whatever else the enumeration printed, one matching line is enough.
    let probe = ProbeOutcome::Output {
        stdout: b"999\n1000\n1001\n".to_vec(),
    };
    let r = check_python_backend_status(&probe);
    assert_eq!(r, Ok("Python backend is running".to_string()));
}

#[test]
fn launch_opens_with_probe() {
    assert!(matches!(initial_launch_action(), LaunchAction::Probe));
}

#[test]
fn launch_already_running_never_spawns() {
    let (phase, action) = launch_step(
        LocatorMode::Portable,
        LaunchPhase::Start,
        LaunchEvent::Probed {
            outcome: matching_probe(),
        },
    );
    assert!(!matches!(action, LaunchAction::Spawn { .. }));
    match action {
        LaunchAction::Report { outcome } => {
            assert_eq!(outcome, Ok("Python backend is already running".to_string()));
        }
        _ => panic!("a confirmed-running probe must end the launch at once"),
    }
    match phase {
        LaunchPhase::Finished { outcome } => {
            assert_eq!(outcome, Ok("Python backend is already running".to_string()));
        }
        _ => panic!("the launch must be finished"),
    }
}

#[test]
fn launch_portable_spawns_once_and_reports_pid() {
    let mode = LocatorMode::Portable;
    let mut spawns = 0;
    let (phase, action) = launch_step(
        mode,
        LaunchPhase::Start,
        LaunchEvent::Probed {
            outcome: empty_probe(),
        },
    );
    assert!(matches!(action, LaunchAction::LocateBase));
    let (phase, action) = launch_step(
        mode,
        phase,
        LaunchEvent::BaseLocated {
            dir: "/opt/app/bin".to_string(),
        },
    );
    match &action {
        LaunchAction::Spawn {
            interpreter,
            entry,
            workdir,
        } => {
            spawns += 1;
            assert_eq!(interpreter, "python3");
            assert_eq!(entry, "/opt/app/bin/../py-backend/main.py");
            assert!(workdir.is_none());
        }
        _ => panic!("portable mode spawns without an existence check"),
    }
    let (_, action) = launch_step(
        mode,
        phase,
        LaunchEvent::Spawned { result: Ok(4242) },
    );
    match action {
        LaunchAction::Report { outcome } => {
            assert_eq!(
                outcome,
                Ok("Python backend started successfully (PID: 4242)".to_string())
            );
        }
        _ => panic!("a spawn result must end the launch"),
    }
    assert_eq!(spawns, 1);
}

#[test]
fn launch_installed_checks_entry_then_spawns() {
    let mode = LocatorMode::InstalledBundle;
    let (phase, action) = launch_step(
        mode,
        LaunchPhase::Start,
        LaunchEvent::Probed {
            outcome: empty_probe(),
        },
    );
    assert!(matches!(action, LaunchAction::LocateBase));
    let (phase, action) = launch_step(
        mode,
        phase,
        LaunchEvent::BaseLocated {
            dir: "/opt/app/manifest".to_string(),
        },
    );
    match &action {
        LaunchAction::CheckEntry { entry } => {
            assert_eq!(entry, "/opt/app/py-backend/main.py");
        }
        _ => panic!("installed-bundle mode verifies the entry before spawning"),
    }
    let (phase, action) = launch_step(mode, phase, LaunchEvent::EntryChecked { exists: true });
    match &action {
        LaunchAction::Spawn {
            interpreter,
            entry,
            workdir,
        } => {
            assert_eq!(interpreter, "python3");
            assert_eq!(entry, "/opt/app/py-backend/main.py");
            assert_eq!(workdir.as_deref(), Some("/opt/app"));
        }
        _ => panic!("an existing entry must be spawned"),
    }
    let (_, action) = launch_step(mode, phase, LaunchEvent::Spawned { result: Ok(7) });
    match action {
        LaunchAction::Report { outcome } => {
            assert_eq!(
                outcome,
                Ok("Python backend started successfully (PID: 7)".to_string())
            );
        }
        _ => panic!("a spawn result must end the launch"),
    }
}

#[test]
fn launch_missing_entry_fails_without_spawn() {
    let mode = LocatorMode::InstalledBundle;
    let (phase, _) = launch_step(
        mode,
        LaunchPhase::Start,
        LaunchEvent::Probed {
            outcome: empty_probe(),
        },
    );
    let (phase, _) = launch_step(
        mode,
        phase,
        LaunchEvent::BaseLocated {
            dir: "/opt/app/manifest".to_string(),
        },
    );
    let (phase, action) = launch_step(mode, phase, LaunchEvent::EntryChecked { exists: false });
    assert!(!matches!(action, LaunchAction::Spawn { .. }));
    match action {
        LaunchAction::Report { outcome } => {
            assert_eq!(
                outcome,
                Err("Python backend entry point not found: /opt/app/py-backend/main.py"
                    .to_string())
            );
        }
        _ => panic!("a missing entry must end the launch with a failure"),
    }
    assert!(matches!(phase, LaunchPhase::Finished { .. }));
}

#[test]
fn launch_spawn_failure_is_reported_not_fatal() {
    let mode = LocatorMode::Portable;
    let (phase, _) = launch_step(
        mode,
        LaunchPhase::Start,
        LaunchEvent::Probed {
            outcome: empty_probe(),
        },
    );
    let (phase, _) = launch_step(
        mode,
        phase,
        LaunchEvent::BaseLocated {
            dir: "/tmp/nowhere".to_string(),
        },
    );
    let (_, action) = launch_step(
        mode,
        phase,
        LaunchEvent::Spawned {
            result: Err("No such file or directory (os error 2)".to_string()),
        },
    );
    match action {
        LaunchAction::Report { outcome } => {
            assert_eq!(
                outcome,
                Err("Failed to start Python backend: No such file or directory (os error 2)"
                    .to_string())
            );
        }
        _ => panic!("a failed spawn must end the launch with a failure"),
    }
}

#[test]
fn two_concurrent_launches_may_spawn_twice() {
    // The probe-then-spawn sequence is not atomic: two launches that both
    // observe "not running" legitimately spawn one process each — bounded
    // by the number of launches, one spawn per launch.
    let mode = LocatorMode::Portable;
    let mut spawns = 0;
    for _ in 0..2 {
        let (phase, _) = launch_step(
            mode,
            LaunchPhase::Start,
            LaunchEvent::Probed {
                outcome: empty_probe(),
            },
        );
        let (phase, action) = launch_step(
            mode,
            phase,
            LaunchEvent::BaseLocated {
                dir: "/opt/app/bin".to_string(),
            },
        );
        if matches!(action, LaunchAction::Spawn { .. }) {
            spawns += 1;
        }
        let (_, action) = launch_step(mode, phase, LaunchEvent::Spawned { result: Ok(1) });
        assert!(!matches!(action, LaunchAction::Spawn { .. }));
    }
    assert_eq!(spawns, 2);
}

#[test]
fn finished_launch_accepts_no_further_event() {
    let mode = LocatorMode::Portable;
    let (phase, _) = launch_step(
        mode,
        LaunchPhase::Start,
        LaunchEvent::Probed {
            outcome: matching_probe(),
        },
    );
    let (_, action) = launch_step(
        mode,
        phase,
        LaunchEvent::Spawned { result: Ok(99) },
    );
    assert!(!matches!(action, LaunchAction::Spawn { .. }));
    match action {
        LaunchAction::Report { outcome } => {
            assert_eq!(
                outcome,
                Err("Launcher received an event that does not fit its phase".to_string())
            );
        }
        _ => panic!("an ill-fitting event must be rejected"),
    }
}

#[test]
fn app_version_is_constant() {
    let first = get_app_version();
    let second = get_app_version();
    assert_eq!(first, Ok("1.0.0".to_string()));
    assert_eq!(first, second);
}

#[test]
fn file_metadata_reports_exact_size() {
    let r = get_file_metadata("some/existing/file", Ok(2321));
    assert_eq!(r, Ok(FileMetadata { size: 2321 }));
}

#[test]
fn file_metadata_zero_byte_file() {
    let r = get_file_metadata("empty/file", Ok(0));
    assert_eq!(r, Ok(FileMetadata { size: 0 }));
}

#[test]
fn file_metadata_missing_path_fails() {
    let r = get_file_metadata("no/such/file", Err("os error 2".to_string()));
    assert_eq!(
        r,
        Err("Failed to read metadata for no/such/file: os error 2".to_string())
    );
}

#[test]
fn decimal_rendering_exact() {
    assert_eq!(u32_dec_string(0), "0");
    assert_eq!(u32_dec_string(7), "7");
    assert_eq!(u32_dec_string(10), "10");
    assert_eq!(u32_dec_string(40309), "40309");
    assert_eq!(u32_dec_string(u32::MAX), "4294967295");
}

#[test]
fn parent_directory_of_paths() {
    assert_eq!(parent_of("/opt/app/manifest"), "/opt/app");
    assert_eq!(parent_of("a/b/c"), "a/b");
    assert_eq!(parent_of("trailing/"), "trailing");
    assert_eq!(parent_of("noslash"), "");
    assert_eq!(parent_of(""), "");
}
