use phantom_host::ansi::strip_ansi_codes;
use phantom_host::environment::Environment;
use phantom_host::supervisor::{
    ingest_line, launch_plan, readiness_decision, ArtifactStore, HostError, LogLevel, LogStream,
    ReadinessPolicy, ReadySignal, WaitStep, WorkDir,
};

fn store_with_executable() -> ArtifactStore {
    ArtifactStore { executable: Some(b"\x7fELF fake".to_vec()), script: None }
}

fn store_with_script() -> ArtifactStore {
    ArtifactStore { executable: None, script: Some(b"console.log(1)".to_vec()) }
}

#[test]
fn strip_removes_color_codes() {
    assert_eq!(strip_ansi_codes("\x1b[32mhello\x1b[0m world").as_str(), "hello world");
    assert_eq!(strip_ansi_codes("plain").as_str(), "plain");
    assert_eq!(strip_ansi_codes("").as_str(), "");
    assert_eq!(strip_ansi_codes("\x1b[1;31mred\x1b[0m").as_str(), "red");
}

#[test]
fn strip_edge_cases() {
    // A lone trailing ESC is dropped.
    assert_eq!(strip_ansi_codes("\x1b").as_str(), "");
    // ESC swallows the one character after it when no CSI follows.
    assert_eq!(strip_ansi_codes("\x1bX").as_str(), "");
    // An unterminated CSI sequence runs to the end of the line.
    assert_eq!(strip_ansi_codes("a\x1b[12;34").as_str(), "a");
    // The first ASCII letter ends the sequence.
    assert_eq!(strip_ansi_codes("\x1b[mX").as_str(), "X");
}

#[test]
fn strip_is_idempotent_on_samples() {
    for s in ["\x1b[32mhello\x1b[0m world", "plain", "\x1b[2J\x1b[Hcleared", "tail\x1b"] {
        let once = strip_ansi_codes(s);
        let twice = strip_ansi_codes(once.as_str());
        assert_eq!(once, twice);
    }
}

#[test]
fn strip_is_identity_without_escapes() {
    for s in ["hello world", "", "tab\tand space", "[32m not an escape"] {
        assert_eq!(strip_ansi_codes(s).as_str(), s);
    }
}

#[test]
fn colored_line_is_ingested_clean() {
    let line = ingest_line(LogStream::Stdout, "\x1b[32mhello\x1b[0m world", "Listening on")
        .expect("not whitespace");
    assert_eq!(line.text.as_str(), "hello world");
    assert_eq!(line.level, LogLevel::Info);
    assert!(!line.ready_hit);
}

#[test]
fn whitespace_only_line_is_dropped() {
    assert!(ingest_line(LogStream::Stdout, "   \t ", "Local:").is_none());
    assert!(ingest_line(LogStream::Stderr, "\x1b[32m  \x1b[0m", "Local:").is_none());
    // Unicode whitespace counts too: vertical tab, no-break space, em space.
    assert!(ingest_line(LogStream::Stdout, "\u{b}\u{a0}\u{2003}", "Local:").is_none());
    assert!(ingest_line(LogStream::Stdout, "\u{a0}x", "Local:").is_some());
}

#[test]
fn stderr_lines_warn_and_never_signal_readiness() {
    let line = ingest_line(LogStream::Stderr, "Listening on 5173", "Listening on").unwrap();
    assert_eq!(line.level, LogLevel::Warn);
    assert!(!line.ready_hit);
}

#[test]
fn dev_local_line_signals_readiness() {
    let line = ingest_line(LogStream::Stdout, "Local:   http://localhost:5173", "Local:")
        .expect("not whitespace");
    assert!(line.ready_hit);
    assert_eq!(line.level, LogLevel::Info);
}

#[test]
fn readiness_decision_steps() {
    assert_eq!(readiness_decision(true, false, 0), WaitStep::Ready);
    assert_eq!(readiness_decision(false, true, 29999), WaitStep::Ready);
    assert_eq!(readiness_decision(true, true, 40000), WaitStep::Ready);
    assert_eq!(readiness_decision(false, false, 0), WaitStep::Poll);
    assert_eq!(readiness_decision(false, false, 29999), WaitStep::Poll);
    assert_eq!(readiness_decision(false, false, 30000), WaitStep::TimedOut);
    assert_eq!(readiness_decision(false, false, 30100), WaitStep::TimedOut);
}

#[test]
fn ready_signal_is_one_shot() {
    let mut s = ReadySignal::new();
    assert!(!s.is_ready());
    s.mark_ready();
    assert!(s.is_ready());
    s.mark_ready();
    assert!(s.is_ready());
}

#[test]
fn native_plan_extracts_with_unix_mode() {
    let store = store_with_executable();
    let plan = launch_plan(&Environment::Production, true, &store, 4100, false, true)
        .expect("plan");
    assert_eq!(plan.program.as_str(), "client");
    assert!(plan.args.is_empty());
    let extract = plan.extract.expect("extracts the executable");
    assert_eq!(extract.file_name.as_str(), "client");
    assert_eq!(extract.bytes, b"\x7fELF fake".to_vec());
    assert_eq!(extract.unix_mode, Some(0o755));
    assert_eq!(plan.working_dir, WorkDir::ProjectTempDir);
    assert!(!plan.kill_on_drop);
    assert_eq!(plan.log_target.as_str(), "frontend");
    let envs: Vec<(&str, &str)> =
        plan.env_vars.iter().map(|(k, v)| (k.as_str(), v.as_str())).collect();
    assert_eq!(envs, vec![("PORT", "4100"), ("HOST", "127.0.0.1"), ("NODE_ENV", "production")]);
    match plan.readiness {
        ReadinessPolicy::LogOrTcp { marker, port, timeout_ms, poll_ms } => {
            assert_eq!(marker.as_str(), "Listening on");
            assert_eq!(port, 4100);
            assert_eq!(timeout_ms, 30000);
            assert_eq!(poll_ms, 100);
        },
        _ => panic!("production plan must wait on log or tcp"),
    }
}

#[test]
fn native_plan_on_windows_has_exe_suffix_and_no_mode() {
    let store = store_with_executable();
    let plan = launch_plan(&Environment::Production, true, &store, 4100, true, true)
        .expect("plan");
    assert_eq!(plan.program.as_str(), "client.exe");
    let extract = plan.extract.expect("extracts the executable");
    assert_eq!(extract.file_name.as_str(), "client.exe");
    assert_eq!(extract.unix_mode, None);
}

#[test]
fn hosted_plan_runs_bundle_under_runtime() {
    let store = store_with_script();
    let plan = launch_plan(&Environment::Production, false, &store, 4200, false, true)
        .expect("plan");
    assert_eq!(plan.program.as_str(), "bun");
    let args: Vec<&str> = plan.args.iter().map(|a| a.as_str()).collect();
    assert_eq!(args, vec!["bundle.js"]);
    let extract = plan.extract.expect("extracts the bundle");
    assert_eq!(extract.file_name.as_str(), "bundle.js");
    assert_eq!(extract.bytes, b"console.log(1)".to_vec());
    assert_eq!(extract.unix_mode, None);
    assert!(!plan.kill_on_drop);
}

#[test]
fn dev_plan_owns_child_and_waits_for_local_line() {
    let store = store_with_script();
    let plan = launch_plan(&Environment::Development, false, &store, 5173, false, true)
        .expect("plan");
    assert_eq!(plan.program.as_str(), "bun");
    let args: Vec<&str> = plan.args.iter().map(|a| a.as_str()).collect();
    assert_eq!(args, vec!["run", "dev"]);
    assert!(plan.extract.is_none());
    assert_eq!(plan.working_dir, WorkDir::ClientSourceDir);
    assert!(plan.env_vars.is_empty());
    assert!(plan.kill_on_drop);
    assert_eq!(plan.log_target.as_str(), "dev-frontend");
    match plan.readiness {
        ReadinessPolicy::LogMarker { marker } => assert_eq!(marker.as_str(), "Local:"),
        _ => panic!("dev plan waits on the log line alone"),
    }
}

#[test]
fn dev_plan_requires_client_directory() {
    let store = store_with_script();
    match launch_plan(&Environment::Development, false, &store, 5173, false, false) {
        Err(err) => assert_eq!(err, HostError::ClientDirectoryMissing),
        Ok(_) => panic!("a missing client directory must fail the dev plan"),
    }
}

#[test]
fn artifact_accessors() {
    let store = store_with_executable();
    assert!(store.executable_image().is_some());
    assert!(store.script_bundle().is_none());
    let store = store_with_script();
    assert!(store.executable_image().is_none());
    assert_eq!(store.script_bundle().unwrap(), &b"console.log(1)".to_vec());
}

#[test]
fn error_descriptions() {
    assert_eq!(HostError::ClientDirectoryMissing.describe(), "client directory not found");
    assert_eq!(HostError::ChildSpawnFailed.describe(), "failed to spawn frontend child");
    assert_eq!(
        HostError::ArtifactExtractionFailed.describe(),
        "failed to extract frontend artifact"
    );
    assert_eq!(HostError::FrontendNotReady.describe(), "frontend failed to become ready in time");
    assert_eq!(HostError::ListenerBindFailed.describe(), "failed to bind server listener");
    assert_eq!(HostError::ServeTerminated.describe(), "server terminated with an error");
    assert_eq!(HostError::LogStreamError.describe(), "frontend log stream ended with an error");
    assert_eq!(HostError::ChildKillFailed.describe(), "failed to kill frontend child");
}
