use sidecar_launcher::events::{
    forward_lines, forward_output_line, monitor_exit_record, report_launch_outcome, trim_line_end,
    LaunchError, LaunchOutcome, LogLevel, LogMessage, LogRecord, ProcessStatus, StreamSource,
    WaitResult,
};
use sidecar_launcher::launch::{build_spawn_plan, plan_launch, LaunchAction, StdioMode};
use sidecar_launcher::paths::{join_path, parent_directory};
use sidecar_launcher::platform::{get_executable_names, Platform};
use sidecar_launcher::resolve::{find_service_executable, FileProbe, ResolveOutcome};

#[test]
fn candidate_names_windows_suffixed_first() {
    let names = get_executable_names(Platform::Windows);
    assert_eq!(names, vec!["service.exe".to_string(), "service".to_string()]);
}

#[test]
fn candidate_names_posix_bare_only() {
    let names = get_executable_names(Platform::Posix);
    assert_eq!(names, vec!["service".to_string()]);
}

#[test]
fn resolution_empty_directory_not_found() {
    let names = get_executable_names(Platform::Posix);
    let probes = vec![FileProbe::Absent];
    let r = find_service_executable(Platform::Posix, "/base", &names, &probes);
    assert!(matches!(r.outcome, ResolveOutcome::NotFound));
    assert!(r.skipped.is_empty());
}

#[test]
fn resolution_windows_both_absent_not_found() {
    let names = get_executable_names(Platform::Windows);
    let probes = vec![FileProbe::Absent, FileProbe::Absent];
    let r = find_service_executable(Platform::Windows, "C:\\app", &names, &probes);
    assert!(matches!(r.outcome, ResolveOutcome::NotFound));
    assert!(r.skipped.is_empty());
}

#[test]
fn resolution_skips_non_executable_then_not_found() {
    let names = get_executable_names(Platform::Posix);
    let probes = vec![FileProbe::Present { mode: 0o644 }];
    let r = find_service_executable(Platform::Posix, "/base", &names, &probes);
    assert!(matches!(r.outcome, ResolveOutcome::NotFound));
    assert_eq!(r.skipped, vec![0]);
}

#[test]
fn resolution_skips_non_executable_then_takes_next() {
    let names = vec!["service".to_string(), "service-alt".to_string()];
    let probes = vec![
        FileProbe::Present { mode: 0o644 },
        FileProbe::Present { mode: 0o755 },
    ];
    let r = find_service_executable(Platform::Posix, "/base", &names, &probes);
    match r.outcome {
        ResolveOutcome::Found { index, path } => {
            assert_eq!(index, 1);
            assert_eq!(path, "/base/service-alt".to_string());
        }
        ResolveOutcome::NotFound => panic!("expected a resolution"),
    }
    assert_eq!(r.skipped, vec![0]);
}

#[test]
fn resolution_takes_first_executable() {
    let names = get_executable_names(Platform::Windows);
    let probes = vec![
        FileProbe::PresentUnknownPermissions,
        FileProbe::PresentUnknownPermissions,
    ];
    let r = find_service_executable(Platform::Windows, "C:\\app", &names, &probes);
    match r.outcome {
        ResolveOutcome::Found { index, path } => {
            assert_eq!(index, 0);
            assert_eq!(path, "C:\\app\\service.exe".to_string());
        }
        ResolveOutcome::NotFound => panic!("expected a resolution"),
    }
    assert!(r.skipped.is_empty());
}

#[test]
fn resolution_unreadable_metadata_is_given_benefit_of_doubt() {
    let names = get_executable_names(Platform::Posix);
    let probes = vec![FileProbe::PresentUnknownPermissions];
    let r = find_service_executable(Platform::Posix, "/base", &names, &probes);
    assert!(matches!(r.outcome, ResolveOutcome::Found { index: 0, .. }));
}

#[test]
fn join_path_inserts_separator() {
    assert_eq!(join_path(Platform::Posix, "/base", "service"), "/base/service".to_string());
    assert_eq!(
        join_path(Platform::Windows, "C:\\app", "service.exe"),
        "C:\\app\\service.exe".to_string()
    );
}

#[test]
fn join_path_keeps_existing_separator() {
    assert_eq!(join_path(Platform::Posix, "/base/", "service"), "/base/service".to_string());
}

#[test]
fn join_path_empty_base_is_bare_name() {
    assert_eq!(join_path(Platform::Posix, "", "service"), "service".to_string());
}

#[test]
fn parent_directory_of_joined_path_is_base() {
    assert_eq!(
        parent_directory(Platform::Posix, "/base/service"),
        Some("/base".to_string())
    );
    assert_eq!(
        parent_directory(Platform::Windows, "C:\\app\\service.exe"),
        Some("C:\\app".to_string())
    );
}

#[test]
fn parent_directory_without_separator_is_none() {
    assert_eq!(parent_directory(Platform::Posix, "service"), None);
    assert_eq!(parent_directory(Platform::Posix, ""), None);
}

#[test]
fn spawn_plan_sets_working_directory_and_pipes() {
    let plan = build_spawn_plan(Platform::Posix, "/base/service");
    assert_eq!(plan.program, "/base/service".to_string());
    assert_eq!(plan.working_dir, Some("/base".to_string()));
    assert!(matches!(plan.stdin, StdioMode::Null));
    assert!(matches!(plan.stdout, StdioMode::Piped));
    assert!(matches!(plan.stderr, StdioMode::Piped));
}

#[test]
fn spawn_plan_without_parent_inherits_working_directory() {
    let plan = build_spawn_plan(Platform::Posix, "service");
    assert_eq!(plan.working_dir, None);
}

#[test]
fn hello_line_forwarded_once_trimmed_as_stdout() {
    let lines = vec!["hello\n".to_string()];
    let records = forward_lines(StreamSource::Stdout, &lines);
    assert_eq!(
        records,
        vec![LogRecord {
            level: LogLevel::Debug,
            message: LogMessage::OutputLine {
                source: StreamSource::Stdout,
                text: "hello".to_string(),
            },
        }]
    );
}

#[test]
fn stderr_line_tagged_as_stderr() {
    let rec = forward_output_line(StreamSource::Stderr, "oops").unwrap();
    assert_eq!(rec.level, LogLevel::Debug);
    assert_eq!(
        rec.message,
        LogMessage::OutputLine { source: StreamSource::Stderr, text: "oops".to_string() }
    );
}

#[test]
fn blank_line_is_dropped() {
    assert_eq!(forward_output_line(StreamSource::Stdout, ""), None);
    assert_eq!(forward_output_line(StreamSource::Stdout, " \t\r\n"), None);
}

#[test]
fn trim_strips_trailing_whitespace_only() {
    assert_eq!(trim_line_end("hi \t\r\n"), "hi".to_string());
    assert_eq!(trim_line_end("  hi"), "  hi".to_string());
    assert_eq!(trim_line_end(""), "".to_string());
}

#[test]
fn stream_order_is_preserved_within_a_stream() {
    let lines = vec![
        "a\n".to_string(),
        "\n".to_string(),
        "b \n".to_string(),
        "c".to_string(),
    ];
    let records = forward_lines(StreamSource::Stdout, &lines);
    let texts: Vec<String> = records
        .into_iter()
        .map(|rec| match rec.message {
            LogMessage::OutputLine { text, .. } => text,
            _ => panic!("expected an output line"),
        })
        .collect();
    assert_eq!(texts, vec!["a".to_string(), "b".to_string(), "c".to_string()]);
}

#[test]
fn zero_exit_is_one_debug_record() {
    let rec = monitor_exit_record(&WaitResult::Exited(ProcessStatus { code: Some(0) }));
    assert_eq!(
        rec,
        LogRecord {
            level: LogLevel::Debug,
            message: LogMessage::ExitStatus { status: ProcessStatus { code: Some(0) } },
        }
    );
}

#[test]
fn nonzero_exit_is_one_warning_with_the_status() {
    let rec = monitor_exit_record(&WaitResult::Exited(ProcessStatus { code: Some(3) }));
    assert_eq!(
        rec,
        LogRecord {
            level: LogLevel::Warn,
            message: LogMessage::ExitStatus { status: ProcessStatus { code: Some(3) } },
        }
    );
}

#[test]
fn signal_termination_is_a_warning() {
    let rec = monitor_exit_record(&WaitResult::Exited(ProcessStatus { code: None }));
    assert_eq!(rec.level, LogLevel::Warn);
    assert_eq!(rec.message, LogMessage::ExitStatus { status: ProcessStatus { code: None } });
}

#[test]
fn wait_failure_is_an_error_record() {
    let rec = monitor_exit_record(&WaitResult::WaitFailed);
    assert_eq!(rec, LogRecord { level: LogLevel::Error, message: LogMessage::WaitError });
}

#[test]
fn launch_failures_become_warning_records() {
    let not_found = report_launch_outcome(LaunchOutcome::Failed(LaunchError::NotFound {
        directory: "/base".to_string(),
    }));
    assert_eq!(not_found.level, LogLevel::Warn);
    let spawn_failed = report_launch_outcome(LaunchOutcome::Failed(LaunchError::SpawnFailed {
        message: "permission denied".to_string(),
    }));
    assert_eq!(spawn_failed.level, LogLevel::Warn);
    assert_eq!(
        spawn_failed.message,
        LogMessage::LaunchFailed {
            error: LaunchError::SpawnFailed { message: "permission denied".to_string() },
        }
    );
    let no_dir = report_launch_outcome(LaunchOutcome::Failed(
        LaunchError::ResourceDirectoryUnavailable,
    ));
    assert_eq!(no_dir.level, LogLevel::Warn);
}

#[test]
fn launch_success_is_a_debug_record() {
    let rec = report_launch_outcome(LaunchOutcome::Running);
    assert_eq!(rec, LogRecord { level: LogLevel::Debug, message: LogMessage::LaunchSucceeded });
}

#[test]
fn plan_launch_without_resource_directory_aborts() {
    let names = get_executable_names(Platform::Posix);
    let probes = vec![FileProbe::Absent];
    let plan = plan_launch(Platform::Posix, None, &names, &probes);
    assert_eq!(
        plan.action,
        LaunchAction::Abort(LaunchError::ResourceDirectoryUnavailable)
    );
    assert!(plan.warnings.is_empty());
}

#[test]
fn plan_launch_spawns_first_executable_candidate() {
    let names = get_executable_names(Platform::Posix);
    let probes = vec![FileProbe::Present { mode: 0o700 }];
    let plan = plan_launch(Platform::Posix, Some("/base"), &names, &probes);
    match plan.action {
        LaunchAction::Spawn { index, plan: spawn } => {
            assert_eq!(index, 0);
            assert_eq!(spawn.program, "/base/service".to_string());
            assert_eq!(spawn.working_dir, Some("/base".to_string()));
            assert!(matches!(spawn.stdin, StdioMode::Null));
            assert!(matches!(spawn.stdout, StdioMode::Piped));
            assert!(matches!(spawn.stderr, StdioMode::Piped));
        }
        LaunchAction::Abort(_) => panic!("expected a spawn"),
    }
    assert!(plan.warnings.is_empty());
}

#[test]
fn plan_launch_warns_for_skipped_candidate() {
    let names = vec!["service".to_string(), "service-alt".to_string()];
    let probes = vec![
        FileProbe::Present { mode: 0o600 },
        FileProbe::PresentUnknownPermissions,
    ];
    let plan = plan_launch(Platform::Posix, Some("/base"), &names, &probes);
    assert!(matches!(plan.action, LaunchAction::Spawn { index: 1, .. }));
    assert_eq!(
        plan.warnings,
        vec![LogRecord {
            level: LogLevel::Warn,
            message: LogMessage::CandidateNotExecutable { index: 0 },
        }]
    );
}

#[test]
fn plan_launch_not_found_carries_searched_directory() {
    let names = get_executable_names(Platform::Posix);
    let probes = vec![FileProbe::Present { mode: 0o644 }];
    let plan = plan_launch(Platform::Posix, Some("/base"), &names, &probes);
    assert_eq!(
        plan.action,
        LaunchAction::Abort(LaunchError::NotFound { directory: "/base".to_string() })
    );
    assert_eq!(
        plan.warnings,
        vec![LogRecord {
            level: LogLevel::Warn,
            message: LogMessage::CandidateNotExecutable { index: 0 },
        }]
    );
}
