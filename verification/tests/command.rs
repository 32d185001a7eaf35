use goose_tools::command::{
    build_shell_command, login_path, login_shell, run_command, start_run, tagged_line, HostShell,
    RunAction, RunEvent, RunState,
};

fn spawned() -> RunEvent {
    RunEvent::Spawned {
        stdout: true,
        stderr: true,
    }
}

fn failed(action: RunAction) -> String {
    match action {
        RunAction::Finish(Err(error)) => error,
        other => panic!("expected an error, got {:?}", other),
    }
}

#[test]
fn shells_are_chosen_by_the_host() {
    let bash = HostShell::Unix {
        has_bash: true,
        shell_var: Some("/bin/zsh".to_string()),
    };
    let command = build_shell_command("ls -l", &bash);
    assert_eq!(command.program, "/bin/bash");
    assert_eq!(command.flag, "-c");
    assert_eq!(command.command_line, "ls -l");
    assert!(!command.raw);
    let zsh = HostShell::Unix {
        has_bash: false,
        shell_var: Some("/bin/zsh".to_string()),
    };
    assert_eq!(build_shell_command("ls", &zsh).program, "/bin/zsh");
    let plain = HostShell::Unix {
        has_bash: false,
        shell_var: None,
    };
    assert_eq!(build_shell_command("ls", &plain).program, "sh");
    let windows = build_shell_command("dir", &HostShell::Windows);
    assert_eq!(windows.program, "cmd");
    assert_eq!(windows.flag, "/C");
    assert!(windows.raw);
    let login = login_shell(true, &None);
    assert_eq!(login.program, "/bin/bash");
    assert_eq!(login.args, vec!["-l", "-i", "-c", "echo $PATH"]);
}

#[test]
fn the_login_path_is_the_last_line_printed() {
    let printed = b"welcome\n\n  /usr/bin:/bin \r\n \n";
    assert_eq!(
        login_path(Some(printed), true),
        Some("/usr/bin:/bin".to_string())
    );
    assert_eq!(login_path(Some(printed), false), None);
    assert_eq!(login_path(None, true), None);
    assert_eq!(login_path(Some(b" \n\t\n"), true), None);
    assert_eq!(
        login_path(Some(b"\xff/bin"), true),
        Some("\u{fffd}/bin".to_string())
    );
}

#[test]
fn lines_are_decoded_and_tagged() {
    assert_eq!(tagged_line(true, "é".as_bytes()), (true, "é".to_string()));
    assert_eq!(
        tagged_line(false, b"a\xffb"),
        (false, "a\u{fffd}b".to_string())
    );
}

#[test]
fn a_run_collects_its_output() {
    let (state, action) = run_command(start_run(None), spawned());
    assert_eq!(action, RunAction::Wait { limit_secs: None });
    let (state, action) = run_command(state, RunEvent::Exited(Some(3)));
    assert_eq!(action, RunAction::Drain { limit_millis: 500 });
    let (state, action) = run_command(state, RunEvent::Drained);
    assert_eq!(
        action,
        RunAction::ReadLines {
            abort_collector: false
        }
    );
    let lines = vec![(true, "e".to_string())];
    let (state, action) = run_command(state, RunEvent::Lines(lines.clone()));
    assert_eq!(state, RunState::Done);
    match action {
        RunAction::Finish(Ok(output)) => {
            assert_eq!(output.lines, lines);
            assert_eq!(output.exit_code, Some(3));
            assert!(!output.timed_out);
            assert!(!output.output_truncated);
            assert_eq!(output.output_collection_error, None);
        }
        other => panic!("expected output, got {:?}", other),
    }
}

#[test]
fn a_run_that_takes_too_long_is_killed() {
    let (state, action) = run_command(start_run(Some(2)), spawned());
    assert_eq!(
        action,
        RunAction::Wait {
            limit_secs: Some(2)
        }
    );
    let (state, action) = run_command(state, RunEvent::WaitTimedOut);
    assert_eq!(action, RunAction::Kill);
    let (state, _) = run_command(state, RunEvent::Killed);
    let (state, _) = run_command(state, RunEvent::Drained);
    match run_command(state, RunEvent::Lines(vec![])).1 {
        RunAction::Finish(Ok(output)) => {
            assert!(output.timed_out);
            assert_eq!(output.exit_code, None);
        }
        other => panic!("expected output, got {:?}", other),
    }
}

#[test]
fn a_timeout_of_zero_is_none() {
    let (_, action) = run_command(start_run(Some(0)), spawned());
    assert_eq!(action, RunAction::Wait { limit_secs: None });
}

#[test]
fn a_backgrounded_process_cuts_the_output_short() {
    let (state, _) = run_command(start_run(None), spawned());
    let (state, _) = run_command(state, RunEvent::Exited(Some(0)));
    let (state, action) = run_command(state, RunEvent::DrainTimedOut);
    assert_eq!(
        action,
        RunAction::ReadLines {
            abort_collector: true
        }
    );
    match run_command(state, RunEvent::Lines(vec![])).1 {
        RunAction::Finish(Ok(output)) => {
            assert!(output.output_truncated);
            assert!(output.output_collection_error.is_none());
        }
        other => panic!("expected output, got {:?}", other),
    }
}

#[test]
fn collection_errors_are_reported() {
    for event in [
        RunEvent::ReadFailed("pipe".to_string()),
        RunEvent::CollectorFailed("pipe".to_string()),
    ] {
        let (state, _) = run_command(start_run(None), spawned());
        let (state, _) = run_command(state, RunEvent::Exited(Some(0)));
        let (state, _) = run_command(state, event);
        match run_command(state, RunEvent::Lines(vec![])).1 {
            RunAction::Finish(Ok(output)) => {
                assert!(!output.output_truncated);
                assert_eq!(
                    output.output_collection_error,
                    Some("Failed to collect shell output: pipe".to_string())
                );
            }
            other => panic!("expected output, got {:?}", other),
        }
    }
}

#[test]
fn runs_that_fail_say_why() {
    let event = RunEvent::SpawnFailed("no such file".to_string());
    assert_eq!(
        failed(run_command(start_run(None), event).1),
        "Failed to spawn shell command: no such file"
    );
    let event = RunEvent::Spawned {
        stdout: false,
        stderr: false,
    };
    assert_eq!(
        failed(run_command(start_run(None), event).1),
        "Failed to capture stdout"
    );
    let event = RunEvent::Spawned {
        stdout: true,
        stderr: false,
    };
    assert_eq!(
        failed(run_command(start_run(None), event).1),
        "Failed to capture stderr"
    );
    let (state, _) = run_command(start_run(None), spawned());
    let event = RunEvent::WaitFailed("gone".to_string());
    assert_eq!(
        failed(run_command(state, event).1),
        "Failed waiting on shell command: gone"
    );
}
