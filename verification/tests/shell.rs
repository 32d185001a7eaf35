use goose_tools::shell::{
    needs_saving, output_label, render_output, run_result, split_lines, truncate_output,
    ExecutionOutput, OutputKind, ShellParams, ShellPlan, ShellTool, OUTPUT_LIMIT_BYTES,
    OUTPUT_LIMIT_LINES, OUTPUT_PREVIEW_LINES, OUTPUT_SLOTS,
};
use goose_tools::shell_call::{ShellAction, ShellEvent, ShellPhase};

fn saved(path: &str) -> Result<String, String> {
    Ok(path.to_string())
}

fn ran(lines: Vec<(bool, String)>, exit_code: Option<i32>) -> ExecutionOutput {
    ExecutionOutput {
        lines,
        exit_code,
        timed_out: false,
        output_truncated: false,
        output_collection_error: None,
    }
}

fn start(tool: &ShellTool, command: &str, timeout_secs: Option<u64>) -> ShellPhase {
    let params = ShellParams {
        command: command.to_string(),
        timeout_secs,
    };
    let (phase, action) = tool.shell::<String>(params);
    match action {
        ShellAction::Run(request) => {
            assert_eq!(request.command, command);
            assert_eq!(request.timeout_secs, timeout_secs);
            assert_eq!(request.working_dir, None);
        }
        other => panic!("expected a run, got {:?}", other),
    }
    phase
}

#[test]
fn render_output_returns_full_output_when_under_limit() {
    let input = (0..100)
        .map(|i| format!("line {}", i))
        .collect::<Vec<_>>()
        .join("\n");

    let rendered = render_output(&input, &saved("test")).unwrap();
    assert_eq!(rendered, input);
}

#[test]
fn render_output_shows_empty_message() {
    let rendered = render_output("", &saved("test")).unwrap();
    assert_eq!(rendered, "(no output)");
}

#[test]
fn render_output_truncates_when_lines_exceeded() {
    let input = (0..2500)
        .map(|i| format!("line {}", i))
        .collect::<Vec<_>>()
        .join("\n");

    let rendered = render_output(&input, &saved("test_lines")).unwrap();
    let (preview, metadata) = rendered.split_once("\n\n[").unwrap();

    assert_eq!(preview.lines().count(), OUTPUT_PREVIEW_LINES);
    assert!(preview.starts_with("line 2450"));
    assert!(preview.contains("line 2499"));
    assert!(metadata.contains("2000 line limit"));
    assert!(metadata.contains("2500 lines total"));
    assert!(metadata.contains("Full output saved to"));
    assert!(metadata.contains("head"));
    assert!(metadata.contains("sed -n"));
}

#[test]
fn render_output_truncates_when_bytes_exceeded() {
    let long_line = "x".repeat(1000);
    let input = (0..100)
        .map(|_| long_line.clone())
        .collect::<Vec<_>>()
        .join("\n");
    assert!(input.len() > OUTPUT_LIMIT_BYTES);
    assert!(input.lines().count() <= OUTPUT_LIMIT_LINES);

    let rendered = render_output(&input, &saved("test_bytes")).unwrap();
    let (_preview, metadata) = rendered.split_once("\n\n[").unwrap();

    assert!(metadata.contains("byte limit"));
    assert!(metadata.contains("bytes total"));
    assert!(metadata.contains("Full output saved to"));
}

#[test]
fn call_index_cycles_through_slots() {
    let mut tool = ShellTool::new_for_test();
    for _cycle in 0..3 {
        for expected in 0..OUTPUT_SLOTS {
            let slot = tool.next_slot();
            assert_eq!(slot, expected);
        }
    }
}

#[test]
fn concurrent_calls_get_distinct_slots() {
    let mut tool = ShellTool::new_for_test();
    let mut slots: Vec<usize> = (0..OUTPUT_SLOTS).map(|_| tool.next_slot()).collect();
    slots.sort();
    let expected: Vec<usize> = (0..OUTPUT_SLOTS).collect();
    assert_eq!(slots, expected);
}

#[test]
fn slots_go_on_past_the_end_of_the_count() {
    let mut tool = ShellTool::new_for_test();
    tool.call_index = usize::MAX - 3;
    let slots: Vec<usize> = (0..OUTPUT_SLOTS).map(|_| tool.next_slot()).collect();
    assert_eq!(slots, vec![4, 5, 6, 7, 0, 1, 2, 3]);
    assert_eq!(tool.call_index, 4);
}

#[test]
fn labels_are_separate_per_output_and_slot() {
    assert_eq!(output_label(OutputKind::Stdout, 0), "stdout-0");
    assert_eq!(output_label(OutputKind::Stderr, 3), "stderr-3");
    assert_eq!(output_label(OutputKind::Combined, 7), "output-7");
    let mut labels = Vec::new();
    for kind in [OutputKind::Stdout, OutputKind::Stderr, OutputKind::Combined] {
        for slot in 0..OUTPUT_SLOTS {
            let label = output_label(kind, slot);
            assert_eq!(label, output_label(kind, slot));
            assert!(!labels.contains(&label));
            labels.push(label);
        }
    }
}

#[test]
fn lines_are_split_by_stream_and_kept_in_order() {
    let lines = vec![
        (false, "".to_string()),
        (true, "warning".to_string()),
        (false, "b".to_string()),
        (false, "".to_string()),
    ];
    let (stdout, stderr, interleaved) = split_lines(&lines);
    assert_eq!(stdout, "\nb\n");
    assert_eq!(stderr, "warning");
    assert_eq!(interleaved, "\nwarning\nb\n");
    assert_eq!(
        split_lines(&[]),
        (String::new(), String::new(), String::new())
    );
}

#[test]
fn truncated_text_is_exact() {
    let input = vec!["é"; OUTPUT_LIMIT_LINES + 1].join("\n");
    let tail = vec!["é"; OUTPUT_PREVIEW_LINES].join("\n");
    assert!(needs_saving(&input));
    assert_eq!(
        truncate_output(&input, &saved("/tmp/out/stdout-1")).unwrap(),
        format!(
            "{}\n\n[Output exceeded 2000 line limit (2001 lines total). Full output saved to /tmp/out/stdout-1. \
             Read it with shell commands like `head`, `tail`, or `sed -n '100,200p'` \
             up to 2000 lines at a time.]",
            tail
        )
    );
    assert_eq!(
        truncate_output(&input, &Err("disk full".to_string())),
        Err("Failed to write output buffer: disk full".to_string())
    );
}

#[test]
fn limits_are_inclusive() {
    let lines = vec!["x"; OUTPUT_LIMIT_LINES].join("\n");
    assert!(!needs_saving(&lines));
    assert_eq!(truncate_output(&lines, &Err("unused".to_string())), Ok(lines));
    let bytes = "é".repeat(OUTPUT_LIMIT_BYTES / 2);
    assert_eq!(bytes.len(), OUTPUT_LIMIT_BYTES);
    assert!(!needs_saving(&bytes));
    let over = format!("{}x", bytes);
    assert!(needs_saving(&over));
    assert_eq!(
        truncate_output(&over, &saved("p")).unwrap(),
        format!(
            "{}\n\n[Output exceeded 50000 byte limit (50001 bytes total). Full output saved to p. \
             Read it with shell commands like `head`, `tail`, or `sed -n '100,200p'` \
             up to 2000 lines at a time.]",
            over
        )
    );
}

#[test]
fn empty_commands_are_refused() {
    for command in ["", "   ", "\n\t \u{a0}\u{3000}"] {
        let tool = ShellTool::new_for_test();
        let params = ShellParams {
            command: command.to_string(),
            timeout_secs: None,
        };
        let (phase, action) = tool.shell::<String>(params);
        assert_eq!(phase, ShellPhase::Done);
        match action {
            ShellAction::Answer(result) => {
                assert!(result.is_error);
                assert_eq!(result.text, "Command cannot be empty.");
                assert_eq!(result.structured.stdout, "");
                assert_eq!(result.structured.stderr, "Command cannot be empty.");
                assert_eq!(result.structured.exit_code, None);
            }
            other => panic!("expected an answer, got {:?}", other),
        }
    }
}

#[test]
fn a_call_runs_with_the_login_path_in_its_directory() {
    let tool = ShellTool::new(Some("/opt/bin:/bin".to_string()));
    let params = ShellParams {
        command: "pwd".to_string(),
        timeout_secs: Some(3),
    };
    let (phase, action) = tool.shell_with_cwd(params, Some("/work".to_string()));
    assert_eq!(
        phase,
        ShellPhase::Running {
            timeout_secs: Some(3)
        }
    );
    match action {
        ShellAction::Run(request) => {
            assert_eq!(request.command, "pwd");
            assert_eq!(request.working_dir, Some("/work".to_string()));
            assert_eq!(request.login_path, Some("/opt/bin:/bin".to_string()));
        }
        other => panic!("expected a run, got {:?}", other),
    }
}

#[test]
fn short_output_is_answered_at_once() {
    let mut tool = ShellTool::new_for_test();
    let phase = start(&tool, "echo hello", None);
    let event = ShellEvent::Ran(ran(vec![(false, "hello".to_string())], Some(0)));
    let (phase, action) = tool.advance_call::<String>(phase, event);
    assert_eq!(phase, ShellPhase::Done);
    assert_eq!(tool.call_index, 1);
    match action {
        ShellAction::Answer(result) => {
            assert!(!result.is_error);
            assert_eq!(result.text, "hello");
            assert_eq!(result.structured.stdout, "hello");
            assert_eq!(result.structured.stderr, "");
            assert_eq!(result.structured.exit_code, Some(0));
        }
        other => panic!("expected an answer, got {:?}", other),
    }
}

#[test]
fn a_failed_command_tells_its_exit_code() {
    let mut tool = ShellTool::new_for_test();
    let phase = start(&tool, "echo fail && exit 7", None);
    let event = ShellEvent::Ran(ran(vec![(false, "fail".to_string())], Some(7)));
    match tool.advance_call::<String>(phase, event).1 {
        ShellAction::Answer(result) => {
            assert!(result.is_error);
            assert_eq!(result.text, "fail\n\nCommand exited with code 7");
        }
        other => panic!("expected an answer, got {:?}", other),
    }
}

#[test]
fn a_command_that_cannot_run_is_an_error() {
    let mut tool = ShellTool::new_for_test();
    let phase = start(&tool, "x", None);
    let event = ShellEvent::RunFailed("Failed to spawn shell command: gone".to_string());
    match tool.advance_call::<String>(phase, event).1 {
        ShellAction::Answer(result) => {
            assert!(result.is_error);
            assert_eq!(result.text, "Failed to spawn shell command: gone");
            assert_eq!(
                result.structured.stderr,
                "Failed to spawn shell command: gone"
            );
        }
        other => panic!("expected an answer, got {:?}", other),
    }
    assert_eq!(tool.call_index, 0);
}

fn long_lines(is_stderr: bool) -> Vec<(bool, String)> {
    (0..OUTPUT_LIMIT_LINES + 1)
        .map(|i| (is_stderr, format!("{}", i)))
        .collect()
}

#[test]
fn long_outputs_are_saved_in_order() {
    let mut tool = ShellTool::new_for_test();
    tool.call_index = 5;
    let mut lines = long_lines(false);
    lines.extend(long_lines(true));
    let phase = start(&tool, "x", None);
    let (mut phase, mut action) =
        tool.advance_call::<String>(phase, ShellEvent::Ran(ran(lines, Some(0))));
    let mut labels = Vec::new();
    let result = loop {
        match action {
            ShellAction::Save(request) => {
                assert!(request.content.starts_with("0\n1\n"));
                let path = format!("/tmp/{}", request.label);
                labels.push(request.label);
                let step = tool.advance_call::<String>(phase, ShellEvent::Saved(path));
                phase = step.0;
                action = step.1;
            }
            ShellAction::Answer(result) => break result,
            other => panic!("unexpected {:?}", other),
        }
    };
    assert_eq!(labels, vec!["stdout-5", "stderr-5", "output-5"]);
    assert_eq!(tool.call_index, 6);
    assert!(!result.is_error);
    assert!(result.structured.stdout.contains("saved to /tmp/stdout-5."));
    assert!(result.structured.stderr.contains("saved to /tmp/stderr-5."));
    assert!(result.text.contains("saved to /tmp/output-5."));
    assert!(result.text.contains("4002 lines total"));
}

#[test]
fn the_first_save_that_fails_is_the_answer() {
    let mut tool = ShellTool::new_for_test();
    let phase = start(&tool, "x", None);
    let (phase, action) = tool.advance_call::<String>(
        phase,
        ShellEvent::Ran(ran(long_lines(true), Some(0))),
    );
    match action {
        ShellAction::Save(request) => assert_eq!(request.label, "stderr-0"),
        other => panic!("expected a save, got {:?}", other),
    }
    let (phase, action) =
        tool.advance_call::<String>(phase, ShellEvent::SaveFailed("disk full".to_string()));
    assert_eq!(phase, ShellPhase::Done);
    match action {
        ShellAction::Answer(result) => {
            assert!(result.is_error);
            assert_eq!(result.text, "Failed to write output buffer: disk full");
            assert_eq!(result.structured.exit_code, None);
        }
        other => panic!("expected an answer, got {:?}", other),
    }
}

#[test]
fn a_plan_finishes_by_the_replies_to_its_saves() {
    let long = vec!["y"; OUTPUT_LIMIT_LINES + 5].join("\n");
    let plan = ShellPlan {
        slot: 2,
        stdout: String::new(),
        stderr: String::new(),
        combined: long.clone(),
    };
    let saves = plan.saves();
    assert_eq!(saves.len(), 1);
    assert_eq!(saves[0].label, "output-2");
    assert_eq!(saves[0].content, long);
    let execution = ran(vec![], Some(0));
    let result = plan.finish(&execution, None, &vec![saved("/o")]);
    assert!(result.text.ends_with("at a time.]"));
    assert_eq!(result.structured.stdout, "");
    let result = plan.finish(&execution, None, &vec![Err("e".to_string())]);
    assert_eq!(result.text, "Failed to write output buffer: e");
}

#[test]
fn notices_tell_how_the_command_ran() {
    let mut execution = ran(vec![], None);
    execution.timed_out = true;
    let shown = |execution: &ExecutionOutput, timeout: Option<u64>| {
        run_result(
            execution,
            timeout,
            String::new(),
            String::new(),
            "out".to_string(),
        )
    };
    let result = shown(&execution, Some(30));
    assert!(result.is_error);
    assert!(result.structured.timed_out);
    assert_eq!(result.text, "out\n\nCommand timed out after 30 seconds");
    assert_eq!(shown(&execution, None).text, "out\n\nCommand timed out");

    let mut execution = ran(vec![], Some(0));
    execution.output_truncated = true;
    let result = shown(&execution, None);
    assert!(!result.is_error);
    assert!(result.structured.output_truncated);
    assert_eq!(
        result.text,
        "out\n\nOutput may be incomplete because stream draining timed out after process exit."
    );

    let mut execution = ran(vec![], Some(0));
    execution.output_collection_error = Some("broken".to_string());
    let result = shown(&execution, None);
    assert!(result.is_error);
    assert_eq!(
        result.structured.output_collection_error,
        Some("broken".to_string())
    );
    assert_eq!(
        result.text,
        "out\n\nOutput collection error occurred; output may be incomplete: broken"
    );

    let result = shown(&ran(vec![], Some(-15)), None);
    assert_eq!(result.text, "out\n\nCommand exited with code -15");
    let result = shown(&ran(vec![], None), None);
    assert!(result.is_error);
    assert_eq!(result.text, "out");
}

#[test]
fn error_results_carry_the_exit_code() {
    let result = ShellTool::error_result("bad", Some(2));
    assert!(result.is_error);
    assert_eq!(result.text, "bad");
    assert_eq!(result.structured.stderr, "bad");
    assert_eq!(result.structured.exit_code, Some(2));
    assert!(!result.structured.timed_out);
}
