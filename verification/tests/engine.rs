use step_runner::executor::CmdOutput;
use step_runner::executor::StepAction;
use step_runner::executor::StepEvent;
use step_runner::executor::append_output;
use step_runner::executor::finish_sudo_session;
use step_runner::executor::run_step;
use step_runner::executor::start_sudo_session;
use step_runner::model::AddTextParams;
use step_runner::model::Step;
use step_runner::model::StepKind;
use step_runner::model::StepRuntime;
use step_runner::model::StepStatus;

fn script_step(name: &str, pre: Option<&str>, script: Option<&str>, post: Option<&str>) -> Step {
    Step {
        name: name.to_string(),
        kind: StepKind::Script,
        pre_script: pre.map(|s| s.to_string()),
        script: script.map(|s| s.to_string()),
        post_script: post.map(|s| s.to_string()),
    }
}

fn out(code: i32) -> CmdOutput {
    CmdOutput { stdout: String::new(), stderr: String::new(), code }
}

fn runtime() -> StepRuntime {
    StepRuntime { status: StepStatus::Pending, log: String::new() }
}

#[test]
fn script_step_success_logs_exit_code() {
    let step = script_step("update", None, Some("true"), None);
    let mut rt = runtime();
    let (mut pipeline, action) = run_step(&step, &mut rt);
    let cmd = match action {
        StepAction::Run { cmd } => cmd,
        other => panic!("expected a command, got {:?}", other),
    };
    assert_eq!(cmd, "true");
    assert_eq!(rt.status, StepStatus::Running);
    let next = pipeline.advance(&step, &mut rt, StepEvent::Finished(out(0)));
    assert!(matches!(next, StepAction::Done));
    assert_eq!(rt.status, StepStatus::Success);
    assert!(rt.log.contains("== Running step: update ==\n"));
    assert!(rt.log.contains("[exit code: 0]"));
}

#[test]
fn failing_pre_script_skips_main_and_post() {
    let step = script_step("setup", Some("false"), Some("true"), Some("true"));
    let mut rt = runtime();
    let (mut pipeline, action) = run_step(&step, &mut rt);
    match action {
        StepAction::Run { cmd } => assert_eq!(cmd, "false"),
        other => panic!("expected the pre-script, got {:?}", other),
    }
    let next = pipeline.advance(&step, &mut rt, StepEvent::Finished(out(1)));
    assert!(matches!(next, StepAction::Done));
    assert_eq!(rt.status, StepStatus::Skipped);
    assert!(rt.log.contains("pre_script failed; step will be skipped."));
    // the main script and post-script were never dispatched
    assert!(!rt.log.contains("--- script ---"));
    assert!(!rt.log.contains("--- post_script ---"));
    assert_eq!(rt.log.matches("[exit code:").count(), 1);
}

#[test]
fn failing_main_script_fails_and_skips_post() {
    let step = script_step("job", None, Some("false"), Some("true"));
    let mut rt = runtime();
    let (mut pipeline, _) = run_step(&step, &mut rt);
    let next = pipeline.advance(&step, &mut rt, StepEvent::Finished(out(7)));
    assert!(matches!(next, StepAction::Done));
    assert_eq!(rt.status, StepStatus::Failed);
    assert!(!rt.log.contains("--- post_script ---"));
    assert!(rt.log.contains("[exit code: 7]"));
}

#[test]
fn failing_post_script_fails_step() {
    let step = script_step("job", None, Some("true"), Some("false"));
    let mut rt = runtime();
    let (mut pipeline, _) = run_step(&step, &mut rt);
    let next = pipeline.advance(&step, &mut rt, StepEvent::Finished(out(0)));
    match next {
        StepAction::Run { cmd } => assert_eq!(cmd, "false"),
        other => panic!("expected the post-script, got {:?}", other),
    }
    let next = pipeline.advance(&step, &mut rt, StepEvent::Finished(out(2)));
    assert!(matches!(next, StepAction::Done));
    assert_eq!(rt.status, StepStatus::Failed);
}

#[test]
fn all_three_scripts_succeeding_is_success() {
    let step = script_step("full", Some("p"), Some("m"), Some("q"));
    let mut rt = runtime();
    let (mut pipeline, _) = run_step(&step, &mut rt);
    assert!(matches!(
        pipeline.advance(&step, &mut rt, StepEvent::Finished(out(0))),
        StepAction::Run { .. }
    ));
    assert!(matches!(
        pipeline.advance(&step, &mut rt, StepEvent::Finished(out(0))),
        StepAction::Run { .. }
    ));
    assert!(matches!(
        pipeline.advance(&step, &mut rt, StepEvent::Finished(out(0))),
        StepAction::Done
    ));
    assert_eq!(rt.status, StepStatus::Success);
}

#[test]
fn missing_main_script_is_logged_not_failed() {
    let step = script_step("bare", None, None, None);
    let mut rt = runtime();
    let (pipeline, action) = run_step(&step, &mut rt);
    assert!(matches!(action, StepAction::Done));
    assert!(pipeline.is_finished());
    assert_eq!(rt.status, StepStatus::Success);
    assert!(rt.log.contains("No script specified for script step."));
}

#[test]
fn add_text_step_appends_and_succeeds() {
    let step = Step {
        name: "bashrc".to_string(),
        kind: StepKind::AddText {
            params: AddTextParams {
                file: "/tmp/f".to_string(),
                content: "alias ll='ls -l'".to_string(),
            },
        },
        pre_script: None,
        script: None,
        post_script: None,
    };
    let mut rt = runtime();
    let (mut pipeline, action) = run_step(&step, &mut rt);
    match action {
        StepAction::Append { file, content } => {
            assert_eq!(file, "/tmp/f");
            assert_eq!(content, "alias ll='ls -l'");
        },
        other => panic!("expected an append, got {:?}", other),
    }
    let next = pipeline.advance(&step, &mut rt, StepEvent::AppendDone);
    assert!(matches!(next, StepAction::Done));
    assert_eq!(rt.status, StepStatus::Success);
    assert!(rt.log.contains("--- add_text to /tmp/f ---"));
    assert!(rt.log.contains("Appended content to /tmp/f\n"));
}

#[test]
fn add_text_open_failure_fails_step() {
    let step = Step {
        name: "bashrc".to_string(),
        kind: StepKind::AddText {
            params: AddTextParams { file: "/nope/f".to_string(), content: "x".to_string() },
        },
        pre_script: None,
        script: None,
        post_script: None,
    };
    let mut rt = runtime();
    let (mut pipeline, _) = run_step(&step, &mut rt);
    let next = pipeline.advance(&step, &mut rt, StepEvent::AppendFailed { open_failed: true });
    assert!(matches!(next, StepAction::Done));
    assert_eq!(rt.status, StepStatus::Failed);
    assert!(rt.log.contains("[ERROR] Failed to open file: /nope/f"));
}

#[test]
fn spawn_failure_fails_step_with_error_line() {
    let step = script_step("job", None, Some("nosuchshellcmd"), None);
    let mut rt = runtime();
    let (mut pipeline, _) = run_step(&step, &mut rt);
    let next = pipeline.advance(&step, &mut rt, StepEvent::SpawnFailed);
    assert!(matches!(next, StepAction::Done));
    assert_eq!(rt.status, StepStatus::Failed);
    assert!(rt.log.contains("\n[ERROR] Failed to execute command: nosuchshellcmd\n"));
}

#[test]
fn rerunning_a_step_appends_to_the_log() {
    let step = script_step("again", None, Some("true"), None);
    let mut rt = runtime();
    let (mut pipeline, _) = run_step(&step, &mut rt);
    pipeline.advance(&step, &mut rt, StepEvent::Finished(out(0)));
    let first_len = rt.log.len();
    let (mut pipeline, _) = run_step(&step, &mut rt);
    pipeline.advance(&step, &mut rt, StepEvent::Finished(out(0)));
    assert!(rt.log.len() > first_len);
    assert_eq!(rt.log.matches("== Running step: again ==").count(), 2);
}

#[test]
fn transcript_format_with_both_streams() {
    let mut log = String::new();
    let o = CmdOutput { stdout: "hello\n".to_string(), stderr: "oops".to_string(), code: 3 };
    append_output(&mut log, "echo hello", &o);
    assert_eq!(log, "\n$ echo hello\nhello\n\n[stderr]\noops\n[exit code: 3]\n");
}

#[test]
fn transcript_format_omits_empty_streams() {
    let mut log = String::new();
    append_output(&mut log, "true", &out(0));
    assert_eq!(log, "\n$ true\n\n[exit code: 0]\n");
}

#[test]
fn transcript_format_negative_exit_code() {
    let mut log = String::new();
    append_output(&mut log, "kill", &out(-1));
    assert_eq!(log, "\n$ kill\n\n[exit code: -1]\n");
}

#[test]
fn transcript_format_large_exit_code() {
    let mut log = String::new();
    append_output(&mut log, "c", &out(130));
    assert_eq!(log, "\n$ c\n\n[exit code: 130]\n");
}

#[test]
fn sudo_session_success_and_failure() {
    let mut log = String::new();
    let cmd = start_sudo_session(&mut log);
    assert_eq!(cmd, "sudo -v");
    assert_eq!(log, "Initializing sudo session with `sudo -v`...\n");
    assert!(finish_sudo_session(&mut log, &out(0)));
    assert!(log.contains("[exit code: 0]"));
    let mut log2 = String::new();
    assert!(!finish_sudo_session(&mut log2, &out(1)));
}
