use step_runner::executor::CmdOutput;
use step_runner::executor::StepAction;
use step_runner::executor::StepEvent;
use step_runner::model::AppDefinition;
use step_runner::model::AppSelectionParams;
use step_runner::model::GitConfigParams;
use step_runner::model::Step;
use step_runner::model::StepKind;
use step_runner::model::StepStatus;
use step_runner::tui::App;
use step_runner::tui::Dispatch;
use step_runner::tui::InteractiveMode;
use step_runner::tui::Key;

fn script_step(name: &str, script: &str) -> Step {
    Step {
        name: name.to_string(),
        kind: StepKind::Script,
        pre_script: None,
        script: Some(script.to_string()),
        post_script: None,
    }
}

fn app_selection_step(name: &str, apps: Vec<(&str, &str, &str)>) -> Step {
    Step {
        name: name.to_string(),
        kind: StepKind::AppSelection {
            params: AppSelectionParams {
                apps: apps
                    .into_iter()
                    .map(|(n, v, i)| AppDefinition {
                        name: n.to_string(),
                        version: v.to_string(),
                        install: i.to_string(),
                    })
                    .collect(),
            },
        },
        pre_script: None,
        script: None,
        post_script: None,
    }
}

fn git_step(name: &str, default_editor: &str) -> Step {
    Step {
        name: name.to_string(),
        kind: StepKind::GitConfig {
            params: GitConfigParams { default_editor: default_editor.to_string() },
        },
        pre_script: None,
        script: None,
        post_script: None,
    }
}

fn ok(code: i32) -> CmdOutput {
    CmdOutput { stdout: String::new(), stderr: String::new(), code }
}

fn type_str(app: &mut App, text: &str) {
    for c in text.chars() {
        app.handle_key(Key::Char(c));
    }
}

#[test]
fn new_app_starts_pending_on_first_step() {
    let app = App::new(vec![script_step("a", "true"), script_step("b", "true")]);
    assert_eq!(app.current, 0);
    assert_eq!(app.runtimes.len(), 2);
    assert_eq!(app.runtimes[0].status, StepStatus::Pending);
    assert_eq!(app.runtimes[0].log, "");
    assert!(matches!(app.mode, InteractiveMode::Dashboard));
}

#[test]
fn navigation_stays_in_bounds() {
    let mut app = App::new(vec![script_step("a", "true"), script_step("b", "true")]);
    app.handle_key(Key::Char('p'));
    assert_eq!(app.current, 0);
    app.handle_key(Key::Char('n'));
    assert_eq!(app.current, 1);
    app.handle_key(Key::Char('n'));
    assert_eq!(app.current, 1);
    app.handle_key(Key::Char('p'));
    assert_eq!(app.current, 0);
}

#[test]
fn quit_key_quits_only_on_dashboard() {
    let mut app = App::new(vec![app_selection_step("apps", vec![("curl", "1", "true")])]);
    assert!(matches!(app.handle_key(Key::Char('q')), Dispatch::Quit));
    app.handle_key(Key::Enter);
    // inside the overlay, 'q' is not quit
    assert!(matches!(app.handle_key(Key::Char('q')), Dispatch::Nothing));
    assert!(matches!(app.mode, InteractiveMode::AppSelection(_)));
}

#[test]
fn manual_skip_forces_skipped() {
    let mut app = App::new(vec![script_step("a", "true")]);
    app.handle_key(Key::Char('s'));
    assert_eq!(app.runtimes[0].status, StepStatus::Skipped);
    assert!(app.runtimes[0].log.contains("Step manually skipped.\n"));
}

#[test]
fn scroll_up_from_zero_stays_at_zero() {
    let mut app = App::new(vec![script_step("a", "true")]);
    assert_eq!(app.log_scroll, 0);
    for _ in 0..5 {
        app.handle_key(Key::Up);
        assert_eq!(app.log_scroll, 0);
    }
    app.handle_key(Key::Down);
    app.handle_key(Key::Down);
    assert_eq!(app.log_scroll, 2);
    app.handle_key(Key::PageUp);
    assert_eq!(app.log_scroll, 0);
    app.handle_key(Key::PageDown);
    assert_eq!(app.log_scroll, 10);
}

#[test]
fn entering_app_selection_builds_unset_bitset() {
    let mut app = App::new(vec![app_selection_step(
        "apps",
        vec![("a", "1", "x"), ("b", "2", "y"), ("c", "3", "z")],
    )]);
    let r = app.handle_key(Key::Enter);
    assert!(matches!(r, Dispatch::Nothing));
    assert_eq!(app.runtimes[0].status, StepStatus::Running);
    assert!(app.runtimes[0].log.contains("== Running step: apps (app selection) ==\n"));
    match &app.mode {
        InteractiveMode::AppSelection(s) => {
            assert_eq!(s.cursor, 0);
            assert_eq!(s.selected, vec![false, false, false]);
        },
        other => panic!("expected the app-selection overlay, got {:?}", other),
    }
}

#[test]
fn escape_from_app_selection_restores_pending() {
    let mut app = App::new(vec![app_selection_step("apps", vec![("a", "1", "x")])]);
    app.handle_key(Key::Enter);
    app.handle_key(Key::Char(' '));
    app.handle_key(Key::Esc);
    assert!(matches!(app.mode, InteractiveMode::Dashboard));
    assert_eq!(app.runtimes[0].status, StepStatus::Pending);
    assert!(app.runtimes[0].log.contains("App selection cancelled.\n"));
}

#[test]
fn escape_from_git_config_restores_pending() {
    let mut app = App::new(vec![git_step("git", "vim")]);
    app.handle_key(Key::Enter);
    type_str(&mut app, "partial input");
    app.handle_key(Key::Esc);
    assert!(matches!(app.mode, InteractiveMode::Dashboard));
    assert_eq!(app.runtimes[0].status, StepStatus::Pending);
    assert!(app.runtimes[0].log.contains("Git config cancelled.\n"));
}

#[test]
fn app_selection_toggle_and_confirm_installs_selected() {
    let mut app = App::new(vec![app_selection_step("apps", vec![("curl", "1", "true")])]);
    app.handle_key(Key::Enter);
    app.handle_key(Key::Char(' '));
    let mut batch = match app.handle_key(Key::Enter) {
        Dispatch::Apps(b) => b,
        other => panic!("expected an install batch, got {:?}", other),
    };
    assert!(matches!(app.mode, InteractiveMode::Dashboard));
    {
        let rt = &mut app.runtimes[0];
        let cmd = batch.next_action(&mut rt.log).unwrap();
        assert_eq!(cmd, "true");
        batch.on_exit(&mut rt.log, 0);
        assert!(batch.next_action(&mut rt.log).is_none());
    }
    app.finish_interactive(batch.was_aborted());
    assert_eq!(app.runtimes[0].status, StepStatus::Success);
    assert_eq!(app.runtimes[0].log.matches("Installing curl (1) using: true\n").count(), 1);
}

#[test]
fn app_selection_cursor_moves_within_bounds() {
    let mut app = App::new(vec![app_selection_step(
        "apps",
        vec![("a", "1", "x"), ("b", "2", "y")],
    )]);
    app.handle_key(Key::Enter);
    app.handle_key(Key::Up);
    app.handle_key(Key::Down);
    app.handle_key(Key::Down);
    app.handle_key(Key::Down);
    match &app.mode {
        InteractiveMode::AppSelection(s) => assert_eq!(s.cursor, 1),
        other => panic!("expected the app-selection overlay, got {:?}", other),
    }
    // toggle the second app, confirm: only the second is planned
    app.handle_key(Key::Char(' '));
    let mut batch = match app.handle_key(Key::Enter) {
        Dispatch::Apps(b) => b,
        other => panic!("expected an install batch, got {:?}", other),
    };
    let mut log = String::new();
    assert_eq!(batch.next_action(&mut log).unwrap(), "y");
    batch.on_exit(&mut log, 0);
    assert!(batch.next_action(&mut log).is_none());
}

#[test]
fn confirm_without_selection_is_a_no_op_success() {
    let mut app = App::new(vec![app_selection_step("apps", vec![("curl", "1", "true")])]);
    app.handle_key(Key::Enter);
    let mut batch = match app.handle_key(Key::Enter) {
        Dispatch::Apps(b) => b,
        other => panic!("expected an install batch, got {:?}", other),
    };
    assert!(app.runtimes[0].log.contains("No apps selected.\n"));
    let mut log = String::new();
    assert!(batch.next_action(&mut log).is_none());
    app.finish_interactive(batch.was_aborted());
    assert_eq!(app.runtimes[0].status, StepStatus::Success);
}

#[test]
fn git_flow_types_values_and_issues_three_commands() {
    let mut app = App::new(vec![git_step("git", "nano")]);
    app.handle_key(Key::Enter);
    assert!(app.runtimes[0].log.contains("== Running step: git (git config) ==\n"));
    type_str(&mut app, "Bob");
    app.handle_key(Key::Tab);
    type_str(&mut app, "bob@x.com");
    let mut batch = match app.handle_key(Key::Enter) {
        Dispatch::Git(b) => b,
        other => panic!("expected a git batch, got {:?}", other),
    };
    assert_eq!(
        batch.commands,
        vec![
            "git config --global user.name 'Bob'".to_string(),
            "git config --global user.email 'bob@x.com'".to_string(),
            "git config --global core.editor 'nano'".to_string(),
        ]
    );
    let mut issued = 0;
    {
        let rt = &mut app.runtimes[0];
        while let Some(_cmd) = batch.next_command() {
            batch.on_output(&mut rt.log, &ok(0));
            issued += 1;
        }
    }
    assert_eq!(issued, 3);
    app.finish_interactive(batch.has_failed());
    assert_eq!(app.runtimes[0].status, StepStatus::Success);
    assert!(app.runtimes[0].log.contains("Git configuration updated.\n"));
}

#[test]
fn git_editor_buffer_is_seeded_with_the_default() {
    let mut app = App::new(vec![git_step("git", "nano")]);
    app.handle_key(Key::Enter);
    match &app.mode {
        InteractiveMode::GitConfig(s) => {
            assert_eq!(s.name, "");
            assert_eq!(s.email, "");
            assert_eq!(s.editor, "nano");
        },
        other => panic!("expected the git overlay, got {:?}", other),
    }
}

#[test]
fn git_backspace_edits_the_focused_buffer() {
    let mut app = App::new(vec![git_step("git", "vim")]);
    app.handle_key(Key::Enter);
    type_str(&mut app, "Boc");
    app.handle_key(Key::Backspace);
    type_str(&mut app, "b");
    match &app.mode {
        InteractiveMode::GitConfig(s) => assert_eq!(s.name, "Bob"),
        other => panic!("expected the git overlay, got {:?}", other),
    }
    // Shift-Tab cycles backward: Name -> Editor
    app.handle_key(Key::BackTab);
    app.handle_key(Key::Backspace);
    match &app.mode {
        InteractiveMode::GitConfig(s) => assert_eq!(s.editor, "vi"),
        other => panic!("expected the git overlay, got {:?}", other),
    }
}

#[test]
fn git_confirm_with_empty_name_fails_without_commands() {
    let mut app = App::new(vec![git_step("git", "vim")]);
    app.handle_key(Key::Enter);
    let r = app.handle_key(Key::Enter);
    assert!(matches!(r, Dispatch::Nothing));
    assert!(matches!(app.mode, InteractiveMode::Dashboard));
    assert_eq!(app.runtimes[0].status, StepStatus::Failed);
    assert!(app.runtimes[0].log.contains("[ERROR] Git user.name cannot be empty"));
    assert!(!app.runtimes[0].log.contains("git config --global"));
}

#[test]
fn git_confirm_works_from_any_focused_field() {
    let mut app = App::new(vec![git_step("git", "vim")]);
    app.handle_key(Key::Enter);
    type_str(&mut app, "A");
    app.handle_key(Key::Tab);
    type_str(&mut app, "a@b");
    app.handle_key(Key::Tab);
    // focus is now on the editor field; Enter still confirms
    let r = app.handle_key(Key::Enter);
    assert!(matches!(r, Dispatch::Git(_)));
}

#[test]
fn running_a_script_step_through_the_dashboard() {
    let mut app = App::new(vec![script_step("update", "true")]);
    let (mut pipeline, action) = match app.handle_key(Key::Enter) {
        Dispatch::Step(p, a) => (p, a),
        other => panic!("expected a pipeline, got {:?}", other),
    };
    let cmd = match action {
        StepAction::Run { cmd } => cmd,
        other => panic!("expected a command, got {:?}", other),
    };
    assert_eq!(cmd, "true");
    let step = &app.steps[0];
    let rt = &mut app.runtimes[0];
    let next = pipeline.advance(step, rt, StepEvent::Finished(ok(0)));
    assert!(matches!(next, StepAction::Done));
    assert_eq!(app.runtimes[0].status, StepStatus::Success);
    assert!(app.runtimes[0].log.contains("[exit code: 0]"));
}
