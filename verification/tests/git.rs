use step_runner::executor::CmdOutput;
use step_runner::executor::GitConfigError;
use step_runner::executor::apply_git_config;
use step_runner::model::GitConfigParams;

fn params(default_editor: &str) -> GitConfigParams {
    GitConfigParams { default_editor: default_editor.to_string() }
}

fn out(code: i32) -> CmdOutput {
    CmdOutput { stdout: String::new(), stderr: String::new(), code }
}

#[test]
fn values_trimmed_and_editor_defaulted() {
    let batch = apply_git_config(&params("vim"), " Alice ", " a@b.com ", "").unwrap();
    assert_eq!(
        batch.commands,
        vec![
            "git config --global user.name 'Alice'".to_string(),
            "git config --global user.email 'a@b.com'".to_string(),
            "git config --global core.editor 'vim'".to_string(),
        ]
    );
}

#[test]
fn explicit_editor_wins_over_default() {
    let batch = apply_git_config(&params("vim"), "A", "a@b", " nano ").unwrap();
    assert_eq!(batch.commands[2], "git config --global core.editor 'nano'");
}

#[test]
fn single_quotes_are_escaped() {
    let batch = apply_git_config(&params("vim"), "O'Brien", "o@b.ie", "ed").unwrap();
    assert_eq!(batch.commands[0], "git config --global user.name 'O\\'Brien'");
}

#[test]
fn blank_name_is_rejected_before_any_command() {
    let r = apply_git_config(&params("vim"), "   ", "a@b.com", "");
    assert!(matches!(r, Err(GitConfigError::EmptyName)));
}

#[test]
fn blank_email_is_rejected_before_any_command() {
    let r = apply_git_config(&params("vim"), "Alice", " \t ", "");
    assert!(matches!(r, Err(GitConfigError::EmptyEmail)));
}

#[test]
fn error_messages_name_the_field() {
    assert_eq!(GitConfigError::EmptyName.message(), "Git user.name cannot be empty");
    assert_eq!(GitConfigError::EmptyEmail.message(), "Git user.email cannot be empty");
}

#[test]
fn batch_runs_all_three_commands_in_order() {
    let mut batch = apply_git_config(&params("vim"), "A", "a@b", "").unwrap();
    let mut log = String::new();
    let mut seen: Vec<String> = Vec::new();
    while let Some(cmd) = batch.next_command() {
        seen.push(cmd);
        batch.on_output(&mut log, &out(0));
    }
    assert_eq!(seen.len(), 3);
    assert!(seen[0].contains("user.name"));
    assert!(seen[1].contains("user.email"));
    assert!(seen[2].contains("core.editor"));
    assert!(batch.succeeded());
    assert!(!batch.has_failed());
    assert!(log.ends_with("Git configuration updated.\n"));
}

#[test]
fn batch_stops_at_first_failing_command() {
    let mut batch = apply_git_config(&params("vim"), "A", "a@b", "").unwrap();
    let mut log = String::new();
    let first = batch.next_command().unwrap();
    batch.on_output(&mut log, &out(1));
    assert!(batch.has_failed());
    assert!(!batch.succeeded());
    assert!(log.contains(&format!("[ERROR] Command failed: {}", first)));
    assert!(batch.next_command().is_none());
    assert!(!log.contains("Git configuration updated."));
}

#[test]
fn batch_spawn_failure_aborts() {
    let mut batch = apply_git_config(&params("vim"), "A", "a@b", "").unwrap();
    let mut log = String::new();
    let first = batch.next_command().unwrap();
    batch.on_spawn_failed(&mut log);
    assert!(batch.has_failed());
    assert!(log.contains(&format!("[ERROR] Failed to execute command: {}", first)));
    assert!(batch.next_command().is_none());
}

#[test]
fn default_editor_is_substituted_as_given() {
    // the blank editor input falls back to the default, not re-trimmed
    let batch = apply_git_config(&params("  emacs  "), "A", "a@b", " ").unwrap();
    assert_eq!(batch.commands[2], "git config --global core.editor '  emacs  '");
}
