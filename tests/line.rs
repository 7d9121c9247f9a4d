use rebase_editor::action::Action;
use rebase_editor::line::Line;

#[test]
fn parse_commit_line() {
    let line = Line::new("pick abc123 Add a feature").unwrap();
    assert_eq!(line.get_action(), Action::Pick);
    assert_eq!(line.get_hash(), "abc123");
    assert_eq!(line.get_comment(), "Add a feature");
    assert_eq!(line.to_text(), "pick abc123 Add a feature");
}

#[test]
fn parse_short_keywords() {
    assert_eq!(Line::new("f abc x").unwrap().get_action(), Action::Fixup);
    assert_eq!(Line::new("r abc x").unwrap().get_action(), Action::Reword);
    assert_eq!(Line::new("b").unwrap().get_action(), Action::Break);
    assert_eq!(Line::new("x ls -l").unwrap().get_command(), "ls -l");
}

#[test]
fn parse_exec_and_break() {
    let exec = Line::new("exec cargo test --all").unwrap();
    assert_eq!(exec.get_action(), Action::Exec);
    assert_eq!(exec.get_command(), "cargo test --all");
    assert_eq!(exec.to_text(), "exec cargo test --all");
    let brk = Line::new("break").unwrap();
    assert_eq!(brk.to_text(), "break");
}

#[test]
fn parse_rejects_bad_lines() {
    assert!(Line::new("unknown abc x").is_err());
    assert!(Line::new("pick").is_err());
    assert!(Line::new("break now").is_err());
    assert!(Line::new("").is_err());
}

#[test]
fn set_action_between_commit_actions_only() {
    let mut line = Line::new("pick abc x").unwrap();
    line.set_action(Action::Reword);
    assert_eq!(line.get_action(), Action::Reword);
    line.set_action(Action::Exec);
    assert_eq!(line.get_action(), Action::Reword);
    let mut brk = Line::new_break();
    brk.set_action(Action::Pick);
    assert_eq!(brk.get_action(), Action::Break);
}
