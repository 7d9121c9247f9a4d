use rebase_editor::confirm_rebase::ConfirmRebase;
use rebase_editor::line::Line;
use rebase_editor::plan::Plan;
use rebase_editor::state::{ExitStatus, Input, State};
use rebase_editor::view::{View, WindowColor};

fn plan_of(lines: &[&str]) -> Plan {
    let steps: Vec<Line> = lines.iter().map(|l| Line::new(l).unwrap()).collect();
    Plan::new(steps)
}

#[test]
fn build_view_data() {
    let _plan = plan_of(&["pick aaa comment"]);
    let module = ConfirmRebase::new();
    let mut view = View::new(80, 20);
    module.build_view_data(&mut view);
    let frame = view.refresh();
    let title: String = frame[..frame.len() - 2].iter().map(|s| s.text.as_str()).collect();
    assert!(title.starts_with("Git Interactive Rebase Tool"));
    assert_eq!(frame[frame.len() - 2].text, "\n");
    let body = &frame[frame.len() - 1];
    assert_eq!(body.text, "Are you sure you want to rebase (y/n)? ");
    assert_eq!(body.color, WindowColor::Foreground);
    assert!(!body.dim && !body.underline && !body.reverse);
}

#[test]
fn handle_event_yes() {
    let _plan = plan_of(&["pick aaa comment"]);
    let mut module = ConfirmRebase::new();
    let results = module.handle_event(Input::Yes);
    assert_eq!(results.exit_status, Some(ExitStatus::Good));
    assert!(results.state.is_none());
}

#[test]
fn handle_event_no() {
    let _plan = plan_of(&["pick aaa comment"]);
    let mut module = ConfirmRebase::new();
    let results = module.handle_event(Input::No);
    assert!(results.exit_status.is_none());
    assert!(matches!(results.state, Some(State::List)));
}

#[test]
fn handle_event_no_match_key() {
    let _plan = plan_of(&["pick aaa comment"]);
    let mut module = ConfirmRebase::new();
    let results = module.handle_event(Input::Null);
    assert!(results.exit_status.is_none());
    assert!(results.state.is_none());
}

#[test]
fn handle_event_other_key_returns_to_list() {
    let mut module = ConfirmRebase::new();
    let results = module.handle_event(Input::Other);
    assert!(results.exit_status.is_none());
    assert!(matches!(results.state, Some(State::List)));
}
