use rebase_editor::action::Action;
use rebase_editor::application::{Application, Work};
use rebase_editor::line::Line;
use rebase_editor::plan::Plan;
use rebase_editor::state::{ExitStatus, Input, State};
use rebase_editor::view::View;

fn app_of(lines: &[&str], auto: bool) -> Application {
    let steps: Vec<Line> = lines.iter().map(|l| Line::new(l).unwrap()).collect();
    Application::new(Plan::new(steps), View::new(80, 20), auto)
}

fn actions(app: &Application) -> Vec<Action> {
    app.get_plan().get_lines().iter().map(|l| l.get_action()).collect()
}

#[test]
fn visual_toggle_returns_to_list_unchanged() {
    let mut app = app_of(&["pick A a", "pick B b", "pick C c"], false);
    app.handle_input(Input::ToggleVisualMode);
    assert!(matches!(app.get_state(), State::VisualMode));
    app.handle_input(Input::ToggleVisualMode);
    assert!(matches!(app.get_state(), State::List));
    let hashes: Vec<String> = app.get_plan().get_lines().iter().map(|l| l.get_hash().clone()).collect();
    assert_eq!(hashes, vec!["A", "B", "C"]);
    assert_eq!(app.get_plan().get_visual_start_index(), None);
    assert_eq!(app.get_plan().write_text(), "pick A a\npick B b\npick C c\n");
}

#[test]
fn show_commit_refused_on_exec_and_break() {
    let mut app = app_of(&["exec make", "break", "pick A a"], false);
    app.handle_input(Input::ShowCommit);
    assert!(matches!(app.get_state(), State::List));
    app.handle_input(Input::MoveCursorDown);
    app.handle_input(Input::ShowCommit);
    assert!(matches!(app.get_state(), State::List));
    app.handle_input(Input::MoveCursorDown);
    app.handle_input(Input::ShowCommit);
    assert!(matches!(app.get_state(), State::ShowCommit));
    assert_eq!(app.process(), Work::LoadCommitStats);
    app.commit_stats_loaded(Ok(vec![String::from("file | 2 +-")]));
    assert_eq!(app.process(), Work::Nothing);
    app.handle_input(Input::MoveCursorDown);
    assert!(matches!(app.get_state(), State::ShowCommit));
    app.handle_input(Input::Other);
    assert!(matches!(app.get_state(), State::List));
}

#[test]
fn visual_range_action() {
    let mut app = app_of(&["pick A a", "pick B b", "pick C c", "pick D d", "pick E e"], false);
    app.handle_input(Input::MoveCursorDown);
    app.handle_input(Input::ToggleVisualMode);
    app.handle_input(Input::MoveCursorDown);
    app.handle_input(Input::MoveCursorDown);
    app.handle_input(Input::ActionDrop);
    assert_eq!(
        actions(&app),
        vec![Action::Pick, Action::Drop, Action::Drop, Action::Drop, Action::Pick]
    );
}

#[test]
fn auto_select_next_moves_down() {
    let mut app = app_of(&["pick A a", "pick B b"], true);
    app.handle_input(Input::ActionSquash);
    assert_eq!(actions(&app), vec![Action::Squash, Action::Pick]);
    assert_eq!(app.get_plan().get_selected_line_index(), 1);
}

#[test]
fn help_returns_to_its_screen() {
    let mut app = app_of(&["pick A a", "pick B b"], false);
    app.handle_input(Input::ToggleVisualMode);
    app.handle_input(Input::Help);
    assert!(matches!(app.get_state(), State::Help(_)));
    app.handle_input(Input::MoveCursorDown);
    assert!(matches!(app.get_state(), State::Help(_)));
    app.handle_input(Input::Other);
    assert!(matches!(app.get_state(), State::VisualMode));
}

#[test]
fn edit_exec_command() {
    let mut app = app_of(&["exec make"], false);
    app.handle_input(Input::Edit);
    assert!(matches!(app.get_state(), State::Edit));
    assert_eq!(app.get_edit_buffer().cursor(), 4);
    app.handle_input(Input::Character('!'));
    app.handle_input(Input::Other);
    app.handle_input(Input::MoveCursorLeft);
    app.handle_input(Input::Backspace);
    app.handle_input(Input::Enter);
    assert!(matches!(app.get_state(), State::List));
    assert_eq!(app.get_plan().get_lines()[0].get_command(), "mak!");
}

#[test]
fn edit_refused_on_commit_step() {
    let mut app = app_of(&["pick A a"], false);
    app.handle_input(Input::Edit);
    assert!(matches!(app.get_state(), State::List));
}

#[test]
fn confirm_abort_yes_clears_plan() {
    let mut app = app_of(&["pick A a"], false);
    app.handle_input(Input::Abort);
    assert!(matches!(app.get_state(), State::ConfirmAbort));
    app.handle_input(Input::Resize);
    assert!(matches!(app.get_state(), State::ConfirmAbort));
    app.handle_input(Input::Yes);
    assert!(matches!(app.get_state(), State::Exiting));
    assert!(app.get_plan().is_empty());
    assert_eq!(app.get_exit_status(), Some(ExitStatus::Good));
}

#[test]
fn confirm_rebase_other_key_returns_to_list() {
    let mut app = app_of(&["pick A a"], false);
    app.handle_input(Input::Rebase);
    assert!(matches!(app.get_state(), State::ConfirmRebase));
    app.handle_input(Input::Other);
    assert!(matches!(app.get_state(), State::List));
    app.handle_input(Input::Rebase);
    app.handle_input(Input::Yes);
    assert!(matches!(app.get_state(), State::Exiting));
    assert_eq!(app.get_exit_status(), Some(ExitStatus::Good));
    assert_eq!(app.get_plan().get_lines().len(), 1);
}

#[test]
fn force_abort_and_force_rebase() {
    let mut app = app_of(&["pick A a"], false);
    app.handle_input(Input::ForceAbort);
    assert!(app.get_plan().is_empty());
    assert_eq!(app.get_exit_status(), Some(ExitStatus::Good));
    let mut app = app_of(&["pick A a"], false);
    app.handle_input(Input::ForceRebase);
    assert!(matches!(app.get_state(), State::Exiting));
    assert_eq!(app.get_plan().get_lines().len(), 1);
}

#[test]
fn window_size_error_wraps_and_unwraps() {
    let mut app = app_of(&["pick A a"], false);
    app.handle_input(Input::Rebase);
    app.handle_resize(10, 3);
    assert!(matches!(app.get_state(), State::WindowSizeError(_)));
    app.handle_input(Input::Yes);
    assert!(matches!(app.get_state(), State::WindowSizeError(_)));
    app.handle_resize(80, 20);
    assert!(matches!(app.get_state(), State::ConfirmRebase));
}

#[test]
fn editor_round_trip() {
    let mut app = app_of(&["pick A a"], false);
    app.handle_input(Input::OpenInEditor);
    assert_eq!(app.process(), Work::RunEditor);
    app.editor_finished(Ok(()));
    assert_eq!(app.process(), Work::ReloadPlan);
    app.plan_reloaded(Ok(vec![Line::new("drop B b").unwrap()]));
    assert!(matches!(app.get_state(), State::List));
    assert_eq!(actions(&app), vec![Action::Drop]);
}

#[test]
fn editor_reload_empty_is_error() {
    let mut app = app_of(&["pick A a"], false);
    app.handle_input(Input::OpenInEditor);
    app.editor_finished(Ok(()));
    app.plan_reloaded(Ok(Vec::new()));
    match app.get_state() {
        State::Error { message, return_state } => {
            assert_eq!(message, "Rebase empty");
            assert!(matches!(**return_state, State::List));
        },
        _ => panic!("expected an error"),
    }
    app.handle_input(Input::Other);
    assert!(matches!(app.get_state(), State::List));
}

#[test]
fn editor_failure_ends_session() {
    let mut app = app_of(&["pick A a"], false);
    app.handle_input(Input::OpenInEditor);
    app.editor_finished(Err(String::from("no editor")));
    assert!(matches!(app.get_state(), State::Error { .. }));
    app.handle_input(Input::Other);
    assert!(matches!(app.get_state(), State::ExternalEditorError));
    app.handle_input(Input::Other);
    assert!(matches!(app.get_state(), State::Exiting));
    assert_eq!(app.get_exit_status(), Some(ExitStatus::StateError));
}

#[test]
fn draw_exiting_frame() {
    let mut app = app_of(&["pick A a"], false);
    app.handle_input(Input::ForceRebase);
    let frame = app.draw();
    let text: String = frame.iter().map(|s| s.text.as_str()).collect();
    assert_eq!(text, "Exiting...");
}

#[test]
fn draw_list_frame() {
    let mut app = app_of(&["pick abcdef123 first"], false);
    app.process();
    let frame = app.draw();
    let text: String = frame.iter().map(|s| s.text.as_str()).collect();
    assert!(text.contains(" > pick   abcdef12 first"));
}

#[test]
fn write_failure_is_reported() {
    let mut app = app_of(&["pick A a"], false);
    let r = app.exit_end(Err(String::from("disk full")));
    assert!(r.is_err());
    assert_eq!(app.get_exit_status(), Some(ExitStatus::FileWriteError));
}

#[test]
fn commit_stats_are_drawn() {
    let mut app = app_of(&["pick A a"], false);
    app.handle_input(Input::ShowCommit);
    app.process();
    app.commit_stats_loaded(Ok(vec![String::from("src/lib.rs | 3 ++-")]));
    let frame = app.draw();
    let text: String = frame.iter().map(|s| s.text.as_str()).collect();
    assert!(text.contains("src/lib.rs | 3 ++-"));
    assert!(text.ends_with("Any key to close"));
}

#[test]
fn confirm_abort_prompt_ends_with_two_spaces() {
    let mut app = app_of(&["pick A a"], false);
    app.handle_input(Input::Abort);
    let frame = app.draw();
    let text: String = frame.iter().map(|s| s.text.as_str()).collect();
    assert!(text.ends_with("\nAre you sure you want to abort (y/n)?  "));
}

#[test]
fn opening_edit_and_enter_keeps_command() {
    let mut app = app_of(&["exec cargo test"], false);
    app.handle_input(Input::Edit);
    app.handle_input(Input::Enter);
    assert_eq!(app.get_plan().get_lines()[0].get_command(), "cargo test");
}
