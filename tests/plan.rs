use rebase_editor::action::Action;
use rebase_editor::line::Line;
use rebase_editor::plan::{read_lines, Plan};

fn plan_of(lines: &[&str]) -> Plan {
    let steps: Vec<Line> = lines.iter().map(|l| Line::new(l).unwrap()).collect();
    Plan::new(steps)
}

fn hashes(plan: &Plan) -> Vec<String> {
    plan.get_lines().iter().map(|l| l.get_hash().clone()).collect()
}

fn actions(plan: &Plan) -> Vec<Action> {
    plan.get_lines().iter().map(|l| l.get_action()).collect()
}

#[test]
fn move_cursor_stays_in_plan() {
    let mut plan = plan_of(&["pick a x", "pick b y", "pick c z"]);
    plan.move_cursor_up(1);
    assert_eq!(plan.get_selected_line_index(), 0);
    plan.move_cursor_down(5);
    assert_eq!(plan.get_selected_line_index(), 2);
    plan.move_cursor_down(1);
    assert_eq!(plan.get_selected_line_index(), 2);
    plan.move_cursor_up(1);
    assert_eq!(plan.get_selected_line_index(), 1);
    plan.move_cursor_up(5);
    assert_eq!(plan.get_selected_line_index(), 0);
    plan.move_cursor_down(usize::MAX);
    assert_eq!(plan.get_selected_line_index(), 2);
}

#[test]
fn move_cursor_on_empty_plan() {
    let mut plan = Plan::new(Vec::new());
    plan.move_cursor_down(1);
    plan.move_cursor_up(5);
    assert_eq!(plan.get_selected_line_index(), 0);
}

#[test]
fn swap_down_at_start() {
    let mut plan = plan_of(&["pick A a", "pick B b", "pick C c"]);
    plan.swap_range_down();
    assert_eq!(hashes(&plan), vec!["B", "A", "C"]);
    assert_eq!(plan.get_selected_line_index(), 1);
}

#[test]
fn swaps_on_single_step_change_nothing() {
    let mut plan = plan_of(&["pick A a"]);
    plan.swap_range_up();
    assert_eq!(hashes(&plan), vec!["A"]);
    assert_eq!(plan.get_selected_line_index(), 0);
    plan.swap_range_down();
    assert_eq!(hashes(&plan), vec!["A"]);
    assert_eq!(plan.get_selected_line_index(), 0);
}

#[test]
fn swap_range_moves_block() {
    let mut plan = plan_of(&["pick A a", "pick B b", "pick C c", "pick D d"]);
    plan.move_cursor_down(1);
    plan.start_visual_mode();
    plan.move_cursor_down(1);
    plan.swap_range_down();
    assert_eq!(hashes(&plan), vec!["A", "D", "B", "C"]);
    assert_eq!(plan.get_selected_line_index(), 3);
    assert_eq!(plan.get_visual_start_index(), Some(2));
    plan.swap_range_up();
    plan.swap_range_up();
    assert_eq!(hashes(&plan), vec!["B", "C", "A", "D"]);
    assert_eq!(plan.get_selected_line_index(), 1);
    assert_eq!(plan.get_visual_start_index(), Some(0));
    plan.swap_range_up();
    assert_eq!(hashes(&plan), vec!["B", "C", "A", "D"]);
}

#[test]
fn range_set_action() {
    let mut plan = plan_of(&["pick A a", "pick B b", "pick C c", "pick D d", "pick E e"]);
    plan.move_cursor_down(1);
    plan.start_visual_mode();
    plan.move_cursor_down(2);
    plan.set_range_action(Action::Drop);
    assert_eq!(
        actions(&plan),
        vec![Action::Pick, Action::Drop, Action::Drop, Action::Drop, Action::Pick]
    );
}

#[test]
fn range_set_action_reversed_anchor() {
    let mut plan = plan_of(&["pick A a", "pick B b", "pick C c", "pick D d", "pick E e"]);
    plan.move_cursor_down(3);
    plan.start_visual_mode();
    plan.move_cursor_up(2);
    plan.set_range_action(Action::Fixup);
    assert_eq!(
        actions(&plan),
        vec![Action::Pick, Action::Fixup, Action::Fixup, Action::Fixup, Action::Pick]
    );
}

#[test]
fn set_action_skips_exec_and_break() {
    let mut plan = plan_of(&["pick A a", "exec make", "break"]);
    plan.start_visual_mode();
    plan.move_cursor_down(2);
    plan.set_range_action(Action::Squash);
    assert_eq!(actions(&plan), vec![Action::Squash, Action::Exec, Action::Break]);
}

#[test]
fn toggle_break_inserts_and_removes() {
    let mut plan = plan_of(&["pick A a", "pick B b"]);
    plan.toggle_break();
    assert_eq!(actions(&plan), vec![Action::Pick, Action::Break, Action::Pick]);
    assert_eq!(plan.get_selected_line_index(), 1);
    plan.toggle_break();
    assert_eq!(actions(&plan), vec![Action::Pick, Action::Pick]);
    assert_eq!(plan.get_selected_line_index(), 0);
}

#[test]
fn edit_selected_exec_line() {
    let mut plan = plan_of(&["exec make", "pick A a"]);
    plan.edit_selected_line("make test");
    assert_eq!(plan.get_lines()[0].get_command(), "make test");
    plan.move_cursor_down(1);
    plan.edit_selected_line("ignored");
    assert_eq!(plan.get_lines()[1].get_command(), "");
}

#[test]
fn visual_toggle_keeps_plan() {
    let mut plan = plan_of(&["pick A a", "pick B b"]);
    plan.start_visual_mode();
    plan.end_visual_mode();
    assert_eq!(hashes(&plan), vec!["A", "B"]);
    assert_eq!(plan.get_selected_line_index(), 0);
    assert_eq!(plan.get_visual_start_index(), None);
}

#[test]
fn clear_empties_plan() {
    let mut plan = plan_of(&["pick A a"]);
    plan.clear();
    assert!(plan.is_empty());
}

#[test]
fn file_round_trip() {
    let text = "pick aaa first commit\n# a comment\n\nexec make test\nbreak\nfixup bbb second\n";
    let lines: Vec<String> = text.lines().map(String::from).collect();
    let steps = read_lines(&lines, '#').unwrap();
    let plan = Plan::new(steps);
    assert_eq!(
        plan.write_text(),
        "pick aaa first commit\nexec make test\nbreak\nfixup bbb second\n"
    );
}

#[test]
fn file_with_bad_line_is_refused() {
    let lines = vec![String::from("pick aaa x"), String::from("frobnicate bbb y")];
    assert!(read_lines(&lines, '#').is_err());
}
