use rebase_editor::line::Line;
use rebase_editor::view::{Segment, View, ViewLine, WindowColor};

fn text(frame: &[Segment]) -> String {
    frame.iter().map(|s| s.text.as_str()).collect()
}

#[test]
fn title_with_help() {
    let mut view = View::new(40, 10);
    view.draw_title(true);
    assert_eq!(text(&view.refresh()), "Git Interactive Rebase Tool      Help: ?");
}

#[test]
fn title_short() {
    let mut view = View::new(15, 10);
    view.draw_title(false);
    assert_eq!(text(&view.refresh()), "Git Rebase     ");
}

#[test]
fn window_size_check() {
    assert!(View::new(21, 6).check_window_size());
    assert!(!View::new(20, 6).check_window_size());
    assert!(!View::new(21, 5).check_window_size());
}

#[test]
fn window_size_messages() {
    let mut view = View::new(10, 10);
    view.draw_window_size_error();
    assert_eq!(text(&view.refresh()), "Size!\n");
    let mut view = View::new(50, 3);
    view.draw_window_size_error();
    assert_eq!(text(&view.refresh()), "Window too small, increase height to continue\n");
    let mut view = View::new(18, 10);
    view.draw_window_size_error();
    assert_eq!(text(&view.refresh()), "Window too small");
}

#[test]
fn draw_str_uses_pen() {
    let mut view = View::new(40, 10);
    view.set_color(WindowColor::ActionDrop);
    view.set_style(true, false, true);
    view.draw_str("x");
    let frame = view.refresh();
    assert_eq!(frame.len(), 1);
    assert_eq!(frame[0].color, WindowColor::ActionDrop);
    assert!(frame[0].dim && !frame[0].underline && frame[0].reverse);
    assert!(view.refresh().is_empty());
}

#[test]
fn view_line_cut_and_padded() {
    let mut view = View::new(6, 10);
    let line = ViewLine {
        segments: vec![
            Segment { text: String::from("abcd"), color: WindowColor::Foreground, dim: false, underline: false, reverse: false },
            Segment { text: String::from("efgh"), color: WindowColor::Foreground, dim: false, underline: false, reverse: false },
        ],
    };
    view.draw_view_line(&line, false);
    assert_eq!(text(&view.refresh()), "abcdef");
    view.draw_view_line(&line, true);
    assert_eq!(text(&view.refresh()), "abcde");
    let short = ViewLine {
        segments: vec![Segment { text: String::from("ab"), color: WindowColor::Foreground, dim: false, underline: false, reverse: false }],
    };
    view.draw_view_line(&short, false);
    assert_eq!(text(&view.refresh()), "ab    ");
}

#[test]
fn todo_line_layouts() {
    let line = Line::new("pick abcdef123 message").unwrap();
    let wide = View::new(80, 10);
    assert_eq!(text(&wide.get_todo_line_segments(&line, true, false)), " > pick   abcdef12 message");
    let narrow = View::new(25, 10);
    assert_eq!(text(&narrow.get_todo_line_segments(&line, false, false)), " p abc message");
    let brk = Line::new_break();
    assert_eq!(text(&wide.get_todo_line_segments(&brk, false, false)), "   break           ");
}

#[test]
fn confirm_and_exiting() {
    let mut view = View::new(15, 10);
    view.draw_confirm("Quit");
    assert_eq!(text(&view.refresh()), "Git Rebase     \nQuit (y/n)?  ");
    view.draw_exiting();
    assert_eq!(text(&view.refresh()), "Exiting...");
}

#[test]
fn error_screen() {
    let mut view = View::new(15, 10);
    view.draw_error("bad");
    assert_eq!(text(&view.refresh()), "Git Rebase     bad\nPress any key to continue");
}

#[test]
fn scroll_bar_on_long_list() {
    let mut view = View::new(4, 10);
    let lines: Vec<ViewLine> = (0..4)
        .map(|i| ViewLine {
            segments: vec![Segment { text: format!("{}", i), color: WindowColor::Foreground, dim: false, underline: false, reverse: false }],
        })
        .collect();
    view.draw_view_lines(&lines, 1, 2);
    assert_eq!(text(&view.refresh()), "1   2   ");
    view.draw_view_lines(&lines, 0, 5);
    assert_eq!(text(&view.refresh()), "0   1   2   3   ~   ");
}

#[test]
fn title_is_underlined_and_reversed() {
    let mut view = View::new(40, 10);
    view.draw_title(true);
    for segment in view.refresh() {
        assert_eq!(segment.color, WindowColor::Foreground);
        assert!(!segment.dim && segment.underline && segment.reverse);
    }
}

#[test]
fn scroll_bar_thumb_is_not_dim() {
    let mut view = View::new(4, 10);
    let lines: Vec<ViewLine> = (0..6)
        .map(|i| ViewLine {
            segments: vec![Segment { text: format!("{}", i), color: WindowColor::Foreground, dim: false, underline: false, reverse: false }],
        })
        .collect();
    view.draw_view_lines(&lines, 0, 3);
    let cells: Vec<Segment> = view.refresh().into_iter().filter(|s| s.reverse).collect();
    assert_eq!(cells.len(), 3);
    assert!(!cells[0].dim);
    assert!(cells[1].dim && cells[2].dim);
}

#[test]
fn edit_cursor_cluster_is_underlined() {
    let mut view = View::new(15, 10);
    let clusters = vec![String::from("a"), String::from("b"), String::from("c")];
    view.draw_edit(&clusters, 1);
    let frame = view.refresh();
    let under: Vec<&Segment> = frame.iter().filter(|s| s.text == "a" || s.text == "b" || s.text == "c").collect();
    assert!(!under[0].underline && under[1].underline && !under[2].underline);
    assert_eq!(text(&frame), "Git Rebase     abc\n\nEnter to finish");
}

#[test]
fn range_rows_are_dim_cursor_row_is_not() {
    let steps: Vec<Line> = ["pick a x", "pick b y", "pick c z"].iter().map(|l| Line::new(l).unwrap()).collect();
    let mut view = View::new(80, 20);
    view.draw_main(&steps, 2, Some(0));
    let marks: Vec<Segment> = view.refresh().into_iter().filter(|s| s.text == " > ").collect();
    assert_eq!(marks.len(), 3);
    assert!(marks[0].dim && marks[1].dim && !marks[2].dim);
}
