use rebase_editor::scroll::{get_scroll_position, ScrollPosition};

#[test]
fn cursor_at_end_scrolls_to_last_page() {
    let mut position = ScrollPosition::new(0);
    position.ensure_cursor_visible(19, 5, 20);
    assert_eq!(position.get_position(), 15);
}

#[test]
fn cursor_above_view_scrolls_up() {
    let mut position = ScrollPosition::new(0);
    position.ensure_cursor_visible(19, 5, 20);
    position.ensure_cursor_visible(3, 5, 20);
    assert_eq!(position.get_position(), 3);
    position.ensure_cursor_visible(5, 5, 20);
    assert_eq!(position.get_position(), 3);
}

#[test]
fn padding_reduces_height() {
    let mut position = ScrollPosition::new(2);
    position.ensure_cursor_visible(19, 7, 20);
    assert_eq!(position.get_position(), 15);
}

#[test]
fn scroll_up_and_down_are_clamped() {
    let mut position = ScrollPosition::new(0);
    position.scroll_up(5, 8);
    assert_eq!(position.get_position(), 0);
    position.scroll_down(5, 8);
    position.scroll_down(5, 8);
    position.scroll_down(5, 8);
    position.scroll_down(5, 8);
    assert_eq!(position.get_position(), 3);
    position.scroll_up(5, 8);
    assert_eq!(position.get_position(), 2);
    position.reset();
    assert_eq!(position.get_position(), 0);
}

#[test]
fn scroll_down_without_overflow_stays() {
    let mut position = ScrollPosition::new(0);
    position.scroll_down(10, 4);
    assert_eq!(position.get_position(), 0);
}

#[test]
fn scroll_thumb_row() {
    assert_eq!(get_scroll_position(0, 20, 5), 0);
    assert_eq!(get_scroll_position(15, 20, 5), 4);
    assert_eq!(get_scroll_position(7, 20, 5), 1);
    assert_eq!(get_scroll_position(0, 3, 5), 0);
}
