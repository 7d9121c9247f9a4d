use rebase_editor::edit_buffer::EditBuffer;

#[test]
fn insert_backspace_delete() {
    let mut buffer = EditBuffer::new("ab");
    assert_eq!(buffer.cursor(), 2);
    buffer.insert('c');
    assert_eq!(buffer.get_content(), "abc");
    assert_eq!(buffer.cursor(), 3);
    buffer.backspace();
    assert_eq!(buffer.get_content(), "ab");
    assert_eq!(buffer.cursor(), 2);
    buffer.move_left();
    buffer.move_left();
    assert_eq!(buffer.cursor(), 0);
    buffer.delete();
    assert_eq!(buffer.get_content(), "b");
    assert_eq!(buffer.cursor(), 0);
}

#[test]
fn edges_are_no_ops() {
    let mut buffer = EditBuffer::new("ab");
    buffer.delete();
    assert_eq!(buffer.get_content(), "ab");
    buffer.move_right();
    assert_eq!(buffer.cursor(), 2);
    buffer.move_left();
    buffer.move_left();
    buffer.move_left();
    assert_eq!(buffer.cursor(), 0);
    buffer.backspace();
    assert_eq!(buffer.get_content(), "ab");
    assert_eq!(buffer.cursor(), 0);
}

#[test]
fn clusters_are_units() {
    let mut buffer = EditBuffer::new("ae\u{301}b");
    assert_eq!(buffer.len(), 3);
    assert_eq!(buffer.cursor(), 3);
    buffer.move_left();
    buffer.backspace();
    assert_eq!(buffer.get_content(), "ab");
    assert_eq!(buffer.cursor(), 1);
}

#[test]
fn empty_text_has_no_clusters() {
    let buffer = EditBuffer::new("");
    assert_eq!(buffer.len(), 0);
    assert_eq!(buffer.get_content(), "");
}
