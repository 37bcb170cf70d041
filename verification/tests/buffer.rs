use agent_ui::buffer::{BufferSnapshot, Point, MAX_SNAPSHOT_LEN};

fn snapshot(text: &str) -> BufferSnapshot {
    BufferSnapshot::new(text.to_string(), None).unwrap()
}

#[test]
fn test_snapshot_len_and_path() {
    let buffer = BufferSnapshot::new("héllo".to_string(), Some("dir/a.rs".to_string())).unwrap();
    assert_eq!(buffer.len(), 6);
    assert_eq!(buffer.file_path().as_deref(), Some("dir/a.rs"));
    assert_eq!(snapshot("").len(), 0);
    assert_eq!(snapshot("").file_path(), None);
}

#[test]
fn test_snapshot_limit() {
    assert_eq!(MAX_SNAPSHOT_LEN as u64, u32::MAX as u64);
}

#[test]
fn test_offset_to_point() {
    let buffer = snapshot("ab\ncd\n\nef");
    assert_eq!(buffer.offset_to_point(0), Point { row: 0, column: 0 });
    assert_eq!(buffer.offset_to_point(2), Point { row: 0, column: 2 });
    assert_eq!(buffer.offset_to_point(3), Point { row: 1, column: 0 });
    assert_eq!(buffer.offset_to_point(5), Point { row: 1, column: 2 });
    assert_eq!(buffer.offset_to_point(6), Point { row: 2, column: 0 });
    assert_eq!(buffer.offset_to_point(7), Point { row: 3, column: 0 });
    assert_eq!(buffer.offset_to_point(9), Point { row: 3, column: 2 });
}

#[test]
fn test_offset_to_point_behind_the_end_is_the_end() {
    let buffer = snapshot("ab\ncd");
    assert_eq!(buffer.offset_to_point(5), Point { row: 1, column: 2 });
    assert_eq!(buffer.offset_to_point(6), Point { row: 1, column: 2 });
    assert_eq!(buffer.offset_to_point(usize::MAX), Point { row: 1, column: 2 });
    assert_eq!(snapshot("").offset_to_point(3), Point { row: 0, column: 0 });
}

#[test]
fn test_offset_to_point_agrees_with_a_scan() {
    let text = "first\nsecond line\n\nçà et là\nlast";
    let buffer = snapshot(text);
    for offset in 0..=text.len() {
        let before = &text.as_bytes()[..offset];
        let row = before.iter().filter(|b| **b == b'\n').count();
        let column = before.iter().rev().take_while(|b| **b != b'\n').count();
        let point = buffer.offset_to_point(offset);
        assert_eq!((point.row as usize, point.column as usize), (row, column));
    }
}

#[test]
fn test_text_for_range() {
    let buffer = snapshot("ab\ncd");
    assert_eq!(buffer.text_for_range(0, 5).as_deref(), Some("ab\ncd"));
    assert_eq!(buffer.text_for_range(1, 4).as_deref(), Some("b\nc"));
    assert_eq!(buffer.text_for_range(2, 2).as_deref(), Some(""));
    assert_eq!(buffer.text_for_range(5, 5).as_deref(), Some(""));
    assert_eq!(snapshot("").text_for_range(0, 0).as_deref(), Some(""));
}

#[test]
fn test_text_for_range_out_of_order_or_bounds() {
    let buffer = snapshot("ab\ncd");
    assert_eq!(buffer.text_for_range(3, 2), None);
    assert_eq!(buffer.text_for_range(0, 6), None);
    assert_eq!(buffer.text_for_range(6, 6), None);
    assert_eq!(buffer.text_for_range(usize::MAX, usize::MAX), None);
}

#[test]
fn test_text_for_range_keeps_characters_whole() {
    let buffer = snapshot("a€b");
    assert_eq!(buffer.text_for_range(1, 4).as_deref(), Some("€"));
    assert_eq!(buffer.text_for_range(0, 5).as_deref(), Some("a€b"));
    assert_eq!(buffer.text_for_range(1, 2), None);
    assert_eq!(buffer.text_for_range(1, 3), None);
    assert_eq!(buffer.text_for_range(2, 4), None);
    assert_eq!(buffer.text_for_range(3, 5), None);
}
