use text_editor::editor::{Position, Size};
use text_editor::viewport::scroll;

fn scrolled(offset: (usize, usize), cursor: (usize, usize), size: (u16, u16)) -> (usize, usize) {
    let result = scroll(
        &Position { x: offset.0, y: offset.1 },
        &Position { x: cursor.0, y: cursor.1 },
        &Size { width: size.0, height: size.1 },
    );
    (result.x, result.y)
}

#[test]
fn scroll_leaves_a_visible_cursor_alone() {
    assert_eq!(scrolled((0, 0), (0, 0), (80, 24)), (0, 0));
    assert_eq!(scrolled((0, 0), (79, 23), (80, 24)), (0, 0));
    assert_eq!(scrolled((10, 20), (10, 20), (80, 24)), (10, 20));
    assert_eq!(scrolled((10, 20), (89, 43), (80, 24)), (10, 20));
}

#[test]
fn scroll_up_and_left_puts_the_cursor_in_the_first_cell() {
    assert_eq!(scrolled((10, 20), (9, 19), (80, 24)), (9, 19));
    assert_eq!(scrolled((10, 20), (0, 0), (80, 24)), (0, 0));
    assert_eq!(scrolled((10, 20), (3, 30), (80, 24)), (3, 20));
}

#[test]
fn scroll_down_and_right_puts_the_cursor_in_the_last_cell() {
    assert_eq!(scrolled((0, 0), (80, 24), (80, 24)), (1, 1));
    assert_eq!(scrolled((0, 0), (100, 10), (80, 5)), (21, 6));
    assert_eq!(scrolled((10, 20), (90, 44), (80, 24)), (11, 21));
}

#[test]
fn scroll_does_not_overflow() {
    let max = usize::MAX;
    assert_eq!(scrolled((0, 0), (max, max), (80, 24)), (max - 79, max - 23));
    assert_eq!(scrolled((max, max), (max, max), (80, 24)), (max - 79, max - 23));
    assert_eq!(scrolled((max, max), (0, 5), (80, 24)), (0, 5));
    assert_eq!(scrolled((max - 10, max - 10), (max - 5, max - 5), (80, 24)), (max - 10, max - 10));
}

#[test]
fn scroll_in_a_window_without_cells() {
    assert_eq!(scrolled((5, 5), (3, 3), (0, 0)), (3, 3));
    assert_eq!(scrolled((5, 5), (5, 7), (0, 0)), (6, 8));
    assert_eq!(scrolled((0, 0), (usize::MAX, 0), (0, 0)), (usize::MAX, 1));
}

#[test]
fn scroll_reaches_the_window_in_one_step_and_stays() {
    let offsets = [0usize, 1, 5, 23, 24, 25, 100, usize::MAX - 1, usize::MAX];
    let cursors = [0usize, 1, 4, 5, 6, 23, 24, 99, 100, 101, usize::MAX - 1, usize::MAX];
    for height in [1u16, 2, 5, 24, u16::MAX] {
        for offset in offsets {
            for cursor in cursors {
                let (_, once) = scrolled((0, offset), (0, cursor), (1, height));
                assert!(once <= cursor);
                assert!(cursor - once < height as usize);
                let (_, twice) = scrolled((0, once), (0, cursor), (1, height));
                assert_eq!(twice, once);
            }
        }
    }
}
