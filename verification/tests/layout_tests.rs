use rit::layout::{area_fits, make_cursor_aiming, Area, Position};

fn area(x: u16, y: u16, width: u16, height: u16) -> Area {
    Area { x, y, width, height }
}

#[test]
fn cursor_follows_the_text_on_one_row() {
    let a = area(10, 5, 20, 6);
    assert_eq!(make_cursor_aiming(a, 0, "hello"), Position { x: 11, y: 6 });
    assert_eq!(make_cursor_aiming(a, 3, "hello"), Position { x: 14, y: 6 });
    assert_eq!(make_cursor_aiming(a, 5, "hello"), Position { x: 16, y: 6 });
}

#[test]
fn line_feed_opens_a_row() {
    let a = area(0, 0, 20, 6);
    assert_eq!(make_cursor_aiming(a, 3, "ab\ncd"), Position { x: 1, y: 2 });
    assert_eq!(make_cursor_aiming(a, 5, "ab\ncd"), Position { x: 3, y: 2 });
    assert_eq!(make_cursor_aiming(a, 4, "a\n\n\nb"), Position { x: 1, y: 4 });
}

#[test]
fn long_text_wraps_at_the_inner_width() {
    // Five cells wide with a border: three inside.
    let a = area(0, 0, 5, 10);
    assert_eq!(make_cursor_aiming(a, 3, "abcdefg"), Position { x: 3, y: 1 });
    assert_eq!(make_cursor_aiming(a, 4, "abcdefg"), Position { x: 2, y: 2 });
    assert_eq!(make_cursor_aiming(a, 6, "abcdefg"), Position { x: 3, y: 2 });
    assert_eq!(make_cursor_aiming(a, 7, "abcdefg"), Position { x: 2, y: 3 });
}

#[test]
fn cursor_stays_inside_the_box() {
    // One row and four columns inside.
    let a = area(2, 3, 6, 3);
    assert_eq!(make_cursor_aiming(a, 4, "abcd"), Position { x: 6, y: 4 });
    assert_eq!(make_cursor_aiming(a, 8, "a\nb\nc\nd\n"), Position { x: 3, y: 4 });
    assert_eq!(make_cursor_aiming(a, 9, "abcdefghi"), Position { x: 4, y: 4 });
}

#[test]
fn box_without_room_inside() {
    assert_eq!(make_cursor_aiming(area(4, 4, 2, 2), 3, "abc"), Position { x: 5, y: 5 });
    assert_eq!(make_cursor_aiming(area(4, 4, 0, 0), 2, "abc"), Position { x: 5, y: 5 });
    assert_eq!(make_cursor_aiming(area(4, 4, 1, 1), 0, ""), Position { x: 5, y: 5 });
}

#[test]
fn cursor_counts_characters_not_bytes() {
    let a = area(0, 0, 20, 6);
    assert_eq!(make_cursor_aiming(a, 2, "é→x"), Position { x: 3, y: 1 });
}

#[test]
fn area_at_the_edge_of_the_coordinates() {
    assert!(area_fits(area(0, 0, 80, 24)));
    assert!(area_fits(area(65534, 65534, 1, 1)));
    assert!(area_fits(area(0, 0, 65535, 65535)));
    assert!(!area_fits(area(65535, 0, 0, 0)));
    assert!(!area_fits(area(0, 65535, 0, 0)));
    assert!(!area_fits(area(65534, 0, 2, 1)));
    assert!(!area_fits(area(0, 1, 1, 65535)));
    assert_eq!(make_cursor_aiming(area(65534, 65534, 1, 1), 0, ""), Position {
        x: 65535,
        y: 65535
    });
    assert_eq!(make_cursor_aiming(area(65515, 0, 20, 3), 30, &"x".repeat(30)), Position {
        x: 65528,
        y: 1
    });
    assert_eq!(make_cursor_aiming(area(65515, 0, 20, 3), 18, &"x".repeat(30)), Position {
        x: 65533,
        y: 1
    });
}
