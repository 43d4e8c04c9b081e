use drop_capture::region::{parse_area, parse_selection, SelectionError};
use drop_capture::text::{decimal_string, parse_u32, split_words};

#[test]
fn parses_six_tokens_in_order() {
    let r = parse_selection("100 50 200 300 200x300+100+50 1").unwrap();
    assert_eq!(r.x, 100);
    assert_eq!(r.y, 50);
    assert_eq!(r.width, 200);
    assert_eq!(r.height, 300);
    assert_eq!(r.geometry, "200x300+100+50");
    assert_eq!(r.selection_id, "1");
}

#[test]
fn parses_tokens_split_by_lines_and_trailing_newline() {
    let r = parse_selection("  7\n8\t9 10\n10x9+7+8 42\n").unwrap();
    assert_eq!((r.x, r.y, r.width, r.height), (7, 8, 9, 10));
    assert_eq!(r.geometry, "10x9+7+8");
    assert_eq!(r.selection_id, "42");
}

#[test]
fn cancel_token_wins_over_other_tokens() {
    assert!(matches!(parse_selection("Cancel"), Err(SelectionError::Cancelled)));
    assert!(matches!(
        parse_selection("100 50 200 300 200x300+100+50 Cancel"),
        Err(SelectionError::Cancelled)
    ));
    assert!(matches!(parse_selection("x y Cancel"), Err(SelectionError::Cancelled)));
}

#[test]
fn malformed_outputs_are_errors_not_cancellations() {
    assert!(matches!(parse_selection(""), Err(SelectionError::Malformed)));
    assert!(matches!(parse_selection("1 2 3 4 5"), Err(SelectionError::Malformed)));
    assert!(matches!(parse_selection("1 2 3 4 5 6 7"), Err(SelectionError::Malformed)));
    assert!(matches!(parse_selection("a 2 3 4 g 6"), Err(SelectionError::Malformed)));
    assert!(matches!(parse_selection("-1 2 3 4 g 6"), Err(SelectionError::Malformed)));
    assert!(matches!(parse_selection("1 2 3 4294967296 g 6"), Err(SelectionError::Malformed)));
    assert!(matches!(parse_selection("cancel 2 3 4 g"), Err(SelectionError::Malformed)));
}

#[test]
fn largest_coordinate_is_accepted() {
    let r = parse_selection("4294967295 0 1 1 g i").unwrap();
    assert_eq!(r.x, 4294967295);
}

#[test]
fn wayland_area_is_rejoined() {
    assert_eq!(parse_area("10,20 300x200\n").unwrap(), "10,20 300x200");
    assert!(matches!(parse_area("10,20"), Err(SelectionError::Malformed)));
    assert!(matches!(parse_area("Cancel"), Err(SelectionError::Cancelled)));
}

#[test]
fn words_and_numbers() {
    assert_eq!(split_words(" a  bc\nd "), vec!["a".to_string(), "bc".to_string(), "d".to_string()]);
    assert!(split_words("   ").is_empty());
    assert_eq!(parse_u32("0042"), Some(42));
    assert_eq!(parse_u32(""), None);
    assert_eq!(parse_u32("4x"), None);
    assert_eq!(decimal_string(0), "0");
    assert_eq!(decimal_string(1234567890123), "1234567890123");
}
