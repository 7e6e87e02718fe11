use std::collections::HashSet;
use tg_ai_moderator::cas::{accept_line, parse_user_id, read_ban_list, LineOutcome};

#[test]
fn identifiers_are_read() {
    assert_eq!(parse_user_id("0"), Some(0));
    assert_eq!(parse_user_id("42"), Some(42));
    assert_eq!(parse_user_id("007"), Some(7));
    assert_eq!(parse_user_id("+5"), Some(5));
    assert_eq!(parse_user_id("18446744073709551615"), Some(u64::MAX));
}

#[test]
fn what_is_no_identifier_is_refused() {
    for line in ["", "+", "-5", " 5", "5 ", "5a", "a", "1.0", "++5", "18446744073709551616", "99999999999999999999999", "٣"] {
        assert_eq!(parse_user_id(line), None, "{line:?}");
    }
}

#[test]
fn identifiers_agree_with_std() {
    for line in ["0", "1", "+1", "-1", "+", "", "000", "18446744073709551615", "18446744073709551616", "1844674407370955161", "184467440737095516150", "12x", "x12", "1 2", "+-1", "1+"] {
        assert_eq!(parse_user_id(line), line.parse::<u64>().ok(), "{line:?}");
    }
}

#[test]
fn lines_are_taken_one_by_one() {
    let mut ids: HashSet<u64> = HashSet::new();
    assert_eq!(accept_line(&mut ids, "12"), LineOutcome::Listed(12));
    assert_eq!(accept_line(&mut ids, ""), LineOutcome::Blank);
    assert_eq!(accept_line(&mut ids, "user_id"), LineOutcome::Unparseable);
    assert_eq!(accept_line(&mut ids, "12"), LineOutcome::Listed(12));
    assert_eq!(accept_line(&mut ids, "13"), LineOutcome::Listed(13));
    assert_eq!(ids, HashSet::from([12, 13]));
}

#[test]
fn whole_export_is_read() {
    assert_eq!(read_ban_list("1\n2\n3\n"), HashSet::from([1, 2, 3]));
    assert_eq!(read_ban_list("1\n2\n3"), HashSet::from([1, 2, 3]));
    assert_eq!(read_ban_list("1\r\n2\r\n"), HashSet::from([1, 2]));
    assert_eq!(read_ban_list("1\n\n\nfoo\n2\n1\n"), HashSet::from([1, 2]));
    assert_eq!(read_ban_list(""), HashSet::new());
    assert_eq!(read_ban_list("\n"), HashSet::new());
    assert_eq!(read_ban_list("\r"), HashSet::new());
    assert_eq!(read_ban_list("5\r"), HashSet::from([5]));
    assert_eq!(read_ban_list("5\r\r\n6"), HashSet::from([6]));
}

#[test]
fn whole_export_agrees_with_line_by_line_reading() {
    let text = "10\n+11\r\n\nx\n 12\n13 \n14\r\n15";
    let mut expected: HashSet<u64> = HashSet::new();
    for line in text.lines() {
        accept_line(&mut expected, line);
    }
    assert_eq!(read_ban_list(text), expected);
    assert_eq!(expected, HashSet::from([10, 11, 14, 15]));
}
