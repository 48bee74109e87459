use date_proxy::text::{find_char, split_char, strip_prefix};

#[test]
fn split_keeps_empty_pieces() {
    assert_eq!(split_char("a;b;;c", ';'), vec!["a", "b", "", "c"]);
    assert_eq!(split_char("", ';'), vec![""]);
    assert_eq!(split_char(";", ';'), vec!["", ""]);
}

#[test]
fn find_gives_first_position() {
    assert_eq!(find_char("1#2#3", '#'), Some(1));
    assert_eq!(find_char("123", '#'), None);
    assert_eq!(find_char("é#", '#'), Some(1));
}

#[test]
fn strip_prefix_by_characters() {
    assert_eq!(strip_prefix("/api/x", "/api"), Some("/x".to_string()));
    assert_eq!(strip_prefix("/ap", "/api"), None);
    assert_eq!(strip_prefix("/x", ""), Some("/x".to_string()));
}
