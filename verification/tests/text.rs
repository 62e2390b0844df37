use rockers::text::{after_last, byte_slice, chars_of, split_once, str_equals};

#[test]
fn split_once_splits_at_the_first_separator() {
    assert_eq!(split_once("a:b:c", ':'), Some(("a".to_owned(), "b:c".to_owned())));
    assert_eq!(split_once(":", ':'), Some(("".to_owned(), "".to_owned())));
    assert_eq!(split_once("abc", ':'), None);
    assert_eq!(split_once("é@ü", '@'), Some(("é".to_owned(), "ü".to_owned())));
}

#[test]
fn after_last_takes_the_last_piece() {
    assert_eq!(after_last("a:b:c", ':'), "c");
    assert_eq!(after_last("abc", ':'), "abc");
    assert_eq!(after_last("abc:", ':'), "");
}

#[test]
fn byte_slice_takes_bytes_between_boundaries() {
    assert_eq!(byte_slice("héllo", 0, 3), "hé");
    assert_eq!(byte_slice("héllo", 3, 6), "llo");
}

#[test]
fn chars_and_equality() {
    assert_eq!(chars_of("hé"), vec!['h', 'é']);
    assert!(str_equals("abc", "abc"));
    assert!(!str_equals("abc", "abd"));
}
