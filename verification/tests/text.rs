use lb_janitor::text::{after_first, chars_of, contains, field, last_field, same};

#[test]
fn chars_are_listed_in_order() {
    assert_eq!(chars_of("aé:"), vec!['a', 'é', ':']);
    assert!(chars_of("").is_empty());
}

#[test]
fn field_counts_from_zero() {
    assert_eq!(field("a:b:c", ':', 0), Some("a".to_string()));
    assert_eq!(field("a:b:c", ':', 1), Some("b".to_string()));
    assert_eq!(field("a:b:c", ':', 2), Some("c".to_string()));
    assert_eq!(field("a:b:c", ':', 3), None);
}

#[test]
fn text_without_separator_is_one_field() {
    assert_eq!(field("abc", ':', 0), Some("abc".to_string()));
    assert_eq!(field("abc", ':', 1), None);
    assert_eq!(field("", ':', 0), Some(String::new()));
    assert_eq!(field("", ':', 1), None);
}

#[test]
fn empty_fields_count() {
    assert_eq!(field(":", ':', 0), Some(String::new()));
    assert_eq!(field(":", ':', 1), Some(String::new()));
    assert_eq!(field(":", ':', 2), None);
    assert_eq!(field("a::b", ':', 1), Some(String::new()));
    assert_eq!(field("a::b", ':', 2), Some("b".to_string()));
    assert_eq!(field("a:", ':', 1), Some(String::new()));
}

#[test]
fn field_agrees_with_std_split() {
    for text in ["", ":", "a", "a:b", "::", "arn:aws:iam::1:role/x", "é:ü:", ":x:"] {
        let parts: Vec<&str> = text.split(':').collect();
        for k in 0..parts.len() + 2 {
            assert_eq!(field(text, ':', k), parts.get(k).map(|p| p.to_string()));
        }
    }
}

#[test]
fn last_field_follows_the_last_separator() {
    assert_eq!(last_field("a:b:c", ':'), "c");
    assert_eq!(last_field("abc", ':'), "abc");
    assert_eq!(last_field("a:", ':'), "");
    assert_eq!(last_field("", ':'), "");
    assert_eq!(last_field(":é", ':'), "é");
}

#[test]
fn after_first_keeps_later_separators() {
    assert_eq!(after_first("app/my-alb/50dc", '/'), "my-alb/50dc");
    assert_eq!(after_first("a/b", '/'), "b");
    assert_eq!(after_first("/b/", '/'), "b/");
}

#[test]
fn after_first_is_empty_without_separator() {
    assert_eq!(after_first("abc", '/'), "");
    assert_eq!(after_first("", '/'), "");
    assert_eq!(after_first("abc/", '/'), "");
}

#[test]
fn after_first_agrees_with_skip_and_join() {
    for text in ["", "/", "a", "a/b", "//", "x/y/z", "é/ü/"] {
        let expected = text.split('/').skip(1).collect::<Vec<&str>>().join("/");
        assert_eq!(after_first(text, '/'), expected);
    }
}

#[test]
fn contains_finds_a_run_anywhere() {
    assert!(contains("loadbalancer/net/x", "loadbalancer/net"));
    assert!(contains("xxloadbalancer/net", "loadbalancer/net"));
    assert!(contains("abc", "b"));
    assert!(contains("abc", "abc"));
    assert!(contains("aab", "ab"));
}

#[test]
fn contains_rejects_what_is_absent() {
    assert!(!contains("abc", "abcd"));
    assert!(!contains("abc", "ac"));
    assert!(!contains("", "a"));
    assert!(!contains("loadbalancer/ne", "loadbalancer/net"));
}

#[test]
fn empty_pattern_occurs_everywhere() {
    assert!(contains("abc", ""));
    assert!(contains("", ""));
}

#[test]
fn same_compares_characters() {
    assert!(same("list", "list"));
    assert!(same("", ""));
    assert!(!same("list", "List"));
    assert!(!same("list", "lis"));
    assert!(!same("lis", "list"));
}
