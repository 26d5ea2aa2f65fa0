use pargit::exit_stack::{ExitStack, ExitStackItem, ResultExt};
use pargit::text::{
    find_char, joined, keep_beginning_with, lines, same_text, split_once, stands_more_than,
    starts_with, strip_prefix,
};

#[test]
fn prefixes_are_told_and_stripped() {
    assert!(starts_with("feature/x", "feature/"));
    assert!(starts_with("abc", ""));
    assert!(starts_with("", ""));
    assert!(!starts_with("ab", "abc"));
    assert!(!starts_with("xbc", "abc"));
    assert_eq!(strip_prefix("v1.2.3", "v"), Some("1.2.3".to_string()));
    assert_eq!(strip_prefix("v1.2.3", ""), Some("v1.2.3".to_string()));
    assert_eq!(strip_prefix("v", "v"), Some("".to_string()));
    assert_eq!(strip_prefix("1.2.3", "v"), None);
    assert_eq!(strip_prefix("", "v"), None);
    assert_eq!(strip_prefix("número/ü", "número/"), Some("ü".to_string()));
}

#[test]
fn texts_are_joined_and_compared() {
    assert_eq!(joined("ab", "cd"), "abcd");
    assert_eq!(joined("", ""), "");
    assert!(same_text("abc", "abc"));
    assert!(same_text("", ""));
    assert!(!same_text("abc", "abd"));
    assert!(!same_text("abc", "ab"));
}

#[test]
fn a_text_is_split_at_the_first_separator() {
    assert_eq!(
        split_once("origin/feature/x", '/'),
        Some(("origin".to_string(), "feature/x".to_string()))
    );
    assert_eq!(split_once("/x", '/'), Some(("".to_string(), "x".to_string())));
    assert_eq!(split_once("x/", '/'), Some(("x".to_string(), "".to_string())));
    assert_eq!(split_once("origin", '/'), None);
    assert_eq!(split_once("", '/'), None);
    assert_eq!(find_char("a/b/c", '/', 0), Some(1));
    assert_eq!(find_char("a/b/c", '/', 2), Some(3));
    assert_eq!(find_char("a/b/c", '/', 4), None);
    assert_eq!(find_char("a/b/c", '/', 5), None);
}

#[test]
fn lines_stand_between_line_feeds() {
    let none: Vec<String> = Vec::new();
    assert_eq!(lines(""), none);
    assert_eq!(lines("a"), vec!["a"]);
    assert_eq!(lines("a\n"), vec!["a"]);
    assert_eq!(lines("a\nb"), vec!["a", "b"]);
    assert_eq!(lines("a\n\nb\n"), vec!["a", "", "b"]);
    assert_eq!(lines("\n"), vec![""]);
}

#[test]
fn texts_are_kept_by_their_beginning() {
    let texts = vec!["remote: a".to_string(), "To origin".to_string(), "remote: b".to_string()];
    assert_eq!(keep_beginning_with(texts, "remote:"), vec!["remote: a", "remote: b"]);
    let none: Vec<String> = Vec::new();
    assert_eq!(keep_beginning_with(vec!["x".to_string()], "remote:"), none);
}

fn told(items: Vec<ExitStackItem<u32>>) -> Vec<(String, u32)> {
    items.into_iter().map(|item| (item.msg, item.action)).collect()
}

#[test]
fn what_is_remembered_is_handed_out_newest_first() {
    let mut stack: ExitStack<u32> = ExitStack::new();
    assert!(stack.is_empty());
    stack.remember("first".to_string(), 1);
    stack.remember("second".to_string(), 2);
    stack.remember("third".to_string(), 3);
    assert_eq!(stack.len(), 3);
    assert_eq!(
        told(stack.unwind()),
        vec![("third".to_string(), 3), ("second".to_string(), 2), ("first".to_string(), 1)]
    );
    assert!(stack.is_empty());
    assert_eq!(told(stack.unwind()), Vec::new());
}

#[test]
fn what_is_forgotten_is_not_handed_out() {
    let mut stack: ExitStack<u32> = ExitStack::default();
    stack.remember("first".to_string(), 1);
    stack.remember("second".to_string(), 2);
    stack.forget();
    assert_eq!(stack.len(), 0);
    assert_eq!(told(stack.unwind()), Vec::new());
    stack.remember("again".to_string(), 7);
    assert_eq!(told(stack.unwind()), vec![("again".to_string(), 7)]);
}

#[test]
fn a_failure_can_be_passed_over() {
    let failed: Result<(), String> = Err("no".to_string());
    failed.ignore_errors();
    let fine: Result<(), String> = Ok(());
    fine.ignore_errors();
}

#[test]
fn several_texts_are_joined_in_their_order() {
    assert_eq!(pargit::text::joined3("a", "b", "c"), "abc");
    assert_eq!(pargit::text::joined4("a", "", "c", "d"), "acd");
}

#[test]
fn a_carriage_return_before_a_line_feed_ends_the_line_with_it() {
    assert_eq!(lines("a\r\nb\r\n"), vec!["a", "b"]);
    assert_eq!(lines("a\r\n\r\nb"), vec!["a", "", "b"]);
    assert_eq!(lines("a\rb\nc\r"), vec!["a\rb", "c\r"]);
    assert_eq!(lines("\r\n"), vec![""]);
    assert_eq!(lines("a\r\r\n"), vec!["a\r"]);
    for text in ["", "a", "a\n", "\r", "\r\n\r", "x\r\ny\nz\r\n", "\n\n\r\n", "é\r\n𝄞"] {
        let expected: Vec<String> = text.lines().map(String::from).collect();
        assert_eq!(lines(text), expected, "{:?}", text);
    }
}

#[test]
fn characters_are_counted_against_a_limit() {
    assert!(!stands_more_than("", '-', 0));
    assert!(stands_more_than("-", '-', 0));
    assert!(!stands_more_than("a-b-c", '-', 2));
    assert!(stands_more_than("a-b-c", '-', 1));
    assert!(!stands_more_than(&"-".repeat(255), '-', 255));
    assert!(stands_more_than(&"-".repeat(256), '-', 255));
}
