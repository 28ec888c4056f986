use terminal::listing::{ls_entry_display, remove_backslashes, replace_backslashes};
use terminal::text::{find_from, tokenize};

#[test]
fn tokenize_splits_on_whitespace() {
    assert_eq!(tokenize("echo hi"), vec!["echo", "hi"]);
    assert_eq!(tokenize("  a \t b\nc  "), vec!["a", "b", "c"]);
    assert_eq!(tokenize("single"), vec!["single"]);
    assert_eq!(tokenize(""), Vec::<String>::new());
    assert_eq!(tokenize(" \t \n"), Vec::<String>::new());
}

#[test]
fn find_first_occurrence() {
    let s: Vec<char> = "abcabc".chars().collect();
    let t: Vec<char> = "bc".chars().collect();
    assert_eq!(find_from(&s, &t, 0), Some(1));
    assert_eq!(find_from(&s, &t, 2), Some(4));
    assert_eq!(find_from(&s, &t, 5), None);
}

#[test]
fn entry_relative_to_cwd() {
    assert_eq!(
        ls_entry_display("/home/me/notes.txt", "/home/me"),
        Some("/notes.txt".to_string())
    );
}

#[test]
fn entry_without_cwd_inside() {
    assert_eq!(ls_entry_display("/elsewhere/notes.txt", "/home/me"), None);
}

#[test]
fn entry_backslashes_removed() {
    assert_eq!(
        ls_entry_display("C:\\Users\\me\\notes.txt", "C:\\Users\\me"),
        Some("notes.txt".to_string())
    );
}

#[test]
fn entry_cut_at_second_occurrence() {
    assert_eq!(ls_entry_display("/a/x/a/y", "/a"), Some("/x".to_string()));
}

#[test]
fn backslash_handling_for_display() {
    let v: Vec<char> = "a\\b\\".chars().collect();
    assert_eq!(replace_backslashes(&v).iter().collect::<String>(), "a/b/");
    assert_eq!(remove_backslashes(&v).iter().collect::<String>(), "ab");
}
