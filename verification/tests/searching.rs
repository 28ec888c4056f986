use terminal::search::{not_found_message, search_file, search_lowered, SearchOutcome};

fn chars_of(s: &str) -> Vec<char> {
    s.chars().collect()
}

fn found(r: SearchOutcome) -> Vec<String> {
    match r {
        SearchOutcome::Found { segments } => segments,
        SearchOutcome::NotFound => panic!("expected a match"),
    }
}

#[test]
fn case_insensitive_match() {
    let segments = found(search_file("Hello World", "world"));
    assert_eq!(segments, vec!["hello world"]);
}

#[test]
fn no_match_reported() {
    assert_eq!(search_file("Hello World", "moon"), SearchOutcome::NotFound);
}

#[test]
fn not_found_line() {
    assert_eq!(not_found_message("moon", "greeting.txt"), "moon not in greeting.txt");
}

#[test]
fn upper_case_term_matches_lower_case_text() {
    let segments = found(search_file("one fish two fish red", "FISH"));
    assert_eq!(segments, vec!["one fish", " two fish", " red"]);
}

#[test]
fn term_at_the_very_end() {
    let segments = found(search_file("abab", "ab"));
    assert_eq!(segments, vec!["ab", "ab"]);
}

#[test]
fn occurrences_do_not_overlap() {
    let segments = found(search_file("aaa", "aa"));
    assert_eq!(segments, vec!["aa", "a"]);
}

#[test]
fn whole_text_is_one_occurrence() {
    let segments = found(search_file("Bee", "bee"));
    assert_eq!(segments, vec!["bee"]);
}

#[test]
fn lowered_search_splits_inclusively() {
    let segments = found(search_lowered(&chars_of("x,y,"), &chars_of(",")));
    assert_eq!(segments, vec!["x,", "y,"]);
    assert_eq!(
        search_lowered(&chars_of("xyz"), &chars_of(",")),
        SearchOutcome::NotFound
    );
}
