use git_account_manager::text::{same_text, text_contains, to_chars};

#[test]
fn to_chars_gives_each_character() {
    assert_eq!(to_chars("ab\n"), vec!['a', 'b', '\n']);
    assert_eq!(to_chars(""), Vec::<char>::new());
    assert_eq!(to_chars("é✓"), vec!['é', '✓']);
}

#[test]
fn same_text_compares_character_for_character() {
    assert!(same_text("acc1", "acc1"));
    assert!(same_text("", ""));
    assert!(!same_text("acc1", "acc2"));
    assert!(!same_text("acc1", "acc"));
    assert!(!same_text("acc", "acc1"));
    assert!(!same_text("Acc1", "acc1"));
}

#[test]
fn text_contains_finds_needle_anywhere() {
    assert!(text_contains("Host a\nHost b\n", "Host a"));
    assert!(text_contains("Host a\nHost b\n", "Host b"));
    assert!(text_contains("xxHost byy", "Host b"));
    assert!(text_contains("Host b", "Host b"));
    assert!(text_contains("abc", "c"));
}

#[test]
fn text_contains_rejects_absent_needle() {
    assert!(!text_contains("Host a\n", "Host b"));
    assert!(!text_contains("", "Host b"));
    assert!(!text_contains("Host", "Host b"));
    assert!(!text_contains("Hos Host", "Host b"));
    assert!(!text_contains("aab", "aba"));
}

#[test]
fn text_contains_regards_case() {
    assert!(!text_contains("host github.com", "Host github.com"));
    assert!(!text_contains("Host GitHub.com", "Host github.com"));
}

#[test]
fn text_contains_empty_needle_is_everywhere() {
    assert!(text_contains("", ""));
    assert!(text_contains("abc", ""));
}

#[test]
fn text_contains_handles_repeats_and_wide_characters() {
    assert!(text_contains("aaab", "aab"));
    assert!(text_contains("ünïcödé host", "cödé"));
    assert!(!text_contains("ünïcödé host", "code"));
}

#[test]
fn text_contains_agrees_with_std_on_samples() {
    let hays = ["", "a", "ab", "aab", "abab", "Host x\n    Host y", "\nHost github.com-acc1\n"];
    let needles = ["", "a", "b", "ab", "ba", "bab", "Host x", "Host y", "Host github.com-acc1"];
    for hay in hays.iter() {
        for needle in needles.iter() {
            assert_eq!(text_contains(hay, needle), hay.contains(needle), "{:?} in {:?}", needle, hay);
        }
    }
}
