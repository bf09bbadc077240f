use uuidof::text::{chars_of, contains_chars};

fn contains(hay: &str, needle: &str) -> bool {
    contains_chars(&chars_of(hay), &chars_of(needle))
}

#[test]
fn chars_of_examples() {
    assert_eq!(chars_of(""), Vec::<char>::new());
    assert_eq!(chars_of("sda1"), vec!['s', 'd', 'a', '1']);
    assert_eq!(chars_of("µ✓"), vec!['µ', '✓']);
}

#[test]
fn contains_chars_examples() {
    assert!(contains("../../sda1", "sda1"));
    assert!(contains("../../sda10", "sda1"));
    assert!(contains("sda1", "sda1"));
    assert!(contains("sda1", "s"));
    assert!(contains("sda1", "1"));
    assert!(!contains("../../sda1", "sda2"));
    assert!(!contains("sda", "sda1"));
    assert!(!contains("", "a"));
    assert!(!contains("aab", "aba"));
    assert!(contains("aaab", "aab"));
}

#[test]
fn contains_chars_empty_needle() {
    assert!(contains("", ""));
    assert!(contains("abc", ""));
}

#[test]
fn contains_chars_agrees_with_std() {
    let hays = ["", "a", "ab", "abab", "aaab", "../../sda10", "µ✓µ", "total 0"];
    let needles = ["", "a", "b", "ab", "ba", "aab", "bab", "sda1", "✓µ", "✓✓", "0", "total 0 "];
    for hay in hays {
        for needle in needles {
            assert_eq!(contains(hay, needle), hay.contains(needle), "{:?} in {:?}", needle, hay);
        }
    }
}
