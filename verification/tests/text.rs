use dictation::formatter::{emit, Formatter, Injection};
use dictation::paths::{components, path_has_base, paths_equal};
use dictation::text::{parse_decimal, split_words};

#[test]
fn first_utterance_is_capitalized_and_later_ones_spaced() {
    let mut f = Formatter::new();
    assert_eq!(f.format("  hello there "), Some("Hello there".to_string()));
    assert_eq!(f.format("again"), Some("again".to_string()));
    assert_eq!(f.format("   "), None);
}

#[test]
fn rolling_updates_only_retype_what_changed() {
    let mut f = Formatter::new();
    let mut typed = String::new();
    match emit(&mut f, &mut typed, "hello wor", true) {
        Injection::Type(t) => assert_eq!(t, "Hello wor"),
        other => panic!("{other:?}"),
    }
    match emit(&mut f, &mut typed, "hello world", false) {
        Injection::Revise(n, t) => {
            assert_eq!(n, 0);
            assert_eq!(t, "ld");
        }
        other => panic!("{other:?}"),
    }
    match emit(&mut f, &mut typed, "hello there", false) {
        Injection::Revise(n, t) => {
            assert_eq!(n, 5);
            assert_eq!(t, "there");
        }
        other => panic!("{other:?}"),
    }
    assert!(matches!(emit(&mut f, &mut typed, "hello there", false), Injection::Nothing));
    assert_eq!(typed, "hello there");
}

#[test]
fn paths_compare_by_components() {
    assert_eq!(components("/a//b/./c/"), ["/", "a", "b", "c"]);
    assert_eq!(components("./x/.."), [".", "x", ".."]);
    assert!(components("").is_empty());
    assert!(paths_equal("/a/b", "/a//b/"));
    assert!(!paths_equal("a/b", "/a/b"));
    assert!(path_has_base("/r/models/x", "/r/models"));
    assert!(!path_has_base("/r/modelsx", "/r/models"));
}

#[test]
fn numbers_and_words() {
    assert_eq!(parse_decimal("+12"), Some(12));
    assert_eq!(parse_decimal("18446744073709551615"), Some(u64::MAX));
    assert_eq!(parse_decimal("18446744073709551616"), None);
    assert_eq!(parse_decimal(""), None);
    assert_eq!(split_words("  MemAvailable:\t 123 kB "), ["MemAvailable:", "123", "kB"]);
}
