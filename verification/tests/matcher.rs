use line_matcher::CompileError;
use line_matcher::ExtendedRegexpMatcher;
use line_matcher::FixedStringMatcher;
use line_matcher::Matcher;
use line_matcher::MatcherTrait;

#[test]
fn text_extended_regexp_matcher() {
    let matcher = Matcher::new("c".to_string(), false).unwrap();
    assert_eq!(true, matcher.execute("abcdefg"));
    let matcher = Matcher::new("fg".to_string(), false).unwrap();
    assert_eq!(true, matcher.execute("abcedefg"));
    let matcher = Matcher::new("Z".to_string(), false).unwrap();
    assert_eq!(false, matcher.execute("abcdefg"));
    let matcher = Matcher::new("a.c".to_string(), false).unwrap();
    assert_eq!(true, matcher.execute("abcdefg"));
    let matcher = Matcher::new("a+.b+".to_string(), false).unwrap();
    assert_eq!(true, matcher.execute("aaa bbb"));
    let matcher = Matcher::new("[aA][bB][cC]".to_string(), false).unwrap();
    assert_eq!(true, matcher.execute("aBc"));
    assert_eq!(true, matcher.execute("Abc"));
}

#[test]
fn text_fixed_string_matcher() {
    let matcher = Matcher::new("c".to_string(), true).unwrap();
    assert_eq!(true, matcher.execute("abcdefg"));
    assert_eq!(true, matcher.execute("cccc"));
    let matcher = Matcher::new("fg".to_string(), true).unwrap();
    assert_eq!(true, matcher.execute("abcdefg"));
    let matcher = Matcher::new("Z".to_string(), true).unwrap();
    assert_eq!(false, matcher.execute("abcdefg"));
    let matcher = Matcher::new("a.c".to_string(), true).unwrap();
    assert_eq!(false, matcher.execute("abcdefg"));
    let matcher = Matcher::new("a+.b+".to_string(), true).unwrap();
    assert_eq!(false, matcher.execute("aaa bbb"));
    let matcher = Matcher::new("[aA][bB][cC]".to_string(), true).unwrap();
    assert_eq!(false, matcher.execute("aBc"));
}

#[test]
fn fixed_mode_never_fails() {
    // Any pattern is a legal literal needle, including text that would be
    // invalid as a regular expression.
    for pattern in ["", "a.c", "a+.b+", "[abc", "foo(bar", "\\", "x{2,1}"] {
        assert!(Matcher::new(pattern.to_string(), true).is_ok());
    }
}

#[test]
fn literal_substring_containment() {
    let matcher = FixedStringMatcher::new("lo w".to_string());
    assert_eq!(true, matcher.execute("hello world"));
    assert_eq!(false, matcher.execute("hello_world"));
    // Metacharacters are taken verbatim.
    let matcher = FixedStringMatcher::new("[aA][bB][cC]".to_string());
    assert_eq!(true, matcher.execute("see [aA][bB][cC] here"));
    assert_eq!(false, matcher.execute("aBc"));
}

#[test]
fn literal_empty_pattern_and_empty_line() {
    // The empty pattern is contained in every line, the empty one included.
    let empty_needle = FixedStringMatcher::new("".to_string());
    assert_eq!(true, empty_needle.execute(""));
    assert_eq!(true, empty_needle.execute("abcdefg"));
    // An empty line contains only the empty pattern.
    let nonempty_needle = FixedStringMatcher::new("a".to_string());
    assert_eq!(false, nonempty_needle.execute(""));
}

#[test]
fn extended_matcher_direct() {
    let matcher = ExtendedRegexpMatcher::new("l+o".to_string()).unwrap();
    assert_eq!(true, matcher.execute("hello"));
    assert_eq!(false, matcher.execute("help"));
}

#[test]
fn construction_determinism() {
    let lines = ["", "abcdefg", "aaa bbb", "aBc", "a.c"];
    for mode in [true, false] {
        for pattern in ["a.c", "c", "[aA][bB][cC]"] {
            let first = Matcher::new(pattern.to_string(), mode).unwrap();
            let second = Matcher::new(pattern.to_string(), mode).unwrap();
            for line in lines {
                assert_eq!(first.execute(line), second.execute(line));
            }
        }
    }
}

#[test]
fn mode_divergence_on_metacharacters() {
    let literal = Matcher::new("a.c".to_string(), true).unwrap();
    let pattern = Matcher::new("a.c".to_string(), false).unwrap();
    assert_eq!(false, literal.execute("abcdefg"));
    assert_eq!(true, pattern.execute("abcdefg"));
    assert_eq!(true, literal.execute("xa.cx"));
    assert_eq!(true, pattern.execute("xa.cx"));
}

#[test]
fn case_sensitive_by_default() {
    for mode in [true, false] {
        let matcher = Matcher::new("Z".to_string(), mode).unwrap();
        assert_eq!(false, matcher.execute("abcdefg"));
        let matcher = Matcher::new("z".to_string(), mode).unwrap();
        assert_eq!(true, matcher.execute("xyz"));
    }
}

#[test]
fn invalid_pattern_rejected_at_construction() {
    // An unterminated character class.
    let err: CompileError = match Matcher::new("[abc".to_string(), false) {
        Ok(_) => panic!("an unterminated character class must not compile"),
        Err(e) => e,
    };
    assert_eq!("[abc", err.pattern);
    // An unclosed group.
    assert!(Matcher::new("foo(bar".to_string(), false).is_err());
    assert!(ExtendedRegexpMatcher::new("foo(bar".to_string()).is_err());
    // A malformed repetition.
    assert!(Matcher::new("*leading".to_string(), false).is_err());
}
