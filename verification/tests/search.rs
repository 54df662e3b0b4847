use cosmic_monitor::search::{search_pattern_text, search_regex};

#[test]
fn search_text_is_escaped() {
    assert_eq!(search_pattern_text("a.b(c)"), "a\\.b\\(c\\)");
    assert_eq!(search_pattern_text("firefox"), "firefox");
    assert_eq!(search_pattern_text("x-y~z#"), "x\\-y\\~z\\#");
    assert_eq!(search_pattern_text(""), "");
}

#[test]
fn empty_search_has_no_regex() {
    assert!(search_regex("").is_none());
}

#[test]
fn search_regex_matches_literally_ignoring_case() {
    let re = search_regex("Fire.fox").expect("compiles");
    assert_eq!(re.pattern(), "Fire\\.fox");
    assert!(re.regex().is_match("my fire.FOX browser"));
    assert!(!re.regex().is_match("firexfox"));
}

#[test]
fn search_regex_keeps_the_escaped_pattern() {
    let re = search_regex("a.b").expect("compiles");
    assert_eq!(re.pattern(), "a\\.b");
    assert!(!re.regex().is_match("axb"));
    assert!(re.regex().is_match("xA.By"));
}

#[test]
fn search_matches_texts_containing_it() {
    let re = search_regex("Fire.fox").expect("compiles");
    assert!(re.is_match("my Fire.fox browser"));
    assert!(re.is_match("FIRE.FOX"));
    assert!(!re.is_match("firexfox"));
    assert!(!re.is_match("fire"));
    let plus = search_regex("c++").expect("compiles");
    assert!(plus.is_match("gcc++ driver"));
    assert!(!plus.is_match("cc"));
}
