use english_dict::dict::EnglishDict;
use english_dict::parse::parse_words;

#[test]
fn test_parse_keeps_words_in_order() {
    let words = parse_words("alpha\nbeta\ngamma\n");
    assert_eq!(words.len(), 3);
    assert_eq!(words[0], "alpha");
    assert_eq!(words[1], "beta");
    assert_eq!(words[2], "gamma");
}

#[test]
fn test_parse_ignores_blank_lines() {
    let words = parse_words("\nalpha\n\n\nbeta\n\n");
    assert_eq!(words.len(), 2);
    assert_eq!(words[0], "alpha");
    assert_eq!(words[1], "beta");
}

#[test]
fn test_parse_empty_text() {
    assert_eq!(parse_words("").len(), 0);
    assert_eq!(parse_words("\n\n\n").len(), 0);
}

#[test]
fn test_parse_without_trailing_newline() {
    let words = parse_words("alpha\nbeta");
    assert_eq!(words.len(), 2);
    assert_eq!(words[1], "beta");
}

#[test]
fn test_parse_non_ascii_text() {
    let words = parse_words("caf\u{e9}\nna\u{ef}ve\n");
    assert_eq!(words.len(), 2);
    assert_eq!(words[0], "caf\u{e9}");
    assert_eq!(words[1], "na\u{ef}ve");
}

#[test]
fn test_index_matches_exactly_without_folding() {
    let dict = EnglishDict::from_text("the\nview\n");
    assert_eq!(dict.len(), 2);
    assert!(dict.contains(&String::from("the")));
    assert!(dict.contains(&String::from("view")));
    assert!(!dict.contains(&String::from("The")));
    assert!(!dict.contains(&String::from("")));
}

#[test]
fn test_index_counts_only_nonempty_lines() {
    let dict = EnglishDict::from_text("a\n\nb\n\n\nc");
    assert_eq!(dict.len(), 3);
}

#[test]
fn test_query_folds_the_token_only() {
    let dict = EnglishDict::from_text("the\nview\n");
    assert!(dict.query("The"));
    assert!(dict.query("VIEW"));
    assert!(!dict.query("views"));
    assert!(!dict.query(""));
}

#[test]
fn test_index_keeps_entries_verbatim() {
    let dict = EnglishDict::from_text("mixedCase\n");
    assert!(dict.contains(&String::from("mixedCase")));
    assert!(!dict.contains(&String::from("mixedcase")));
}
