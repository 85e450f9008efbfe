use english_dict::{get_dict, is_english_word};

#[test]
fn test_common_words() {
    assert!(is_english_word("the"));
    assert!(is_english_word("view"));
    assert!(is_english_word("lists"));
    assert!(is_english_word("about"));
}

#[test]
fn test_case_insensitive() {
    assert!(is_english_word("The"));
    assert!(is_english_word("VIEW"));
    assert!(is_english_word("Lists"));
}

#[test]
fn test_not_english() {
    assert!(!is_english_word("qqq"));
    assert!(!is_english_word("nesu"));
    assert!(!is_english_word("zzzz"));
    assert!(!is_english_word("\u{111}c"));
}

#[test]
fn test_dict_size() {
    assert!(get_dict().len() >= 17000);
}

#[test]
fn test_empty_string_is_not_a_word() {
    assert!(!is_english_word(""));
}

#[test]
fn test_repeated_queries_agree() {
    let first = is_english_word("view");
    assert_eq!(is_english_word("view"), first);
    assert_eq!(is_english_word("view"), first);
    let miss = is_english_word("qqq");
    assert_eq!(is_english_word("qqq"), miss);
}

#[test]
fn test_all_upper_and_mixed_case() {
    assert!(is_english_word("THE"));
    assert!(is_english_word("aBoUt"));
    assert!(is_english_word("ViEw"));
}

#[test]
fn test_punctuation_is_not_trimmed() {
    assert!(!is_english_word("the."));
    assert!(!is_english_word(" the"));
}
