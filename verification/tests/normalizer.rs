use jarvis::app::filter_recognized_voice;
use jarvis::config::assistant_phrases_tbr;
use jarvis::listener::filter_recognized_text;
use jarvis::normalizer::{normalize, strip_and_trim};
use jarvis::text::{
    find_first, from_chars, remove_first, split_lines, split_words, to_chars, trim,
};

fn strings(items: &[&str]) -> Vec<String> {
    items.iter().map(|s| s.to_string()).collect()
}

#[test]
fn test_filter_recognized_voice() {
    let input = "Джарвис включи музыку сэр".to_string();
    let filtered = filter_recognized_voice(input);
    assert_eq!(filtered, "включи музыку");
}

#[test]
fn test_filter_multiple_phrases() {
    // "сэр" is tried before "да сэр", so the longer phrase is not found any more.
    let input = "Джарвис скажи время да сэр".to_string();
    let filtered = filter_recognized_voice(input);
    assert_eq!(filtered, "время да");
}

#[test]
fn longer_filler_tried_first_is_removed_whole() {
    let fillers = strings(&["джарвис", "скажи", "да сэр", "сэр"]);
    assert_eq!(normalize("Джарвис скажи время да сэр", &fillers), "время");
    let shorter_first = strings(&["сэр", "да сэр"]);
    assert_eq!(normalize("время да сэр", &shorter_first), "время да");
}

#[test]
fn normalizer_with_two_fillers() {
    let fillers = strings(&["джарвис", "сэр"]);
    assert_eq!(normalize("джарвис включи музыку сэр", &fillers), "включи музыку");
}

#[test]
fn both_filters_agree() {
    let a = filter_recognized_voice("Джарвис покажи погоду".to_string());
    let b = filter_recognized_text("Джарвис покажи погоду".to_string());
    assert_eq!(a, "погоду");
    assert_eq!(a, b);
}

#[test]
fn normalize_folds_case_before_filtering() {
    let fillers = strings(&["jarvis"]);
    assert_eq!(normalize("JARVIS Open Mail", &fillers), "open mail");
    // Without case folding the filler is not found and nothing is lowered.
    assert_eq!(strip_and_trim("JARVIS Open Mail", &fillers), "JARVIS Open Mail");
}

#[test]
fn only_first_occurrence_is_removed() {
    let fillers = strings(&["сэр"]);
    assert_eq!(normalize("сэр да сэр", &fillers), "да сэр");
}

#[test]
fn filler_is_removed_inside_a_word() {
    let fillers = strings(&["есть"]);
    assert_eq!(normalize("новость дня", &fillers), "новость дня");
    assert_eq!(normalize("поместье", &fillers), "поме");
}

#[test]
fn filler_only_text_becomes_empty() {
    assert_eq!(filter_recognized_voice("  Джарвис сэр ".to_string()), "");
}

#[test]
fn default_filler_list_has_seventeen_phrases_in_order() {
    let list = assistant_phrases_tbr();
    assert_eq!(list.len(), 17);
    assert_eq!(list[0], "джарвис");
    assert_eq!(list[1], "сэр");
    assert_eq!(list[9], "да сэр");
    assert_eq!(list[16], "очень тонкое замечание сэр");
}

#[test]
fn text_helpers_on_given_values() {
    let text = to_chars("  abc abd  ");
    assert_eq!(find_first(&text, &to_chars("ab")), Some(2));
    assert_eq!(find_first(&text, &to_chars("abd")), Some(6));
    assert_eq!(find_first(&text, &to_chars("x")), None);
    assert_eq!(find_first(&text, &to_chars("")), Some(0));
    assert_eq!(from_chars(&remove_first(&text, &to_chars("ab"))), "  c abd  ");
    assert_eq!(from_chars(&trim(&text)), "abc abd");
    assert_eq!(from_chars(&trim(&to_chars(" \t\n\u{3000}"))), "");
    let words: Vec<String> = split_words(&text).iter().map(|w| from_chars(w)).collect();
    assert_eq!(words, vec!["abc".to_string(), "abd".to_string()]);
    assert_eq!(split_words(&to_chars("   ")).len(), 0);
}

#[test]
fn whitespace_is_the_unicode_property() {
    for code in 0u32..0x3100 {
        if let Some(c) = char::from_u32(code) {
            assert_eq!(jarvis::text::char_is_whitespace(c), c.is_whitespace());
        }
    }
}

#[test]
fn lines_end_with_a_line_feed_or_with_return_and_line_feed() {
    let split = |text: &str| -> Vec<String> {
        split_lines(&to_chars(text)).iter().map(|l| from_chars(l)).collect()
    };
    for text in ["a\nb", "a\r\nb\r\n", "\n\nx\n", "a\rb\n", "a\r", "\r\n", "", "x", "a\r\r\nb"] {
        let expected: Vec<String> = text.lines().map(|l| l.to_string()).collect();
        assert_eq!(split(text), expected);
    }
    assert_eq!(split("a\r\nb"), vec!["a", "b"]);
    assert_eq!(split("a\r"), vec!["a\r"]);
}
