use jarvis::commands::{fetch_command, list, similarity, AssistantCommand, CommandMatch};
use jarvis::config::CMD_RATIO_THRESHOLD;

fn command(path: &str, phrases: &[&str], threshold: Option<u32>, chain: bool) -> AssistantCommand {
    AssistantCommand {
        path: path.to_string(),
        phrases: phrases.iter().map(|s| s.to_string()).collect(),
        threshold,
        chain,
        sounds: vec!["ok1".to_string()],
    }
}

#[test]
fn exact_phrase_matches_with_ratio_100() {
    let table = vec![command("music/on", &["включи музыку"], Some(65), false)];
    let found = fetch_command("включи музыку", &table);
    assert_eq!(found, Some(CommandMatch { index: 0, phrase: 0, ratio: 100 }));
}

#[test]
fn ratio_is_the_share_of_words_found_in_the_phrase() {
    assert_eq!(similarity("включи музыку", "включи музыку"), 100);
    assert_eq!(similarity("включи свет", "включи музыку"), 50);
    assert_eq!(similarity("a b c", "a b"), 66);
    assert_eq!(similarity("x y", "a b"), 0);
    assert_eq!(similarity("", "a b"), 0);
    // A word counts when it stands anywhere in the phrase.
    assert_eq!(similarity("муз", "включи музыку"), 100);
}

#[test]
fn first_entry_wins_over_a_better_later_one() {
    let table = vec![
        command("first", &["open the door now"], Some(60), false),
        command("second", &["open the window"], Some(60), false),
    ];
    // Two of three words occur in the first phrase, all three in the second.
    let found = fetch_command("open the window", &table).unwrap();
    assert_eq!(found, CommandMatch { index: 0, phrase: 0, ratio: 66 });
}

#[test]
fn default_threshold_applies_without_override() {
    assert_eq!(CMD_RATIO_THRESHOLD, 65);
    let table = vec![command("a", &["one two three four five"], None, false)];
    // 3 of 5 words: 60 percent, below the default.
    assert_eq!(fetch_command("one two three x y", &table), None);
    // 2 of 3 words: 66 percent.
    assert_eq!(
        fetch_command("one two x", &table),
        Some(CommandMatch { index: 0, phrase: 0, ratio: 66 })
    );
}

#[test]
fn threshold_is_met_when_equal() {
    let table = vec![command("a", &["one two"], Some(50), false)];
    assert_eq!(
        fetch_command("one x", &table),
        Some(CommandMatch { index: 0, phrase: 0, ratio: 50 })
    );
    let stricter = vec![command("a", &["one two"], Some(51), false)];
    assert_eq!(fetch_command("one x", &stricter), None);
}

#[test]
fn first_qualifying_phrase_of_an_entry_is_reported() {
    let table = vec![command("a", &["alpha", "beta gamma", "beta"], Some(100), true)];
    assert_eq!(
        fetch_command("beta", &table),
        Some(CommandMatch { index: 0, phrase: 1, ratio: 100 })
    );
}

#[test]
fn empty_table_and_no_match() {
    let empty: Vec<AssistantCommand> = Vec::new();
    assert_eq!(fetch_command("anything", &empty), None);
    let table = vec![command("a", &["alpha"], None, false)];
    assert_eq!(fetch_command("omega", &table), None);
}

#[test]
fn list_gives_keys_in_table_order() {
    let table = vec![command("b", &["x"], None, false), command("a", &["y"], None, false)];
    assert_eq!(list(&table), vec!["b".to_string(), "a".to_string()]);
}
