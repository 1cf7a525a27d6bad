use guess_game::input::{answer_is_yes, difficulty_from_token};
use guess_game::{difficulty_from_line, parse_guess, wants_replay, Difficulty};

#[test]
fn menu_choices() {
    assert_eq!(difficulty_from_line("1"), Some(Difficulty::Easy));
    assert_eq!(difficulty_from_line(" 2\n"), Some(Difficulty::Medium));
    assert_eq!(difficulty_from_line("\t3 "), Some(Difficulty::Hard));
    assert_eq!(difficulty_from_line("4"), None);
    assert_eq!(difficulty_from_line("12"), None);
    assert_eq!(difficulty_from_line(""), None);
    assert_eq!(difficulty_from_line("easy"), None);
    assert_eq!(difficulty_from_token(" 1"), None);
    assert_eq!(difficulty_from_token("3"), Some(Difficulty::Hard));
}

#[test]
fn guess_lines() {
    assert_eq!(parse_guess("42"), Some(42));
    assert_eq!(parse_guess("  42 \n"), Some(42));
    assert_eq!(parse_guess("+7"), Some(7));
    assert_eq!(parse_guess("007"), Some(7));
    assert_eq!(parse_guess("4294967295"), Some(u32::MAX));
    assert_eq!(parse_guess("4294967296"), None);
    assert_eq!(parse_guess("abc"), None);
    assert_eq!(parse_guess("-1"), None);
    assert_eq!(parse_guess("+"), None);
    assert_eq!(parse_guess(""), None);
    assert_eq!(parse_guess("4 2"), None);
}

#[test]
fn replay_answers() {
    assert!(wants_replay("y"));
    assert!(wants_replay(" Y\n"));
    assert!(!wants_replay("n"));
    assert!(!wants_replay("yes"));
    assert!(!wants_replay(""));
    assert!(answer_is_yes("y"));
    assert!(!answer_is_yes("Y"));
}
