use lessons::game::{compare_guess, parse_guess, Feedback, Game};

#[test]
fn scenario_secret_42() {
    let mut game = Game::new(42);
    assert_eq!(game.secret(), 42);
    assert!(!game.is_done());

    assert_eq!(game.submit_line("10"), Some(Feedback::TooSmall));
    assert!(!game.is_done());
    assert_eq!(game.secret(), 42);

    assert_eq!(game.submit_line("abc"), None);
    assert!(!game.is_done());
    assert_eq!(game.secret(), 42);

    assert_eq!(game.submit_line("90"), Some(Feedback::TooBig));
    assert!(!game.is_done());
    assert_eq!(game.secret(), 42);

    assert_eq!(game.submit_line("42"), Some(Feedback::Win));
    assert!(game.is_done());
    assert_eq!(game.secret(), 42);
}

#[test]
fn non_matching_guesses_leave_the_game_alone() {
    let mut game = Game::new(7);
    for line in ["1", "100", "7 7", "seven", "6", "8", ""] {
        game.submit_line(line);
        assert_eq!(game.secret(), 7);
        assert!(!game.is_done());
    }
    assert_eq!(game.submit_line("7"), Some(Feedback::Win));
    assert!(game.is_done());
    assert_eq!(game.secret(), 7);
}

#[test]
fn unparsable_input_changes_nothing() {
    let mut game = Game::new(50);
    assert_eq!(game.submit_line(""), None);
    assert_eq!(game.submit_line("   "), None);
    assert_eq!(game.submit_line("12a"), None);
    assert_eq!(game.submit_line("a12"), None);
    assert_eq!(game.submit_line("1 2"), None);
    assert_eq!(game.submit_line("-5"), None);
    assert_eq!(game.submit_line("+5"), None);
    assert!(!game.is_done());
    assert_eq!(game.secret(), 50);
}

#[test]
fn random_secret_is_in_range() {
    for _ in 0..50 {
        let game = Game::with_random_secret();
        assert!((1..=100).contains(&game.secret()));
        assert!(!game.is_done());
    }
}

#[test]
fn parse_accepts_trimmed_digits() {
    assert_eq!(parse_guess("42"), Some(42));
    assert_eq!(parse_guess(" 42\n"), Some(42));
    assert_eq!(parse_guess("\t007\r\n"), Some(7));
    assert_eq!(parse_guess("0"), Some(0));
    assert_eq!(parse_guess("4294967295"), Some(u32::MAX));
}

#[test]
fn parse_rejects_everything_else() {
    assert_eq!(parse_guess(""), None);
    assert_eq!(parse_guess(" \t\r\n"), None);
    assert_eq!(parse_guess("abc"), None);
    assert_eq!(parse_guess("4 2"), None);
    assert_eq!(parse_guess("4294967296"), None);
    assert_eq!(parse_guess("99999999999999999999999999"), None);
    assert_eq!(parse_guess("1e3"), None);
}

#[test]
fn comparisons() {
    assert_eq!(compare_guess(10, 42), Feedback::TooSmall);
    assert_eq!(compare_guess(90, 42), Feedback::TooBig);
    assert_eq!(compare_guess(42, 42), Feedback::Win);
}

#[test]
fn a_won_game_stays_won() {
    let mut game = Game::new(3);
    assert_eq!(game.submit_line("3"), Some(Feedback::Win));
    assert_eq!(game.submit_line("5"), Some(Feedback::TooBig));
    assert!(game.is_done());
}
