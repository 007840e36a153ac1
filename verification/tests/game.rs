use guessing_game::app_data::AppData;
use guessing_game::game::Feedback;
use guessing_game::game::GameData;
use guessing_game::game::GameError;
use guessing_game::numeral::format_int;
use guessing_game::numeral::parse_int;

#[test]
fn scenario_forced_secret() {
    let mut g = GameData::new_with_secret(10, [1, 50], 25);
    assert_eq!(g.submit_guess("10"), Feedback::TooLow);
    assert_eq!(g.get_no_guess(), 9);
    assert_eq!(g.submit_guess("40"), Feedback::TooHigh);
    assert_eq!(g.get_no_guess(), 8);
    assert_eq!(g.submit_guess("25"), Feedback::Correct);
    assert!(g.game_won());
    assert!(g.end());
}

#[test]
fn scenario_single_attempt_lost() {
    let mut g = GameData::new_with_secret(1, [1, 10], 5);
    assert_eq!(g.submit_guess("6"), Feedback::TooHigh);
    assert_eq!(g.get_no_guess(), 0);
    assert!(g.end());
    assert!(!g.game_won());
    assert!(g.game_lost());
}

#[test]
fn scenario_restart_after_loss() {
    let mut g = GameData::new_with_secret(1, [1, 10], 5);
    g.submit_guess("6");
    assert!(g.end());
    g.restart(1);
    assert_eq!(g.get_no_guess(), 1);
    assert!(!g.game_won());
    assert!(!g.end());
}

#[test]
fn empty_guess_is_pending() {
    let mut g = GameData::new_with_secret(3, [1, 10], 7);
    assert_eq!(g.submit_guess(""), Feedback::Pending);
    assert_eq!(g.get_no_guess(), 3);
    assert!(!g.game_won());
    assert_eq!(g.submit_guess(""), Feedback::Pending);
    assert_eq!(g.get_no_guess(), 3);
    assert_eq!(g.submit_guess("7"), Feedback::Correct);
    assert_eq!(g.submit_guess(""), Feedback::Pending);
    assert!(g.game_won());
}

#[test]
fn secret_always_in_range() {
    for _ in 0..20 {
        let mut g = GameData::new(5, [1, 3]);
        let mut found = false;
        for v in ["1", "2", "3"] {
            if g.submit_guess(v) == Feedback::Correct {
                found = true;
                break;
            }
        }
        assert!(found);
    }
    for _ in 0..10 {
        let mut g = GameData::new(2, [42, 42]);
        assert_eq!(g.submit_guess("42"), Feedback::Correct);
    }
}

#[test]
fn feedback_classification() {
    let mut g = GameData::new_with_secret(10, [1, 100], 50);
    assert_eq!(g.submit_guess("49"), Feedback::TooLow);
    assert_eq!(g.get_no_guess(), 9);
    assert_eq!(g.submit_guess("51"), Feedback::TooHigh);
    assert_eq!(g.get_no_guess(), 8);
    assert_eq!(g.submit_guess("50"), Feedback::Correct);
    assert_eq!(g.get_no_guess(), 8);
}

#[test]
fn invalid_input_rejected() {
    let mut g = GameData::new_with_secret(5, [1, 10], 5);
    assert_eq!(g.submit_guess("abc"), Feedback::InvalidInput);
    assert_eq!(g.submit_guess("1.5"), Feedback::InvalidInput);
    assert_eq!(g.submit_guess(" 5"), Feedback::InvalidInput);
    assert_eq!(g.submit_guess("99999999999999999999"), Feedback::InvalidInput);
    assert_eq!(g.get_no_guess(), 5);
    assert!(!g.end());
}

#[test]
fn round_over_guard() {
    let mut g = GameData::new_with_secret(1, [1, 10], 5);
    assert_eq!(g.submit_guess("1"), Feedback::TooLow);
    assert!(g.end());
    assert_eq!(g.submit_guess("5"), Feedback::RoundOver);
    assert_eq!(g.get_no_guess(), 0);
    assert!(!g.game_won());

    let mut w = GameData::new_with_secret(4, [1, 10], 5);
    assert_eq!(w.submit_guess("5"), Feedback::Correct);
    assert!(w.end());
    assert_eq!(w.submit_guess("5"), Feedback::RoundOver);
    assert!(w.end());
    assert_eq!(w.get_no_guess(), 4);
}

#[test]
fn set_range_validates() {
    let mut g = GameData::new_with_secret(5, [1, 10], 5);
    assert_eq!(g.set_range(-3, 7), Ok(()));
    assert_eq!(g.show_range(), "(-3, 7)");
    assert_eq!(g.set_range(8, 2), Err(GameError::InvalidRange));
    assert_eq!(g.show_range(), "(-3, 7)");
}

#[test]
fn restart_draws_from_updated_range() {
    let mut g = GameData::new_with_secret(1, [1, 50], 25);
    g.submit_guess("1");
    assert!(g.end());
    g.set_range(77, 77).unwrap();
    g.restart(3);
    assert_eq!(g.get_no_guess(), 3);
    assert!(!g.game_won());
    assert_eq!(g.submit_guess("77"), Feedback::Correct);
}

#[test]
fn new_guess_labels() {
    let mut g = GameData::new_with_secret(10, [1, 50], 25);
    assert_eq!(g.new_guess(""), "? X");
    assert_eq!(g.new_guess("10"), "< X");
    assert_eq!(g.new_guess("40"), "> X");
    assert_eq!(g.new_guess("25"), "= X");
    assert_eq!(g.new_guess("7"), "? X");
}

#[test]
fn show_range_formats_bounds() {
    let g = GameData::new_with_secret(10, [1, 50], 25);
    assert_eq!(g.show_range(), "(1, 50)");
    let n = GameData::new_with_secret(10, [-500, 500], 0);
    assert_eq!(n.show_range(), "(-500, 500)");
}

#[test]
fn parse_int_values() {
    assert_eq!(parse_int("0"), Some(0));
    assert_eq!(parse_int("25"), Some(25));
    assert_eq!(parse_int("+7"), Some(7));
    assert_eq!(parse_int("-12"), Some(-12));
    assert_eq!(parse_int("007"), Some(7));
    assert_eq!(parse_int("2147483647"), Some(2147483647));
    assert_eq!(parse_int("-2147483648"), Some(-2147483648));
    assert_eq!(parse_int("2147483648"), None);
    assert_eq!(parse_int("-2147483649"), None);
    assert_eq!(parse_int(""), None);
    assert_eq!(parse_int("-"), None);
    assert_eq!(parse_int("+"), None);
    assert_eq!(parse_int("1 2"), None);
    assert_eq!(parse_int("12a"), None);
}

#[test]
fn format_int_values() {
    assert_eq!(format_int(0), "0");
    assert_eq!(format_int(42), "42");
    assert_eq!(format_int(-500), "-500");
    assert_eq!(format_int(i32::MAX), "2147483647");
    assert_eq!(format_int(i32::MIN), "-2147483648");
}

#[test]
fn app_data_tracks_pending_text() {
    let mut d = AppData::new(450, 350, "Guessing Game");
    assert_eq!(d.width, 450);
    assert_eq!(d.height, 350);
    assert_eq!(d.title, "Guessing Game");
    assert_eq!(d.guess, "");
    assert_eq!(d.info, "? X");
    d.new_guess("25");
    assert_eq!(d.guess, "25");
    assert_eq!(d.info, "? X");
    d.new_guess("");
    assert_eq!(d.guess, "");
}
