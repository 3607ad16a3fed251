use workbook::guessing_game::Game;
use workbook::guessing_game::Guess;
use workbook::guessing_game::Verdict;
use workbook::input::read_number;

#[test]
fn a_guess_lies_between_1_and_100() {
    assert_eq!(Guess::new(1).ok().unwrap().value(), 1);
    assert_eq!(Guess::new(100).ok().unwrap().value(), 100);
    assert_eq!(Guess::new(57).ok().unwrap().value(), 57);
    assert_eq!(Guess::new(0).err(), Some(0));
    assert_eq!(Guess::new(101).err(), Some(0));
    assert_eq!(Guess::new(-5).err(), Some(0));
    assert_eq!(Guess::new(i32::MAX).err(), Some(0));
    assert_eq!(Guess::new(i32::MIN).err(), Some(0));
}

#[test]
fn a_new_game_draws_within_its_ranges() {
    let mut secrets = Vec::new();
    let mut guesses = Vec::new();
    let mut i = 0;
    while i < 300 {
        let game = Game::start();
        assert!(1 <= game.guesses_remaining && game.guesses_remaining <= 10);
        assert!(1 <= game.secret_number && game.secret_number <= 100);
        assert!(!game.is_over());
        if !secrets.contains(&game.secret_number) {
            secrets.push(game.secret_number);
        }
        if !guesses.contains(&game.guesses_remaining) {
            guesses.push(game.guesses_remaining);
        }
        i += 1;
    }
    assert!(secrets.len() > 1);
    assert!(guesses.len() > 1);
}

#[test]
fn a_wrong_guess_costs_a_guess() {
    let mut game = Game { guesses_remaining: 3, secret_number: 40 };
    assert_eq!(game.play("39\n"), Verdict::TooSmall);
    assert_eq!(game.guesses_remaining, 2);
    assert_eq!(game.play("  41  "), Verdict::TooBig);
    assert_eq!(game.guesses_remaining, 1);
    assert_eq!(game.play("1"), Verdict::TooSmall);
    assert_eq!(game.guesses_remaining, 0);
    assert!(game.is_over());
    assert_eq!(game.secret_number, 40);
}

#[test]
fn the_right_guess_wins_and_costs_nothing() {
    let mut game = Game { guesses_remaining: 3, secret_number: 40 };
    assert_eq!(game.play("40\r\n"), Verdict::Win);
    assert_eq!(game.guesses_remaining, 3);
    assert_eq!(game.judge(Some(40)), Verdict::Win);
    assert_eq!(game.play("+40"), Verdict::Win);
}

#[test]
fn what_is_no_guess_costs_nothing() {
    let mut game = Game { guesses_remaining: 3, secret_number: 40 };
    for line in ["", "\n", "forty", "4 0", "0", "101", "-3", "99999999999", "40.0", "--4"] {
        assert_eq!(game.play(line), Verdict::Unreadable);
    }
    assert_eq!(game.judge(None), Verdict::Unreadable);
    assert_eq!(game.judge(Some(0)), Verdict::Unreadable);
    assert_eq!(game.guesses_remaining, 3);
}

#[test]
fn numbers_are_read_as_the_standard_library_reads_them() {
    let lines = [
        "", " ", "0", "-0", "+0", "007", "12", " 12\n", "\t-12\r\n", "+", "-", "+-1", "1 2",
        "2147483647", "2147483648", "-2147483648", "-2147483649", "99999999999999999999",
        "0000000000000000000001", "1e3", "١٢", "\u{3000}5\u{a0}", "\u{200b}5", "5\u{85}", "a",
    ];
    for line in lines {
        let expected = line.trim().parse::<i32>().ok();
        assert_eq!(read_number(line), expected);
    }
}

#[test]
fn numbers_at_the_ends_of_the_range() {
    assert_eq!(read_number("2147483647"), Some(i32::MAX));
    assert_eq!(read_number("-2147483648"), Some(i32::MIN));
    assert_eq!(read_number("2147483648"), None);
    assert_eq!(read_number("  42  "), Some(42));
}
