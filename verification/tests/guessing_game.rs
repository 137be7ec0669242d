use rustbook::guessing_game::{check_guess, parse_guess, play_turn, secret_number, Hint, Turn};

#[test]
fn secret_number_is_in_range() {
    for _ in 0..200 {
        let n = secret_number();
        assert!((1..=100).contains(&n));
    }
}

#[test]
fn hints() {
    assert_eq!(check_guess(10, 50), Hint::TooSmall);
    assert_eq!(check_guess(60, 50), Hint::TooLarge);
    assert_eq!(check_guess(50, 50), Hint::Win);
}

#[test]
fn parses_like_std() {
    for s in ["42", "+7", "0", "007", "4294967295", "4294967296", "", "+", "-1", "12a", " 1", "-"] {
        assert_eq!(parse_guess(s), s.parse::<u32>().ok(), "input {:?}", s);
    }
}

#[test]
fn turns() {
    assert_eq!(play_turn(50, "abc"), Turn::NotANumber);
    assert_eq!(play_turn(50, "20"), Turn::Guessed { guess: 20, hint: Hint::TooSmall });
    assert_eq!(play_turn(50, "50"), Turn::Guessed { guess: 50, hint: Hint::Win });
}
