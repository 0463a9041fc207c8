use exercises::{Guess, GuessError};

#[test]
fn numbers_from_1_to_100_are_guesses() {
    for value in 1..=100 {
        let guess = Guess::new(value).unwrap();
        assert_eq!(guess.value(), value);
    }
}

#[test]
fn numbers_outside_1_to_100_are_refused() {
    for value in [0, -1, -100, i32::MIN, 101, 102, 200, i32::MAX] {
        assert!(Guess::new(value).is_err());
    }
    for value in -300..=300 {
        assert_eq!(Guess::new(value).is_ok(), 1 <= value && value <= 100);
    }
}

#[test]
fn refusal_tells_which_bound_was_broken() {
    assert_eq!(Guess::new(0).unwrap_err(), GuessError::BelowRange { value: 0 });
    assert_eq!(Guess::new(-7).unwrap_err(), GuessError::BelowRange { value: -7 });
    assert_eq!(Guess::new(101).unwrap_err(), GuessError::AboveRange { value: 101 });
    assert_eq!(Guess::new(200).unwrap_err(), GuessError::AboveRange { value: 200 });
}

#[test]
fn message_above_range() {
    let error = Guess::new(200).unwrap_err();
    assert_eq!(
        error.message(),
        "Guess value must be less than or equal to 100, got 200."
    );
    assert!(error.message().contains("less than or equal to 100"));
    assert_eq!(
        Guess::new(i32::MAX).unwrap_err().message(),
        "Guess value must be less than or equal to 100, got 2147483647."
    );
}

#[test]
fn message_below_range() {
    let error = Guess::new(0).unwrap_err();
    assert_eq!(
        error.message(),
        "Guess value must be greater than or equal to 1, got 0."
    );
    assert!(error.message().contains("greater than or equal to 1"));
    assert_eq!(
        Guess::new(-42).unwrap_err().message(),
        "Guess value must be greater than or equal to 1, got -42."
    );
    assert_eq!(
        Guess::new(i32::MIN).unwrap_err().message(),
        "Guess value must be greater than or equal to 1, got -2147483648."
    );
}

#[test]
fn messages_read_as_formatted_by_the_standard_library() {
    for value in [-1000, -10, -9, -1, 0, 101, 109, 110, 999, 1000, 123456789] {
        let message = Guess::new(value).unwrap_err().message();
        let expected = if value < 1 {
            format!("Guess value must be greater than or equal to 1, got {}.", value)
        } else {
            format!("Guess value must be less than or equal to 100, got {}.", value)
        };
        assert_eq!(message, expected);
    }
}
