use exercises::temperature::{
    Direction, CELSIUS_TO_FAHRENHEIT_SELECTOR, FAHRENHEIT_TO_CELSIUS_SELECTOR,
};

fn chosen(selector: f64) -> Option<Direction> {
    Direction::from_selector(selector.to_bits())
}

#[test]
fn selectors_are_the_numbers_one_and_two() {
    assert_eq!(CELSIUS_TO_FAHRENHEIT_SELECTOR, 1f64.to_bits());
    assert_eq!(FAHRENHEIT_TO_CELSIUS_SELECTOR, 2f64.to_bits());
}

#[test]
fn one_selects_celsius_to_fahrenheit() {
    assert_eq!(chosen(1f64), Some(Direction::CelsiusToFahrenheit));
    assert_eq!(chosen("1".parse().unwrap()), Some(Direction::CelsiusToFahrenheit));
    assert_eq!(chosen("1.0".parse().unwrap()), Some(Direction::CelsiusToFahrenheit));
    assert_eq!(chosen("1e0".parse().unwrap()), Some(Direction::CelsiusToFahrenheit));
    assert_eq!(chosen("+01".parse().unwrap()), Some(Direction::CelsiusToFahrenheit));
}

#[test]
fn two_selects_fahrenheit_to_celsius() {
    assert_eq!(chosen(2f64), Some(Direction::FahrenheitToCelsius));
    assert_eq!(chosen("2".parse().unwrap()), Some(Direction::FahrenheitToCelsius));
    assert_eq!(chosen("0.2e1".parse().unwrap()), Some(Direction::FahrenheitToCelsius));
}

#[test]
fn any_other_selector_selects_nothing() {
    for selector in [
        3f64,
        0f64,
        -0f64,
        -1f64,
        -2f64,
        1.5,
        1.0000000000000002,
        0.9999999999999999,
        2.0000000000000004,
        12f64,
        f64::NAN,
        f64::INFINITY,
        f64::NEG_INFINITY,
        f64::MIN_POSITIVE,
        f64::MAX,
    ] {
        assert_eq!(chosen(selector), None, "selector {}", selector);
    }
}

#[test]
fn selection_agrees_with_comparing_the_numbers() {
    for selector in [0f64, 0.5, 1f64, 1.5, 2f64, 2.5, 3f64, -1f64, f64::NAN] {
        let expected = if selector == 1f64 {
            Some(Direction::CelsiusToFahrenheit)
        } else if selector == 2f64 {
            Some(Direction::FahrenheitToCelsius)
        } else {
            None
        };
        assert_eq!(chosen(selector), expected, "selector {}", selector);
    }
}

#[test]
fn units_of_each_direction() {
    assert_eq!(Direction::CelsiusToFahrenheit.source_unit(), "\u{b0}C");
    assert_eq!(Direction::CelsiusToFahrenheit.target_unit(), "\u{b0}F");
    assert_eq!(Direction::FahrenheitToCelsius.source_unit(), "\u{b0}F");
    assert_eq!(Direction::FahrenheitToCelsius.target_unit(), "\u{b0}C");
}
