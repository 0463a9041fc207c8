//! Choosing the direction of a temperature conversion.
//!
//! The numbers of a temperature converter are double-precision floats. This
//! library does no floating-point arithmetic, so the selector arrives here as
//! its bit pattern, as `f64::to_bits` gives it. Only the choice of direction is
//! made here; the conversion itself is left to the caller.

use vstd::prelude::*;

verus! {

/// The bit pattern of the selector 1, which asks for Celsius to Fahrenheit.
pub const CELSIUS_TO_FAHRENHEIT_SELECTOR: u64 = 0x3ff0_0000_0000_0000;

/// The bit pattern of the selector 2, which asks for Fahrenheit to Celsius.
pub const FAHRENHEIT_TO_CELSIUS_SELECTOR: u64 = 0x4000_0000_0000_0000;

/// The direction of a conversion.
#[derive(Debug, Clone, Copy, PartialEq, Eq, Structural)]
pub enum Direction {
    /// From degrees Celsius to degrees Fahrenheit.
    CelsiusToFahrenheit,
    /// From degrees Fahrenheit to degrees Celsius.
    FahrenheitToCelsius,
}

impl Direction {
    /// The direction that a selector asks for: the number 1 asks for Celsius
    /// to Fahrenheit, the number 2 for Fahrenheit to Celsius, and every other
    /// number for nothing.
    pub open spec fn chosen_by(selector_bits: u64) -> Option<Direction> {
        if selector_bits == CELSIUS_TO_FAHRENHEIT_SELECTOR {
            Some(Direction::CelsiusToFahrenheit)
        } else if selector_bits == FAHRENHEIT_TO_CELSIUS_SELECTOR {
            Some(Direction::FahrenheitToCelsius)
        } else {
            None
        }
    }

    /// The unit that a temperature is given in.
    pub open spec fn source_text(self) -> Seq<char> {
        match self {
            Direction::CelsiusToFahrenheit => "°C"@,
            Direction::FahrenheitToCelsius => "°F"@,
        }
    }

    /// The unit that a temperature is converted to.
    pub open spec fn target_text(self) -> Seq<char> {
        match self {
            Direction::CelsiusToFahrenheit => "°F"@,
            Direction::FahrenheitToCelsius => "°C"@,
        }
    }

    /// Reads the direction off a selector, given as the bit pattern of a
    /// double-precision float. A selector that is neither 1 nor 2 chooses no
    /// direction.
    pub fn from_selector(selector_bits: u64) -> (chosen: Option<Direction>)
        ensures
            chosen == Direction::chosen_by(selector_bits),
    {
        if selector_bits == CELSIUS_TO_FAHRENHEIT_SELECTOR {
            Some(Direction::CelsiusToFahrenheit)
        } else if selector_bits == FAHRENHEIT_TO_CELSIUS_SELECTOR {
            Some(Direction::FahrenheitToCelsius)
        } else {
            None
        }
    }

    /// The unit to ask the temperature in.
    pub fn source_unit(&self) -> (unit: &'static str)
        ensures
            unit@ == self.source_text(),
    {
        match self {
            Direction::CelsiusToFahrenheit => "°C",
            Direction::FahrenheitToCelsius => "°F",
        }
    }

    /// The unit to print the converted temperature in.
    pub fn target_unit(&self) -> (unit: &'static str)
        ensures
            unit@ == self.target_text(),
    {
        match self {
            Direction::CelsiusToFahrenheit => "°F",
            Direction::FahrenheitToCelsius => "°C",
        }
    }
}

} // verus!
