//! A guess that is known to lie between 1 and 100.

use crate::decimal::{append_signed_decimal, signed_decimal};
use vstd::prelude::*;

verus! {

/// Why a number was refused as a guess. Either way it carries the number.
#[derive(Debug, Clone, Copy, PartialEq, Eq, Structural)]
pub enum GuessError {
    /// The number was below 1.
    BelowRange { value: i32 },
    /// The number was above 100.
    AboveRange { value: i32 },
}

impl GuessError {
    /// The text of the complaint, which names the bound that was broken and
    /// the number that broke it.
    pub open spec fn text(self) -> Seq<char> {
        match self {
            GuessError::BelowRange { value } => {
                "Guess value must be greater than or equal to 1, got "@ + signed_decimal(
                    value as int,
                ) + "."@
            },
            GuessError::AboveRange { value } => {
                "Guess value must be less than or equal to 100, got "@ + signed_decimal(
                    value as int,
                ) + "."@
            },
        }
    }

    /// Writes the complaint out.
    pub fn message(&self) -> (message: String)
        ensures
            message@ == self.text(),
    {
        let (opening, value) = match *self {
            GuessError::BelowRange { value } => (
                "Guess value must be greater than or equal to 1, got ",
                value,
            ),
            GuessError::AboveRange { value } => (
                "Guess value must be less than or equal to 100, got ",
                value,
            ),
        };
        let mut message = opening.to_owned();
        append_signed_decimal(&mut message, value as i64);
        message.append(".");
        message
    }
}

/// The refusal that `value` meets as a guess, if it meets one.
pub open spec fn refusal(value: i32) -> Option<GuessError> {
    if value < 1 {
        Some(GuessError::BelowRange { value })
    } else if value > 100 {
        Some(GuessError::AboveRange { value })
    } else {
        None
    }
}

/// A number from 1 to 100.
#[derive(Debug)]
pub struct Guess {
    value: i32,
}

impl View for Guess {
    type V = int;

    closed spec fn view(&self) -> int {
        self.value as int
    }
}

impl Guess {
    #[verifier::type_invariant]
    spec fn in_range(self) -> bool {
        1 <= self.value <= 100
    }

    /// Makes a guess of `value`, or refuses a value outside 1 to 100.
    pub fn new(value: i32) -> (made: Result<Guess, GuessError>)
        ensures
            made is Ok <==> 1 <= value <= 100,
            match made {
                Ok(guess) => guess@ == value && refusal(value) is None,
                Err(error) => refusal(value) == Some(error),
            },
    {
        if value < 1 {
            Err(GuessError::BelowRange { value })
        } else if value > 100 {
            Err(GuessError::AboveRange { value })
        } else {
            Ok(Guess { value })
        }
    }

    /// The number guessed.
    pub fn value(&self) -> (value: i32)
        ensures
            value == self@,
            1 <= value <= 100,
    {
        proof {
            use_type_invariant(self);
        }
        self.value
    }
}

/// Whether `needle` occurs in `text` as a run of consecutive characters.
pub open spec fn occurs_in(needle: Seq<char>, text: Seq<char>) -> bool {
    exists|at: int|
        0 <= at <= text.len() - needle.len() && #[trigger] text.subrange(
            at,
            at + needle.len(),
        ) == needle
}

/// Every number outside 1 to 100 is refused, and the complaint names the bound
/// that it broke: "greater than or equal to 1" for a number below 1, "less
/// than or equal to 100" for a number above 100.
pub proof fn lemma_refusal_names_bound(value: i32)
    ensures
        value < 1 ==> refusal(value) is Some && occurs_in(
            "greater than or equal to 1"@,
            refusal(value)->0.text(),
        ),
        value > 100 ==> refusal(value) is Some && occurs_in(
            "less than or equal to 100"@,
            refusal(value)->0.text(),
        ),
        1 <= value <= 100 ==> refusal(value) is None,
{
    reveal_strlit("Guess value must be greater than or equal to 1, got ");
    reveal_strlit("Guess value must be less than or equal to 100, got ");
    reveal_strlit("greater than or equal to 1");
    reveal_strlit("less than or equal to 100");
    if value < 1 {
        let text = refusal(value)->0.text();
        let needle = "greater than or equal to 1"@;
        assert(text.subrange(20, 20 + needle.len() as int) =~= needle);
    } else if value > 100 {
        let text = refusal(value)->0.text();
        let needle = "less than or equal to 100"@;
        assert(text.subrange(20, 20 + needle.len() as int) =~= needle);
    }
}

} // verus!
