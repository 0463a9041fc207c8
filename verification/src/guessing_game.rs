//! A number-guessing game, one line of input at a time.
//!
//! The game holds a secret number. Each line that the player types is either
//! not a number, and then ignored, or a guess, which is then judged against the
//! secret. The game is over once a guess hits the secret.

use crate::decimal::{parse_unsigned, parsed_unsigned};
use rand::Rng;
use vstd::prelude::*;

verus! {

/// The smallest number that the secret can be.
pub const LOWEST_SECRET: u32 = 1;

/// The largest number that the secret can be.
pub const HIGHEST_SECRET: u32 = 100;

/// How a guess stands to the secret.
#[derive(Debug, Clone, Copy, PartialEq, Eq, Structural)]
pub enum Feedback {
    /// The guess is below the secret.
    TooSmall,
    /// The guess is above the secret.
    TooBig,
    /// The guess is the secret.
    Win,
}

impl Feedback {
    /// The feedback on `guess` when the secret is `secret`.
    pub open spec fn on(guess: u32, secret: u32) -> Feedback {
        if guess < secret {
            Feedback::TooSmall
        } else if guess > secret {
            Feedback::TooBig
        } else {
            Feedback::Win
        }
    }

    /// What the player is told.
    pub open spec fn text(self) -> Seq<char> {
        match self {
            Feedback::TooSmall => "Too small!"@,
            Feedback::TooBig => "Too big!"@,
            Feedback::Win => "You win!"@,
        }
    }

    /// What the player is told.
    pub fn message(&self) -> (message: &'static str)
        ensures
            message@ == self.text(),
    {
        match self {
            Feedback::TooSmall => "Too small!",
            Feedback::TooBig => "Too big!",
            Feedback::Win => "You win!",
        }
    }

    /// Whether the game is over: only a win ends it.
    pub fn ends_game(&self) -> (over: bool)
        ensures
            over <==> *self == Feedback::Win,
    {
        match self {
            Feedback::Win => true,
            _ => false,
        }
    }
}

/// Judges `guess` against `secret`.
pub fn judge(guess: u32, secret: u32) -> (feedback: Feedback)
    ensures
        feedback == Feedback::on(guess, secret),
        feedback == Feedback::Win <==> guess == secret,
{
    if guess < secret {
        Feedback::TooSmall
    } else if guess > secret {
        Feedback::TooBig
    } else {
        Feedback::Win
    }
}

/// The guess that a line of input holds, if it holds one: an unsigned decimal
/// number that fits in 32 bits, with nothing but whitespace around it.
pub open spec fn guess_in(line: Seq<char>) -> Option<u32> {
    match parsed_unsigned(line, u32::MAX as nat) {
        Some(number) => Some(number as u32),
        None => None,
    }
}

/// Reads the guess that `line` holds.
pub fn parse_guess(line: &str) -> (guess: Option<u32>)
    ensures
        guess == guess_in(line@),
{
    match parse_unsigned(line, u32::MAX as u64) {
        Some(number) => Some(number as u32),
        None => None,
    }
}

/// What one line of input comes to.
#[derive(Debug, Clone, Copy, PartialEq, Eq, Structural)]
pub enum Turn {
    /// The line held no guess: it is passed over and the player asked again.
    Retry,
    /// The line held `guess`, and the game answered with `feedback`.
    Judged { guess: u32, feedback: Feedback },
}

impl Turn {
    /// The turn that `line` comes to when the secret is `secret`.
    pub open spec fn after(secret: u32, line: Seq<char>) -> Turn {
        match guess_in(line) {
            Some(guess) => Turn::Judged { guess, feedback: Feedback::on(guess, secret) },
            None => Turn::Retry,
        }
    }

    /// Whether this turn is the last one.
    pub open spec fn is_last(self) -> bool {
        self matches Turn::Judged { feedback, .. } && feedback == Feedback::Win
    }

    /// Whether the game is over after this turn.
    pub fn ends_game(&self) -> (over: bool)
        ensures
            over == self.is_last(),
    {
        match self {
            Turn::Judged { feedback, .. } => feedback.ends_game(),
            Turn::Retry => false,
        }
    }
}

/// Plays one turn: reads the player's `line` and judges the guess in it
/// against `secret`. The game ends with this turn exactly when the line holds
/// the secret itself.
pub fn play_turn(secret: u32, line: &str) -> (turn: Turn)
    ensures
        turn == Turn::after(secret, line@),
        turn.is_last() <==> guess_in(line@) == Some(secret),
{
    match parse_guess(line) {
        Some(guess) => Turn::Judged { guess, feedback: judge(guess, secret) },
        None => Turn::Retry,
    }
}

/// Draws a number from `low` up to, but not including, `high`.
///
/// This is `rand`'s `Rng::gen_range`, called on the generator that
/// `rand::thread_rng` hands out. Nothing here is proved; the contract takes
/// from `gen_range` what it documents: the number lies in the half-open range
/// from `low` to `high`. Which number comes is left open. `gen_range` panics
/// on an empty range, so callers must pass `low < high`. `thread_rng` panics
/// if the system cannot seed the generator, whatever the arguments.
#[verifier::external_body]
fn random_in(low: u32, high: u32) -> (number: u32)
    requires
        low < high,
    ensures
        low <= number < high,
{
    rand::thread_rng().gen_range(low, high)
}

/// Picks the secret for a new game: some number from `LOWEST_SECRET` to
/// `HIGHEST_SECRET`.
pub fn pick_secret() -> (secret: u32)
    ensures
        LOWEST_SECRET <= secret <= HIGHEST_SECRET,
{
    random_in(LOWEST_SECRET, HIGHEST_SECRET + 1)
}

} // verus!
