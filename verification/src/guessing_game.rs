use crate::input::parsed_i32;
use crate::input::read_number;
use crate::input::trimmed;
use rand::Rng;
use vstd::prelude::*;

verus! {

/// A guess: a number from 1 to 100.
pub struct Guess {
    value: i32,
}

impl Guess {
    #[verifier::type_invariant]
    spec fn in_range(&self) -> bool {
        1 <= self.value <= 100
    }

    /// The number guessed.
    pub closed spec fn number(&self) -> i32 {
        self.value
    }

    /// A guess of `value`, which is refused with the error 0 unless it lies
    /// between 1 and 100.
    pub fn new(value: i32) -> (r: Result<Guess, u8>)
        ensures
            (value < 1 || value > 100) <==> r is Err,
            r matches Err(code) ==> code == 0,
            r matches Ok(guess) ==> guess.number() == value,
    {
        if value < 1 || value > 100 {
            Err(0)
        } else {
            Ok(Guess { value })
        }
    }

    /// The number guessed.
    pub fn value(&self) -> (v: i32)
        ensures
            v == self.number(),
            1 <= v <= 100,
    {
        proof {
            use_type_invariant(self);
        }
        self.value
    }
}

/// What the game says of a line of input.
#[derive(Clone, Copy, Debug, PartialEq, Eq, Structural)]
pub enum Verdict {
    /// The line is no number from 1 to 100: it costs nothing.
    Unreadable,
    /// The guess is below the secret number.
    TooSmall,
    /// The guess is above the secret number.
    TooBig,
    /// The guess is the secret number.
    Win,
}

/// The verdict on a guess against a secret number.
pub open spec fn verdict_of(guess: Option<i32>, secret: i32) -> Verdict {
    match guess {
        None => Verdict::Unreadable,
        Some(g) => if g < 1 || g > 100 {
            Verdict::Unreadable
        } else if g < secret {
            Verdict::TooSmall
        } else if g > secret {
            Verdict::TooBig
        } else {
            Verdict::Win
        },
    }
}

/// Whether a verdict costs a guess.
pub open spec fn costs_a_guess(verdict: Verdict) -> bool {
    verdict == Verdict::TooSmall || verdict == Verdict::TooBig
}

/// A game in progress.
pub struct Game {
    pub guesses_remaining: i32,
    pub secret_number: i32,
}

/// Draws a number with `rand::Rng::gen_range` on the generator of the
/// calling thread (`rand::thread_rng`), over the range from `low` to `high`,
/// both included. The call panics on an empty range, which the precondition
/// leaves out; the number it returns lies within the range.
#[verifier::external_body]
fn draw_between(low: i32, high: i32) -> (n: i32)
    requires
        low <= high,
    ensures
        low <= n <= high,
{
    rand::thread_rng().gen_range(low..=high)
}

impl Game {
    /// A new game: between one and ten guesses, and a secret number between
    /// 1 and 100, both drawn at random.
    pub fn start() -> (game: Game)
        ensures
            1 <= game.guesses_remaining <= 10,
            1 <= game.secret_number <= 100,
    {
        let guesses_remaining = draw_between(1, 10);
        let secret_number = draw_between(1, 100);
        Game { guesses_remaining, secret_number }
    }

    /// Whether no guess is left.
    pub fn is_over(&self) -> (over: bool)
        ensures
            over == (self.guesses_remaining == 0),
    {
        self.guesses_remaining == 0
    }

    /// Judges a guess that was read as `guess`: a wrong guess costs one of
    /// the remaining guesses, anything else costs nothing.
    pub fn judge(&mut self, guess: Option<i32>) -> (verdict: Verdict)
        requires
            old(self).guesses_remaining > i32::MIN,
        ensures
            verdict == verdict_of(guess, old(self).secret_number),
            final(self).secret_number == old(self).secret_number,
            final(self).guesses_remaining == if costs_a_guess(verdict) {
                old(self).guesses_remaining - 1
            } else {
                old(self).guesses_remaining as int
            },
    {
        let number = match guess {
            Some(g) => g,
            None => {
                return Verdict::Unreadable;
            },
        };
        let user_guess = match Guess::new(number) {
            Ok(g) => g,
            Err(_) => {
                return Verdict::Unreadable;
            },
        };
        let value = user_guess.value();
        if value < self.secret_number {
            self.guesses_remaining -= 1;
            Verdict::TooSmall
        } else if value > self.secret_number {
            self.guesses_remaining -= 1;
            Verdict::TooBig
        } else {
            Verdict::Win
        }
    }

    /// Judges a line of input: the number that the line writes, white space
    /// around it aside, is the guess.
    pub fn play(&mut self, line: &str) -> (verdict: Verdict)
        requires
            old(self).guesses_remaining > i32::MIN,
        ensures
            verdict == verdict_of(parsed_i32(trimmed(line@)), old(self).secret_number),
            final(self).secret_number == old(self).secret_number,
            final(self).guesses_remaining == if costs_a_guess(verdict) {
                old(self).guesses_remaining - 1
            } else {
                old(self).guesses_remaining as int
            },
    {
        let guess = read_number(line);
        self.judge(guess)
    }
}

} // verus!
