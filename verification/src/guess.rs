use vstd::prelude::*;
use rand::Rng;

verus! {

/// Lowest value the secret can take.
pub const SECRET_MIN: u32 = 1;

/// Highest value the secret can take.
pub const SECRET_MAX: u32 = 500;

/// How one guess stands to the secret number.
#[derive(Debug, PartialEq, Eq, Structural)]
pub enum Outcome {
    Win,
    TooBig,
    TooSmall,
}

/// Relies on rand's `Rng::gen_range` on a fresh `thread_rng`: on a
/// non-empty inclusive range it returns a value of that range; nothing
/// more is promised of the value.
#[verifier::external_body]
fn random_in_range(lo: u32, hi: u32) -> (r: u32)
    requires
        lo <= hi,
    ensures
        lo <= r <= hi,
{
    rand::thread_rng().gen_range(lo..=hi)
}

/// One round of the guessing game: a secret number drawn once and held
/// unchanged for the whole round.
pub struct GuessingGame {
    secret: u32,
}

impl GuessingGame {
    /// The secret of this round, as a mathematical value.
    pub closed spec fn secret_spec(&self) -> int {
        self.secret as int
    }

    /// The secret always lies within the advertised range.
    pub open spec fn wf(&self) -> bool {
        SECRET_MIN <= self.secret_spec() <= SECRET_MAX
    }

    /// Starts a round with a freshly drawn secret; nothing is known of it
    /// beyond its range.
    pub fn new() -> (g: GuessingGame)
        ensures
            g.wf(),
    {
        GuessingGame { secret: random_in_range(SECRET_MIN, SECRET_MAX) }
    }

    /// Starts a round over a secret the caller chose, for replaying a
    /// known round.
    pub fn with_secret(secret: u32) -> (g: GuessingGame)
        requires
            SECRET_MIN <= secret <= SECRET_MAX,
        ensures
            g.wf(),
            g.secret_spec() == secret,
    {
        GuessingGame { secret }
    }

    /// Judges one guess: a win exactly on the secret, otherwise the side
    /// the guess fell on.
    pub fn check(&self, guess: u32) -> (r: Outcome)
        ensures
            r is Win <==> guess == self.secret_spec(),
            r is TooBig <==> guess > self.secret_spec(),
            r is TooSmall <==> guess < self.secret_spec(),
    {
        if guess == self.secret {
            Outcome::Win
        } else if guess > self.secret {
            Outcome::TooBig
        } else {
            Outcome::TooSmall
        }
    }
}

} // verus!
