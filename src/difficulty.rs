use vstd::prelude::*;

verus! {

/// The three levels a player can choose from.
#[derive(Clone, Copy, PartialEq, Eq, Structural, Debug)]
pub enum Difficulty {
    Easy,
    Medium,
    Hard,
}

impl Difficulty {
    /// Smallest value the secret can take.
    pub open spec fn low_spec(self) -> u32 {
        1
    }

    /// Largest value the secret can take.
    pub open spec fn high_spec(self) -> u32 {
        match self {
            Difficulty::Easy => 50,
            Difficulty::Medium => 100,
            Difficulty::Hard => 200,
        }
    }

    /// Number of guesses a round allows.
    pub open spec fn max_attempts_spec(self) -> u32 {
        match self {
            Difficulty::Easy => 10,
            Difficulty::Medium => 7,
            Difficulty::Hard => 5,
        }
    }

    /// Points awarded per second left under a minute, on a win.
    pub open spec fn time_bonus_spec(self) -> u32 {
        match self {
            Difficulty::Easy => 5,
            Difficulty::Medium => 10,
            Difficulty::Hard => 20,
        }
    }

    pub fn low(&self) -> (r: u32)
        ensures
            r == self.low_spec(),
    {
        1
    }

    pub fn high(&self) -> (r: u32)
        ensures
            r == self.high_spec(),
    {
        match self {
            Difficulty::Easy => 50,
            Difficulty::Medium => 100,
            Difficulty::Hard => 200,
        }
    }

    pub fn max_attempts(&self) -> (r: u32)
        ensures
            r == self.max_attempts_spec(),
    {
        match self {
            Difficulty::Easy => 10,
            Difficulty::Medium => 7,
            Difficulty::Hard => 5,
        }
    }

    pub fn time_bonus(&self) -> (r: u32)
        ensures
            r == self.time_bonus_spec(),
    {
        match self {
            Difficulty::Easy => 5,
            Difficulty::Medium => 10,
            Difficulty::Hard => 20,
        }
    }
}

} // verus!
