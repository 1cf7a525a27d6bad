use crate::difficulty::Difficulty;
use crate::input::parse_guess;
use crate::outside::{decimal_u32, draw_between, trim_of};
use std::cmp::Ordering;
use std::time::Instant;
use vstd::prelude::*;

verus! {

/// Points a round starts with.
pub const START_SCORE: u32 = 1000;

/// Points each evaluated guess costs.
pub const GUESS_PENALTY: u32 = 50;

/// Seconds within which a win earns a time bonus.
pub const BONUS_WINDOW_SECS: u64 = 60;

/// Where a round stands.
#[derive(Clone, Copy, PartialEq, Eq, Structural, Debug)]
pub enum RoundState {
    InProgress,
    Won,
    Lost,
}

/// How a guess compares with the secret.
pub open spec fn compare(guess: u32, secret: u32) -> Ordering {
    if guess < secret {
        Ordering::Less
    } else if guess > secret {
        Ordering::Greater
    } else {
        Ordering::Equal
    }
}

/// The score after `n` evaluated guesses: 1000 less 50 per guess, never
/// below zero.
pub open spec fn score_after(n: nat) -> nat {
    if 50 * n >= 1000 {
        0
    } else {
        (1000 - 50 * n) as nat
    }
}

/// Seconds of the bonus window still left after `secs` seconds.
pub open spec fn seconds_left(secs: nat) -> nat {
    if secs >= 60 {
        0
    } else {
        (60 - secs) as nat
    }
}

/// The mathematical state of a round.
pub struct RoundView {
    pub secret: u32,
    pub attempts: nat,
    pub max_attempts: nat,
    pub score: nat,
    pub difficulty: Difficulty,
    pub won: bool,
}

impl RoundView {
    /// The round's invariant: the secret within the level's range, the
    /// attempts within the budget, and the score set by the attempts.
    pub open spec fn wf(self) -> bool {
        &&& self.difficulty.low_spec() <= self.secret <= self.difficulty.high_spec()
        &&& self.max_attempts == self.difficulty.max_attempts_spec()
        &&& self.attempts <= self.max_attempts
        &&& self.score == score_after(self.attempts)
        &&& self.won ==> self.attempts >= 1
    }

    /// A round of the level with this secret that nobody has guessed in yet.
    pub open spec fn fresh(difficulty: Difficulty, secret: u32) -> RoundView {
        RoundView {
            secret,
            attempts: 0,
            max_attempts: difficulty.max_attempts_spec() as nat,
            score: 1000,
            difficulty,
            won: false,
        }
    }

    /// Won on a guess equal to the secret; lost once the budget is spent
    /// without one; in progress otherwise.
    pub open spec fn state(self) -> RoundState {
        if self.won {
            RoundState::Won
        } else if self.attempts >= self.max_attempts {
            RoundState::Lost
        } else {
            RoundState::InProgress
        }
    }

    /// The round after one more evaluated guess.
    pub open spec fn after_guess(self, guess: u32) -> RoundView {
        RoundView {
            attempts: self.attempts + 1,
            score: score_after(self.attempts + 1),
            won: guess == self.secret,
            ..self
        }
    }

    /// The round after a run of evaluated guesses, in order.
    pub open spec fn after_guesses(self, guesses: Seq<u32>) -> RoundView
        decreases guesses.len(),
    {
        if guesses.len() == 0 {
            self
        } else {
            self.after_guesses(guesses.drop_last()).after_guess(guesses.last())
        }
    }

    /// The score of a win after `secs` seconds: the round's score plus the
    /// level's rate for each second left under a minute.
    pub open spec fn final_score_at(self, secs: nat) -> nat {
        (self.score + self.difficulty.time_bonus_spec() * seconds_left(secs)) as nat
    }
}

/// One playthrough: the secret, the guesses spent and the score.
pub struct GameState {
    secret_number: u32,
    attempts: u32,
    max_attempts: u32,
    score: u32,
    start_time: Instant,
    difficulty: Difficulty,
    won: bool,
}

impl View for GameState {
    type V = RoundView;

    closed spec fn view(&self) -> RoundView {
        RoundView {
            secret: self.secret_number,
            attempts: self.attempts as nat,
            max_attempts: self.max_attempts as nat,
            score: self.score as nat,
            difficulty: self.difficulty,
            won: self.won,
        }
    }
}

impl GameState {
    pub open spec fn wf(&self) -> bool {
        self@.wf()
    }

    /// Starts a round of the level with the given secret, or `None` when the
    /// secret lies outside the level's range.
    pub fn with_secret(difficulty: Difficulty, secret: u32) -> (r: Option<GameState>)
        ensures
            r is Some <==> difficulty.low_spec() <= secret <= difficulty.high_spec(),
            r matches Some(g) ==> g.wf() && g@ == RoundView::fresh(difficulty, secret),
    {
        if secret < difficulty.low() || secret > difficulty.high() {
            return None;
        }
        Some(GameState {
            secret_number: secret,
            attempts: 0,
            max_attempts: difficulty.max_attempts(),
            score: START_SCORE,
            start_time: Instant::now(),
            difficulty,
            won: false,
        })
    }

    /// Starts a round of the level with a secret drawn at random from its
    /// inclusive range.
    pub fn new(difficulty: Difficulty) -> (r: GameState)
        ensures
            r.wf(),
            difficulty.low_spec() <= r@.secret <= difficulty.high_spec(),
            r@ == RoundView::fresh(difficulty, r@.secret),
    {
        let secret = draw_between(difficulty.low(), difficulty.high());
        GameState {
            secret_number: secret,
            attempts: 0,
            max_attempts: difficulty.max_attempts(),
            score: START_SCORE,
            start_time: Instant::now(),
            difficulty,
            won: false,
        }
    }

    /// Evaluates a guess: spends one attempt and 50 points (not below zero)
    /// and tells how the guess compares with the secret.
    pub fn make_guess(&mut self, guess: u32) -> (r: Ordering)
        requires
            old(self).wf(),
            old(self)@.state() == RoundState::InProgress,
        ensures
            final(self).wf(),
            r == compare(guess, old(self)@.secret),
            final(self)@ == old(self)@.after_guess(guess),
            r == Ordering::Equal <==> final(self)@.state() == RoundState::Won,
    {
        self.attempts = self.attempts + 1;
        self.score = self.score.saturating_sub(GUESS_PENALTY);
        self.won = guess == self.secret_number;
        if guess < self.secret_number {
            Ordering::Less
        } else if guess > self.secret_number {
            Ordering::Greater
        } else {
            Ordering::Equal
        }
    }

    /// Evaluates the player's line: a line that writes a number is a guess
    /// as `make_guess` takes it; any other line leaves the round as it was.
    pub fn make_guess_from_line(&mut self, line: &str) -> (r: Option<Ordering>)
        requires
            old(self).wf(),
            old(self)@.state() == RoundState::InProgress,
        ensures
            final(self).wf(),
            match decimal_u32(trim_of(line@)) {
                None => r is None && final(self)@ == old(self)@,
                Some(g) => r == Some(compare(g, old(self)@.secret)) && final(self)@ == old(
                    self,
                )@.after_guess(g),
            },
    {
        match parse_guess(line) {
            None => None,
            Some(g) => Some(self.make_guess(g)),
        }
    }

    /// Whether the attempts are spent.
    pub fn is_game_over(&self) -> (r: bool)
        requires
            self.wf(),
        ensures
            r == (self@.attempts >= self@.max_attempts),
    {
        self.attempts >= self.max_attempts
    }

    /// Where the round stands.
    pub fn state(&self) -> (r: RoundState)
        requires
            self.wf(),
        ensures
            r == self@.state(),
    {
        if self.won {
            RoundState::Won
        } else if self.attempts >= self.max_attempts {
            RoundState::Lost
        } else {
            RoundState::InProgress
        }
    }

    /// The score of a win after `elapsed_secs` whole seconds.
    pub fn final_score_after(&self, elapsed_secs: u64) -> (r: u32)
        requires
            self.wf(),
        ensures
            r == self@.final_score_at(elapsed_secs as nat),
    {
        let left: u64 = BONUS_WINDOW_SECS.saturating_sub(elapsed_secs);
        let left32: u32 = left as u32;
        let rate: u32 = self.difficulty.time_bonus();
        assert(rate * left32 <= 20 * 60) by (nonlinear_arith)
            requires
                rate <= 20,
                left32 <= 60,
        ;
        self.score.saturating_add(rate * left32)
    }

    /// The score of a win, with the time bonus for the whole seconds since
    /// the round started.
    pub fn calculate_final_score(&self) -> (r: u32)
        requires
            self.wf(),
        ensures
            exists|secs: u64| r == self@.final_score_at(secs as nat),
    {
        let secs: u64 = self.start_time.elapsed().as_secs();
        self.final_score_after(secs)
    }

    pub fn secret(&self) -> (r: u32)
        ensures
            r == self@.secret,
    {
        self.secret_number
    }

    pub fn attempts_used(&self) -> (r: u32)
        ensures
            r == self@.attempts,
    {
        self.attempts
    }

    pub fn max_attempts(&self) -> (r: u32)
        ensures
            r == self@.max_attempts,
    {
        self.max_attempts
    }

    pub fn score(&self) -> (r: u32)
        ensures
            r == self@.score,
    {
        self.score
    }

    pub fn difficulty(&self) -> (r: Difficulty)
        ensures
            r == self@.difficulty,
    {
        self.difficulty
    }
}

} // verus!
