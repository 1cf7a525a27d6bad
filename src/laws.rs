use crate::difficulty::Difficulty;
use crate::round::{score_after, seconds_left, RoundState, RoundView};
use vstd::prelude::*;

verus! {

proof fn score_tracks_attempts(v: RoundView, guesses: Seq<u32>)
    requires
        v.score == score_after(v.attempts),
    ensures
        v.after_guesses(guesses).attempts == v.attempts + guesses.len(),
        v.after_guesses(guesses).score == score_after(v.attempts + guesses.len()),
    decreases guesses.len(),
{
    if guesses.len() > 0 {
        score_tracks_attempts(v, guesses.drop_last());
    }
}

/// After any run of `n` evaluated guesses from the start of a round, `n`
/// attempts are used and the score is `max(0, 1000 - 50 * n)`.
pub proof fn score_after_any_guesses(difficulty: Difficulty, secret: u32, guesses: Seq<u32>)
    ensures
        RoundView::fresh(difficulty, secret).after_guesses(guesses).attempts == guesses.len(),
        RoundView::fresh(difficulty, secret).after_guesses(guesses).score == (if 1000 - 50
            * guesses.len() > 0 {
            1000 - 50 * guesses.len()
        } else {
            0
        }),
{
    score_tracks_attempts(RoundView::fresh(difficulty, secret), guesses);
}

/// A round reads as lost exactly when its attempts are spent and no guess
/// has hit the secret; a won round never reads as lost.
pub proof fn lost_exactly_when_spent(v: RoundView)
    requires
        v.wf(),
    ensures
        (v.state() == RoundState::Lost) <==> (v.attempts == v.max_attempts && !v.won),
        v.won ==> v.state() == RoundState::Won,
{
}

/// A guess in a running round ends it lost exactly when it spends the last
/// attempt and misses the secret, and won exactly when it hits the secret.
pub proof fn guess_loses_exactly_on_last_miss(v: RoundView, guess: u32)
    requires
        v.wf(),
        v.state() == RoundState::InProgress,
    ensures
        v.after_guess(guess).wf(),
        (v.after_guess(guess).state() == RoundState::Lost) <==> (v.attempts + 1 == v.max_attempts
            && guess != v.secret),
        (v.after_guess(guess).state() == RoundState::Won) <==> (guess == v.secret),
{
}

/// The final score never grows as more seconds pass, never falls below the
/// round's score, and equals it once a minute or more has passed.
pub proof fn final_score_non_increasing(v: RoundView, earlier: nat, later: nat)
    requires
        v.wf(),
        earlier <= later,
    ensures
        v.final_score_at(later) <= v.final_score_at(earlier),
        v.score <= v.final_score_at(later),
        later >= 60 ==> v.final_score_at(later) == v.score,
{
    let rate = v.difficulty.time_bonus_spec() as int;
    assert(rate * seconds_left(later) <= rate * seconds_left(earlier)) by (nonlinear_arith)
        requires
            rate >= 0,
            seconds_left(later) <= seconds_left(earlier),
    ;
    assert(rate * seconds_left(later) >= 0) by (nonlinear_arith)
        requires
            rate >= 0,
    ;
}

} // verus!
