//! Score events emitted by the collision resolver and the running total.

use vstd::prelude::*;

verus! {

/// An event broadcast by the collision resolver when something scores.
#[derive(Clone, Copy, Debug, PartialEq, Eq, Structural)]
pub enum ScoreUpdate {
    AteFood,
}

/// The running score, displayed by a rendering collaborator.
#[derive(Clone, Copy, Debug, PartialEq, Eq, Structural)]
pub struct ScoreValue(pub i32);

/// Consume this tick's score events: one point for each.
pub fn update(score: &mut ScoreValue, events: &Vec<ScoreUpdate>)
    requires
        old(score).0 + events@.len() <= i32::MAX,
    ensures
        final(score).0 == old(score).0 + events@.len(),
{
    let n = events.len();
    let mut i: usize = 0;
    while i < n
        invariant
            n == events@.len(),
            i <= n,
            score.0 == old(score).0 + i,
            old(score).0 + n <= i32::MAX,
        decreases n - i,
    {
        score.0 = score.0 + 1;
        i = i + 1;
    }
}

} // verus!
