//! The capture loop: capture, describe, persist, sleep, and again. A stage
//! that fails ends the iteration: the loop sleeps and starts over, without a
//! second attempt.
//!
//! The caller performs each stage and reports whether it succeeded.

use vstd::prelude::*;
use crate::describe::{reply_outcome, status_is_success};

verus! {

/// What the loop does at one moment.
#[derive(Debug, Clone, Copy, PartialEq, Eq, Structural)]
pub enum Stage {
    /// Capture the screen and store the image.
    Capture,
    /// Look up the foreground window and ask the model for a description.
    Describe,
    /// Write the description beside the image.
    Persist,
    /// Wait for the configured interval.
    Sleep,
}

/// The stage that follows `stage`, given whether `stage` succeeded.
pub open spec fn stage_after(stage: Stage, succeeded: bool) -> Stage {
    match stage {
        Stage::Capture => if succeeded {
            Stage::Describe
        } else {
            Stage::Sleep
        },
        Stage::Describe => if succeeded {
            Stage::Persist
        } else {
            Stage::Sleep
        },
        Stage::Persist => Stage::Sleep,
        Stage::Sleep => Stage::Capture,
    }
}

/// The stage that the loop enters after `stage` has ended.
pub fn next_stage(stage: Stage, succeeded: bool) -> (next: Stage)
    ensures
        next == stage_after(stage, succeeded),
{
    match stage {
        Stage::Capture => if succeeded {
            Stage::Describe
        } else {
            Stage::Sleep
        },
        Stage::Describe => if succeeded {
            Stage::Persist
        } else {
            Stage::Sleep
        },
        Stage::Persist => Stage::Sleep,
        Stage::Sleep => Stage::Capture,
    }
}

/// The stage of a loop that began with a capture and whose stages so far
/// ended with `outcomes`, in order.
pub open spec fn stage_at(outcomes: Seq<bool>) -> Stage
    decreases outcomes.len(),
{
    if outcomes.len() == 0 {
        Stage::Capture
    } else {
        stage_after(stage_at(outcomes.drop_last()), outcomes.last())
    }
}

/// A failed stage is never tried again, and nothing is persisted after it:
/// the loop sleeps next.
pub proof fn lemma_failure_ends_iteration(stage: Stage)
    requires
        stage != Stage::Sleep,
    ensures
        stage_after(stage, false) == Stage::Sleep,
{
}

/// A reply with a non-success status gives no description, and the loop goes
/// on to sleep without persisting anything.
pub proof fn lemma_rejected_reply_skips_persistence(status: u16, body: Seq<char>)
    requires
        !status_is_success(status),
    ensures
        reply_outcome(status, body) is Err,
        stage_after(Stage::Describe, reply_outcome(status, body) is Ok) == Stage::Sleep,
{
}

/// Whenever the loop persists, the two stages before were a capture and a
/// description of this same iteration, and both succeeded.
pub proof fn lemma_persist_follows_description(outcomes: Seq<bool>)
    requires
        stage_at(outcomes) == Stage::Persist,
    ensures
        outcomes.len() >= 2,
        outcomes[outcomes.len() - 1],
        outcomes[outcomes.len() - 2],
        stage_at(outcomes.take(outcomes.len() - 1)) == Stage::Describe,
        stage_at(outcomes.take(outcomes.len() - 2)) == Stage::Capture,
{
    let n = outcomes.len() as int;
    assert(n >= 1);
    let one = outcomes.drop_last();
    assert(one =~= outcomes.take(n - 1));
    assert(stage_at(one) == Stage::Describe);
    assert(one.len() >= 1);
    let two = one.drop_last();
    assert(two =~= outcomes.take(n - 2));
    assert(one.last() == outcomes[n - 2]);
    assert(stage_at(two) == Stage::Capture);
}

/// An iteration persists at most once: after persisting, whether it worked
/// or not, the loop sleeps, and only then captures again.
pub proof fn lemma_one_persist_per_iteration(outcomes: Seq<bool>, persisted: bool, woke: bool)
    requires
        stage_at(outcomes) == Stage::Persist,
    ensures
        stage_at(outcomes.push(persisted)) == Stage::Sleep,
        stage_at(outcomes.push(persisted).push(woke)) == Stage::Capture,
{
    let one = outcomes.push(persisted);
    assert(one.drop_last() =~= outcomes);
    let two = one.push(woke);
    assert(two.drop_last() =~= one);
}

} // verus!
