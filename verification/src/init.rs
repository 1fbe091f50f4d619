//! One-time initialization of a registered filter or merge driver.
use vstd::prelude::*;

use crate::error::Error;
use crate::raw::GIT_ERROR;

verus! {

/// How the init callback of a filter or a merge driver works: it runs the user's
/// `initialize` until that has succeeded once, and never again. `None` is the outcome
/// of a run that ended in a panic.
pub struct InitStep {}

impl InitStep {
    /// Whether a run of `initialize` succeeded.
    pub open spec fn succeeded(outcome: Option<Result<(), Error>>) -> bool {
        outcome matches Some(Ok(_))
    }

    /// The callback's return code after a run.
    pub open spec fn code(outcome: Option<Result<(), Error>>) -> i32 {
        if InitStep::succeeded(outcome) {
            0
        } else {
            GIT_ERROR
        }
    }

    /// Whether one callback leads from `before` to `after` with the return code `rc`,
    /// where `before` and `after` say whether `initialize` has succeeded, and `outcome` is
    /// how a run of it goes. It is run unless `before` holds.
    pub open spec fn leads(
        before: bool,
        outcome: Option<Result<(), Error>>,
        after: bool,
        rc: i32,
    ) -> bool {
        if before {
            after && rc == 0
        } else {
            after == InitStep::succeeded(outcome) && rc == InitStep::code(outcome)
        }
    }

    /// Takes note of how `initialize` went, and gives the callback's return code.
    pub fn take(initialized: &mut bool, outcome: Option<Result<(), Error>>) -> (rc: i32)
        ensures
            rc == InitStep::code(outcome),
            *final(initialized) == (*old(initialized) || InitStep::succeeded(outcome)),
    {
        match outcome {
            Some(Ok(())) => {
                *initialized = true;
                0
            },
            Some(Err(_)) => GIT_ERROR,
            None => GIT_ERROR,
        }
    }
}

/// Over a row of callbacks, from `states[k]` to `states[k + 1]` with the return code
/// `codes[k]`: once a callback has returned zero, `initialize` is never run again and every
/// later callback returns zero. As long as it is run, every run so far has failed.
pub proof fn law_initialize_succeeds_once(
    states: Seq<bool>,
    outcomes: Seq<Option<Result<(), Error>>>,
    codes: Seq<i32>,
    i: int,
    j: int,
)
    requires
        states.len() == outcomes.len() + 1,
        codes.len() == outcomes.len(),
        forall|k: int|
            #![trigger outcomes[k]]
            0 <= k < outcomes.len() ==> InitStep::leads(
                states[k],
                outcomes[k],
                states[k + 1],
                codes[k],
            ),
        0 <= i < j < outcomes.len(),
    ensures
        codes[i] == 0 ==> states[j] && codes[j] == 0,
        !states[j] ==> !states[i] && !InitStep::succeeded(outcomes[i]) && codes[i] == GIT_ERROR,
    decreases j - i,
{
    assert(InitStep::leads(states[i], outcomes[i], states[i + 1], codes[i]));
    assert(InitStep::leads(states[j], outcomes[j], states[j + 1], codes[j]));
    if i + 1 < j {
        law_initialize_succeeds_once(states, outcomes, codes, i + 1, j);
        assert(InitStep::leads(states[i + 1], outcomes[i + 1], states[i + 2], codes[i + 1]));
    }
}

} // verus!
