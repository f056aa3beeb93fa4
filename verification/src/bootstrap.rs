//! The order in which a server process is brought up.
//!
//! The process takes one step at a time and reports how it went; the answer
//! is the step to take next. Nothing is done here: parsing arguments,
//! registering the logger, writing the startup line and serving are the
//! caller's work. Here it is decided that they happen in this order, that a
//! failure anywhere ends the process with an error, and that the outcome of
//! serving is the outcome of the process.

use vstd::prelude::*;

verus! {

/// What the process does next.
#[derive(Clone, Copy, Debug, PartialEq, Eq, Structural)]
pub enum Step {
    /// Build the configuration from the command line and the defaults.
    ParseConfig,
    /// Register the process-wide logger.
    ConfigureLogging,
    /// Write the startup diagnostic, with the configuration in it.
    EmitStartup,
    /// Serve until the server stops.
    RunServer,
    /// Leave, successfully or with an error.
    Exit { success: bool },
}

/// How a step went.
#[derive(Clone, Copy, Debug, PartialEq, Eq, Structural)]
pub enum Outcome {
    Completed,
    Failed,
}

/// The step that follows `step` once it went as `outcome` says. The steps
/// before the exit follow one another while they complete; any failure leads
/// to the failing exit; the server's end leads to the exit that matches it;
/// an exit stays as it is.
pub open spec fn next_step(step: Step, outcome: Outcome) -> Step {
    match step {
        Step::Exit { success } => Step::Exit { success },
        _ => match outcome {
            Outcome::Failed => Step::Exit { success: false },
            Outcome::Completed => match step {
                Step::ParseConfig => Step::ConfigureLogging,
                Step::ConfigureLogging => Step::EmitStartup,
                Step::EmitStartup => Step::RunServer,
                _ => Step::Exit { success: true },
            },
        },
    }
}

/// The steps that a process takes, the first included, while the outcomes
/// come in as `outcomes` lists them.
pub open spec fn steps_taken(outcomes: Seq<Outcome>) -> Seq<Step>
    decreases outcomes.len(),
{
    if outcomes.len() == 0 {
        seq![Step::ParseConfig]
    } else {
        let before = steps_taken(outcomes.drop_last());
        before.push(next_step(before.last(), outcomes.last()))
    }
}

/// The place of a step in the order of startup.
pub open spec fn rank(step: Step) -> int {
    match step {
        Step::ParseConfig => 0,
        Step::ConfigureLogging => 1,
        Step::EmitStartup => 2,
        Step::RunServer => 3,
        Step::Exit { .. } => 4,
    }
}

/// The step that every process begins with.
pub fn first_step() -> (res: Step)
    ensures
        res == Step::ParseConfig,
        steps_taken(Seq::empty()) == seq![res],
{
    Step::ParseConfig
}

/// The step to take after `step` went as `outcome` says.
pub fn advance(step: Step, outcome: Outcome) -> (res: Step)
    ensures
        res == next_step(step, outcome),
{
    match step {
        Step::Exit { success } => Step::Exit { success },
        Step::ParseConfig => match outcome {
            Outcome::Completed => Step::ConfigureLogging,
            Outcome::Failed => Step::Exit { success: false },
        },
        Step::ConfigureLogging => match outcome {
            Outcome::Completed => Step::EmitStartup,
            Outcome::Failed => Step::Exit { success: false },
        },
        Step::EmitStartup => match outcome {
            Outcome::Completed => Step::RunServer,
            Outcome::Failed => Step::Exit { success: false },
        },
        Step::RunServer => match outcome {
            Outcome::Completed => Step::Exit { success: true },
            Outcome::Failed => Step::Exit { success: false },
        },
    }
}

/// The steps taken are one more than the outcomes, begin with parsing the
/// configuration, and each follows from the one before by [`next_step`].
pub proof fn lemma_steps_chain(outcomes: Seq<Outcome>)
    ensures
        steps_taken(outcomes).len() == outcomes.len() + 1,
        steps_taken(outcomes)[0] == Step::ParseConfig,
        forall|i: int|
            0 <= i < outcomes.len() ==> #[trigger] steps_taken(outcomes)[i + 1] == next_step(
                steps_taken(outcomes)[i],
                outcomes[i],
            ),
    decreases outcomes.len(),
{
    if outcomes.len() > 0 {
        let shorter = outcomes.drop_last();
        lemma_steps_chain(shorter);
        let before = steps_taken(shorter);
        let all = steps_taken(outcomes);
        assert forall|i: int| 0 <= i < outcomes.len() implies #[trigger] all[i + 1] == next_step(
            all[i],
            outcomes[i],
        ) by {
            if i < shorter.len() {
                assert(all[i + 1] == before[i + 1]);
                assert(all[i] == before[i]);
                assert(outcomes[i] == shorter[i]);
            }
        }
    }
}

/// A step other than an exit is taken at the place of its rank, after all
/// the steps of lower rank, each at its own place.
pub proof fn lemma_step_at_rank(outcomes: Seq<Outcome>, i: int)
    requires
        0 <= i <= outcomes.len(),
        !(steps_taken(outcomes)[i] is Exit),
    ensures
        rank(steps_taken(outcomes)[i]) == i,
        forall|j: int| 0 <= j <= i ==> rank(#[trigger] steps_taken(outcomes)[j]) == j,
    decreases i,
{
    lemma_steps_chain(outcomes);
    let steps = steps_taken(outcomes);
    if i > 0 {
        assert(steps[(i - 1) + 1] == next_step(steps[i - 1], outcomes[i - 1]));
        lemma_step_at_rank(outcomes, i - 1);
    }
}

/// Once the process has reached an exit, every later step is that exit.
pub proof fn lemma_exit_is_final(outcomes: Seq<Outcome>, i: int, k: int)
    requires
        0 <= i <= k <= outcomes.len(),
        steps_taken(outcomes)[i] is Exit,
    ensures
        steps_taken(outcomes)[k] == steps_taken(outcomes)[i],
    decreases k - i,
{
    lemma_steps_chain(outcomes);
    let steps = steps_taken(outcomes);
    if i < k {
        lemma_exit_is_final(outcomes, i, k - 1);
        assert(steps[(k - 1) + 1] == next_step(steps[k - 1], outcomes[k - 1]));
    }
}

/// Logging is configured at most once: two places at which the step is
/// taken are one place.
pub proof fn lemma_logging_at_most_once(outcomes: Seq<Outcome>, i: int, j: int)
    requires
        0 <= i <= outcomes.len(),
        0 <= j <= outcomes.len(),
        steps_taken(outcomes)[i] == Step::ConfigureLogging,
        steps_taken(outcomes)[j] == Step::ConfigureLogging,
    ensures
        i == j,
{
    lemma_step_at_rank(outcomes, i);
    lemma_step_at_rank(outcomes, j);
}

/// Whenever the server is run, logging was configured exactly once, and
/// strictly before: at one place below that of the server, and at no other
/// place of the whole run.
pub proof fn lemma_logging_before_server(outcomes: Seq<Outcome>, i: int)
    requires
        0 <= i <= outcomes.len(),
        steps_taken(outcomes)[i] == Step::RunServer,
    ensures
        1 < i,
        steps_taken(outcomes)[1] == Step::ConfigureLogging,
        forall|j: int|
            0 <= j <= outcomes.len() && #[trigger] steps_taken(outcomes)[j]
                == Step::ConfigureLogging ==> j == 1,
{
    lemma_step_at_rank(outcomes, i);
    let steps = steps_taken(outcomes);
    assert(rank(steps[1]) == 1);
    assert forall|j: int|
        0 <= j <= outcomes.len() && #[trigger] steps[j] == Step::ConfigureLogging implies j
        == 1 by {
        lemma_logging_at_most_once(outcomes, j, 1);
    }
}

/// The outcome of serving is the outcome of the process: after the server
/// was run, every step is the exit that matches how serving went, success
/// where it completed and an error where it failed.
pub proof fn lemma_server_outcome_is_final(outcomes: Seq<Outcome>, i: int, k: int)
    requires
        0 <= i < k <= outcomes.len(),
        steps_taken(outcomes)[i] == Step::RunServer,
    ensures
        steps_taken(outcomes)[k] == (Step::Exit { success: outcomes[i] == Outcome::Completed }),
{
    lemma_steps_chain(outcomes);
    let steps = steps_taken(outcomes);
    assert(steps[i + 1] == next_step(steps[i], outcomes[i]));
    lemma_exit_is_final(outcomes, i + 1, k);
}

/// A process that exits successfully has run the server, and the server
/// completed: no failure before or while serving ends in success.
pub proof fn lemma_success_means_served(outcomes: Seq<Outcome>, k: int)
    requires
        0 <= k <= outcomes.len(),
        steps_taken(outcomes)[k] == (Step::Exit { success: true }),
    ensures
        4 <= k,
        steps_taken(outcomes)[3] == Step::RunServer,
        outcomes[3] == Outcome::Completed,
    decreases k,
{
    lemma_steps_chain(outcomes);
    let steps = steps_taken(outcomes);
    assert(k > 0);
    assert(steps[(k - 1) + 1] == next_step(steps[k - 1], outcomes[k - 1]));
    if steps[k - 1] is Exit {
        lemma_success_means_served(outcomes, k - 1);
    } else {
        lemma_step_at_rank(outcomes, k - 1);
    }
}

} // verus!
