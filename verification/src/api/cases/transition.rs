//! The order of a case transition: which stage follows which, whatever the
//! stage brought.
//!
//! Creating and moving a case alternate reads and writes with decisions. A
//! caller performs one stage, reports how it went, and learns the stage to
//! perform next.

use crate::models::automation::AutomationTrigger;
use vstd::prelude::*;

verus! {

/// The two transitions of a case.
#[derive(Debug, Clone, Copy, PartialEq, Eq, Structural)]
pub enum Transition {
    Create,
    Move,
}

/// One stage of a transition.
#[derive(Debug, Clone, Copy, PartialEq, Eq, Structural)]
pub enum Stage {
    /// Read the case to move.
    LoadCase,
    /// Read the workflow of the case.
    LoadWorkflow,
    /// Validate the request and plan the change.
    Plan,
    /// Write the new case, or the new phase of the case.
    PersistCase,
    /// Append the history row of the change.
    PersistHistory,
    /// Run the automations of the trigger.
    RunAutomations(AutomationTrigger),
    /// Apply what the automations asked for, in one transaction.
    ApplyModifications(AutomationTrigger),
    /// Read the case again after the transaction.
    RereadCase(AutomationTrigger),
    /// Submit the change event and send the case webhook.
    FollowUp,
    /// Answer with the case.
    Respond,
    /// Answer with the error.
    Abort,
}

/// How a stage went.
#[derive(Debug, Clone, Copy, PartialEq, Eq, Structural)]
pub enum StageResult {
    /// The stage did what it is for.
    Done,
    /// There was nothing for the stage to do: the case is in the target
    /// phase already, or there are no automations, or they asked for
    /// nothing.
    Nothing,
    /// The stage failed.
    Failed,
}

/// The first stage of a transition.
pub open spec fn first(transition: Transition) -> Stage {
    match transition {
        Transition::Create => Stage::LoadWorkflow,
        Transition::Move => Stage::LoadCase,
    }
}

/// The stage that follows the automations of a trigger once they are done
/// with: a move runs the automations of the phase entered after those of
/// the phase left; then comes what follows the change.
pub open spec fn after_automations(trigger: AutomationTrigger) -> Stage {
    match trigger {
        AutomationTrigger::OnExit => Stage::RunAutomations(AutomationTrigger::OnEnter),
        AutomationTrigger::OnEnter => Stage::FollowUp,
    }
}

/// The first automations of a transition: a new case enters its phase, a
/// moved case leaves one first.
pub open spec fn first_automations(transition: Transition) -> Stage {
    match transition {
        Transition::Create => Stage::RunAutomations(AutomationTrigger::OnEnter),
        Transition::Move => Stage::RunAutomations(AutomationTrigger::OnExit),
    }
}

/// The stage that follows a stage, given how it went.
///
/// A failure to read, to plan, to write the case, to run automations or to
/// apply what they asked for aborts the transition. A failure to append the
/// history row or to read the case again does not. A move of a case that is
/// in the target phase already is answered at once, with nothing following.
pub open spec fn following(transition: Transition, stage: Stage, result: StageResult) -> Stage {
    match stage {
        Stage::LoadCase => if result == StageResult::Failed {
            Stage::Abort
        } else {
            Stage::LoadWorkflow
        },
        Stage::LoadWorkflow => if result == StageResult::Failed {
            Stage::Abort
        } else {
            Stage::Plan
        },
        Stage::Plan => match result {
            StageResult::Done => Stage::PersistCase,
            StageResult::Nothing => Stage::Respond,
            StageResult::Failed => Stage::Abort,
        },
        Stage::PersistCase => if result == StageResult::Failed {
            Stage::Abort
        } else {
            Stage::PersistHistory
        },
        Stage::PersistHistory => first_automations(transition),
        Stage::RunAutomations(trigger) => match result {
            StageResult::Done => Stage::ApplyModifications(trigger),
            StageResult::Nothing => after_automations(trigger),
            StageResult::Failed => Stage::Abort,
        },
        Stage::ApplyModifications(trigger) => if result == StageResult::Failed {
            Stage::Abort
        } else {
            Stage::RereadCase(trigger)
        },
        Stage::RereadCase(trigger) => after_automations(trigger),
        Stage::FollowUp => Stage::Respond,
        Stage::Respond => Stage::Respond,
        Stage::Abort => Stage::Abort,
    }
}

/// The stage reached from a stage when the stages go as the results say,
/// one result per stage.
pub open spec fn reached(transition: Transition, stage: Stage, results: Seq<StageResult>) -> Stage
    decreases results.len(),
{
    if results.len() == 0 {
        stage
    } else {
        reached(transition, following(transition, stage, results[0]), results.drop_first())
    }
}

/// Whether a failure of the stage aborts the transition.
pub open spec fn is_critical(stage: Stage) -> bool {
    stage != Stage::PersistHistory && !(stage is RereadCase) && stage != Stage::FollowUp && stage
        != Stage::Respond
}

impl Transition {
    /// The first stage of the transition.
    pub fn first_stage(&self) -> (r: Stage)
        ensures
            r == first(*self),
    {
        match self {
            Transition::Create => Stage::LoadWorkflow,
            Transition::Move => Stage::LoadCase,
        }
    }

    /// The stage that follows a stage, given how it went.
    pub fn next_stage(&self, stage: Stage, result: StageResult) -> (r: Stage)
        ensures
            r == following(*self, stage, result),
    {
        let failed = result == StageResult::Failed;
        match stage {
            Stage::LoadCase => if failed {
                Stage::Abort
            } else {
                Stage::LoadWorkflow
            },
            Stage::LoadWorkflow => if failed {
                Stage::Abort
            } else {
                Stage::Plan
            },
            Stage::Plan => match result {
                StageResult::Done => Stage::PersistCase,
                StageResult::Nothing => Stage::Respond,
                StageResult::Failed => Stage::Abort,
            },
            Stage::PersistCase => if failed {
                Stage::Abort
            } else {
                Stage::PersistHistory
            },
            Stage::PersistHistory => match self {
                Transition::Create => Stage::RunAutomations(AutomationTrigger::OnEnter),
                Transition::Move => Stage::RunAutomations(AutomationTrigger::OnExit),
            },
            Stage::RunAutomations(trigger) => match result {
                StageResult::Done => Stage::ApplyModifications(trigger),
                StageResult::Nothing => Transition::after(trigger),
                StageResult::Failed => Stage::Abort,
            },
            Stage::ApplyModifications(trigger) => if failed {
                Stage::Abort
            } else {
                Stage::RereadCase(trigger)
            },
            Stage::RereadCase(trigger) => Transition::after(trigger),
            Stage::FollowUp => Stage::Respond,
            Stage::Respond => Stage::Respond,
            Stage::Abort => Stage::Abort,
        }
    }

    fn after(trigger: AutomationTrigger) -> (r: Stage)
        ensures
            r == after_automations(trigger),
    {
        match trigger {
            AutomationTrigger::OnExit => Stage::RunAutomations(AutomationTrigger::OnEnter),
            AutomationTrigger::OnEnter => Stage::FollowUp,
        }
    }
}

/// A transition that was answered or aborted stays so.
pub proof fn lemma_ends_are_final(transition: Transition, stage: Stage, results: Seq<StageResult>)
    requires
        stage == Stage::Respond || stage == Stage::Abort,
    ensures
        reached(transition, stage, results) == stage,
    decreases results.len(),
{
    if results.len() > 0 {
        lemma_ends_are_final(transition, stage, results.drop_first());
    }
}

/// Once a stage whose failure aborts the transition has failed, nothing
/// follows the change: the stage of the event and the webhook is not
/// reached, whatever the later results.
pub proof fn lemma_failure_aborts(
    transition: Transition,
    stage: Stage,
    later: Seq<StageResult>,
)
    requires
        is_critical(stage),
        stage != Stage::Abort,
    ensures
        reached(transition, stage, seq![StageResult::Failed] + later) == Stage::Abort,
{
    let results = seq![StageResult::Failed] + later;
    assert(results[0] == StageResult::Failed);
    assert(results.drop_first() =~= later);
    assert(following(transition, stage, StageResult::Failed) == Stage::Abort);
    lemma_ends_are_final(transition, Stage::Abort, later);
}

/// Automations that fail abort the transition at once, and so does a
/// transaction that fails.
pub proof fn lemma_failed_automations_abort(transition: Transition, trigger: AutomationTrigger)
    ensures
        following(transition, Stage::RunAutomations(trigger), StageResult::Failed) == Stage::Abort,
        following(transition, Stage::ApplyModifications(trigger), StageResult::Failed)
            == Stage::Abort,
{
}

/// The event and the webhook follow only the automations of the phase
/// entered: the stage before them is one of those automations' stages,
/// and it did not fail.
pub proof fn lemma_follow_up_comes_last(transition: Transition, stage: Stage, result: StageResult)
    requires
        following(transition, stage, result) == Stage::FollowUp,
    ensures
        stage == Stage::RunAutomations(AutomationTrigger::OnEnter) || stage == Stage::RereadCase(
            AutomationTrigger::OnEnter,
        ),
        stage is RunAutomations ==> result == StageResult::Nothing,
{
}

/// A move of a case that is in the target phase already is answered without
/// a write and without anything following.
pub proof fn lemma_noop_move_is_answered_at_once(later: Seq<StageResult>)
    ensures
        reached(
            Transition::Move,
            Stage::LoadCase,
            seq![StageResult::Done, StageResult::Done, StageResult::Nothing] + later,
        ) == Stage::Respond,
{
    let results = seq![StageResult::Done, StageResult::Done, StageResult::Nothing] + later;
    let second = seq![StageResult::Done, StageResult::Nothing] + later;
    let third = seq![StageResult::Nothing] + later;
    assert(results.drop_first() =~= second);
    assert(second.drop_first() =~= third);
    assert(third.drop_first() =~= later);
    assert(reached(Transition::Move, Stage::LoadCase, results) == reached(
        Transition::Move,
        Stage::LoadWorkflow,
        second,
    ));
    assert(reached(Transition::Move, Stage::LoadWorkflow, second) == reached(
        Transition::Move,
        Stage::Plan,
        third,
    ));
    assert(reached(Transition::Move, Stage::Plan, third) == reached(
        Transition::Move,
        Stage::Respond,
        later,
    ));
    lemma_ends_are_final(Transition::Move, Stage::Respond, later);
}

} // verus!
