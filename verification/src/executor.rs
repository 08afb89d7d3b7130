//! Running a plan of external commands: which command comes next, and when
//! the operation has succeeded or failed.
//!
//! The caller owns the loop. It asks `decide` what to do, runs the command
//! that `decide` names, appends the classified result, and asks again.

use vstd::prelude::*;
use crate::command::{CommandModel, CommandSpec};
use crate::error::{ErrorModel, MediaError};
use crate::process::{OutcomeModel, ProcessOutcome};

verus! {

/// One command of a plan. The failure of a stage that is not required does
/// not stop the plan.
#[derive(Clone, Debug, PartialEq, Eq)]
pub struct Stage {
    pub command: CommandSpec,
    pub required: bool,
}

/// A stage as plain values.
pub struct StageModel {
    pub command: CommandModel,
    pub required: bool,
}

impl View for Stage {
    type V = StageModel;

    open spec fn view(&self) -> StageModel {
        StageModel { command: self.command@, required: self.required }
    }
}

/// The commands of one operation, in the order in which they run.
#[derive(Clone, Debug, PartialEq, Eq)]
pub struct Plan {
    pub stages: Vec<Stage>,
}

impl View for Plan {
    type V = Seq<StageModel>;

    open spec fn view(&self) -> Seq<StageModel> {
        self.stages@.map_values(|s: Stage| s@)
    }
}

/// What to do next with a plan.
#[derive(Clone, Debug, PartialEq, Eq)]
pub enum Decision {
    /// Run the stage at this index and report its result.
    Run(usize),
    /// Every stage has run and no required stage failed.
    Succeeded,
    /// A required stage failed with this error; nothing more is run.
    Failed(MediaError),
}

/// A decision as plain values.
pub enum DecisionModel {
    Run(nat),
    Succeeded,
    Failed(ErrorModel),
}

impl View for Decision {
    type V = DecisionModel;

    open spec fn view(&self) -> DecisionModel {
        match *self {
            Decision::Run(i) => DecisionModel::Run(i as nat),
            Decision::Succeeded => DecisionModel::Succeeded,
            Decision::Failed(e) => DecisionModel::Failed(e@),
        }
    }
}

/// The result of one stage as plain values.
pub open spec fn result_model(result: Result<ProcessOutcome, MediaError>) -> Result<
    OutcomeModel,
    ErrorModel,
> {
    match result {
        Ok(outcome) => Ok(outcome@),
        Err(error) => Err(error@),
    }
}

/// The results of the stages run so far, as plain values.
pub open spec fn results_model(results: Seq<Result<ProcessOutcome, MediaError>>) -> Seq<
    Result<OutcomeModel, ErrorModel>,
> {
    results.map_values(|r: Result<ProcessOutcome, MediaError>| result_model(r))
}

/// The index of the first required stage, from `from` on, whose result is a
/// failure.
pub open spec fn first_fatal(
    plan: Seq<StageModel>,
    results: Seq<Result<OutcomeModel, ErrorModel>>,
    from: int,
) -> Option<int>
    decreases plan.len() - from,
{
    if from < 0 || from >= plan.len() || from >= results.len() {
        None
    } else if plan[from].required && results[from] is Err {
        Some(from)
    } else {
        first_fatal(plan, results, from + 1)
    }
}

/// What to do with a plan of which the first `results.len()` stages have run:
/// fail with the error of the first required stage that failed; else run the
/// next stage; else, with none left, succeed.
pub open spec fn decision_of(
    plan: Seq<StageModel>,
    results: Seq<Result<OutcomeModel, ErrorModel>>,
) -> DecisionModel {
    match first_fatal(plan, results, 0) {
        Some(i) => DecisionModel::Failed(results[i]->Err_0),
        None => if results.len() < plan.len() {
            DecisionModel::Run(results.len())
        } else {
            DecisionModel::Succeeded
        },
    }
}

/// Decides what to do next with a plan, given the results of the stages that
/// have run, in order.
pub fn decide(plan: &Plan, results: &Vec<Result<ProcessOutcome, MediaError>>) -> (decision:
    Decision)
    ensures
        decision@ == decision_of(plan@, results_model(results@)),
{
    let ghost stages = plan@;
    let ghost seen = results_model(results@);
    let mut i: usize = 0;
    while i < plan.stages.len() && i < results.len()
        invariant
            stages == plan@,
            seen == results_model(results@),
            i <= plan.stages.len(),
            i <= results.len(),
            first_fatal(stages, seen, 0) == first_fatal(stages, seen, i as int),
        decreases plan.stages.len() - i,
    {
        if plan.stages[i].required {
            match &results[i] {
                Err(error) => {
                    return Decision::Failed(error.duplicate());
                },
                Ok(_) => {},
            }
        }
        i = i + 1;
    }
    if results.len() < plan.stages.len() {
        Decision::Run(results.len())
    } else {
        Decision::Succeeded
    }
}

/// A plan never runs past a required stage that failed, and with no such
/// stage it runs its stages in order, one for each result so far.
pub proof fn law_decision_order(
    plan: Seq<StageModel>,
    results: Seq<Result<OutcomeModel, ErrorModel>>,
)
    ensures
        match decision_of(plan, results) {
            DecisionModel::Run(i) => i == results.len() && i < plan.len(),
            DecisionModel::Succeeded => results.len() >= plan.len(),
            DecisionModel::Failed(e) => exists|i: int|
                0 <= i < plan.len() && i < results.len() && plan[i].required
                    && #[trigger] results[i] == Err::<OutcomeModel, ErrorModel>(e),
        },
{
    lemma_first_fatal(plan, results, 0);
}

/// `first_fatal` names a required stage that failed, and no required stage
/// before it, from `from` on, failed.
pub proof fn lemma_first_fatal(
    plan: Seq<StageModel>,
    results: Seq<Result<OutcomeModel, ErrorModel>>,
    from: int,
)
    requires
        0 <= from,
    ensures
        match first_fatal(plan, results, from) {
            Some(i) => from <= i < plan.len() && i < results.len() && plan[i].required
                && results[i] is Err && forall|j: int|
                from <= j < i ==> !(plan[j].required && #[trigger] results[j] is Err),
            None => forall|j: int|
                from <= j < plan.len() && j < results.len() ==> !(plan[j].required
                    && #[trigger] results[j] is Err),
        },
    decreases plan.len() - from,
{
    if from >= plan.len() || from >= results.len() {
    } else if plan[from].required && results[from] is Err {
    } else {
        lemma_first_fatal(plan, results, from + 1);
    }
}

} // verus!
