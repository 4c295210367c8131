//! What a step of a run has to offer, and the plan that it hands to the runner.
use crate::errors::Error;
use crate::executer::Output;
use crate::randomizer::Randomizer;
use std::collections::HashMap;
use vstd::prelude::*;

verus! {

/// A YAML value of `serde_yaml`.
#[verifier::external_type_specification]
#[verifier::external_body]
pub struct ExYamlValue(serde_yaml::Value);

/// The phase of a step that an error belongs to.
#[derive(Debug, Clone, Copy, PartialEq, Eq, Structural)]
pub enum Kind {
    /// The step's own preparation.
    Setup,
    /// The plan's command and its judgment.
    Plan,
    /// The check command.
    Check,
    /// The test command.
    Test,
}

/// One command to run, with what the step wants to see again when it judges
/// the outcome.
#[derive(Debug, Clone)]
pub struct Plan {
    /// Names the step that made the plan.
    pub id: String,
    /// The shell command.
    pub command: String,
    /// Named values that go from planning to judging.
    pub ctx: Option<HashMap<String, String>>,
}

impl Plan {
    /// Whether the plan has a command to run. A step is meant to hand out such
    /// plans only.
    pub open spec fn wf(&self) -> bool {
        self.command@.len() > 0
    }

    /// A plan without context.
    #[must_use]
    pub fn new(id: &str, command: &str) -> (plan: Self)
        ensures
            plan.id@ == id@,
            plan.command@ == command@,
            plan.ctx is None,
            plan.wf() <==> command@.len() > 0,
    {
        Self { id: id.to_owned(), command: command.to_owned(), ctx: None }
    }

    /// A plan that carries `ctx` to the judgment.
    #[must_use]
    pub fn with_ctx(id: &str, command: &str, ctx: HashMap<String, String>) -> (plan: Self)
        ensures
            plan.id@ == id@,
            plan.command@ == command@,
            plan.ctx == Some(ctx),
            plan.wf() <==> command@.len() > 0,
    {
        Self { id: id.to_owned(), command: command.to_owned(), ctx: Some(ctx) }
    }
}

/// A step of a run. The runner asks for a plan, runs its command and lets the
/// step judge the outcome.
pub trait StepTrait {
    /// Prepares what the command needs, such as a directory. A step that does
    /// not say otherwise needs nothing, and its setup succeeds.
    fn setup(&self) -> (done: Result<(), Error>)
        default_ensures
            done is Ok,
    {
        Ok(())
    }

    /// The command to run. Each call may draw from `randomizer`, so two calls
    /// need not agree.
    fn plan(&self, randomizer: &mut Randomizer) -> Result<Plan, Error>;

    /// Judges what the command left behind. `Ok(false)` lets the run go on with
    /// the next step; an error ends the run.
    fn is_success(
        &self,
        execution_result: &Output,
        plan_ctx: &Option<HashMap<String, String>>,
    ) -> Result<bool, &'static str>;

    /// A command that has to exit with 0 once the step has succeeded. A step
    /// that does not say otherwise has none.
    fn run_check(&self) -> (command: Option<String>)
        default_ensures
            command is None,
    {
        None
    }

    /// A second such command, run after the check. A step that does not say
    /// otherwise has none.
    fn run_test(&self) -> (command: Option<String>)
        default_ensures
            command is None,
    {
        None
    }

    /// The state of the step, for the plan report.
    fn to_yaml(&self) -> serde_yaml::Value;
}

} // verus!
