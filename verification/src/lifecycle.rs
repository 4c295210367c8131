//! The order of a run, as a state machine.
//!
//! A run takes its steps one after the other, and each step through a fixed
//! line of phases: it is planned once to be announced, set up, planned again,
//! executed, judged, then checked and tested where it asks for that. The step
//! judges the output of a command with the context of the plan that the command
//! came from. The machine holds where the run stands. It is told what happened as an [`Event`] and
//! answers with the [`Action`] to take next. It runs no command and calls no
//! step itself.
use crate::errors::Error;
use crate::executer::Output;
use crate::step::{Kind, Plan};
use std::collections::HashMap;
use vstd::prelude::*;

verus! {

/// The description of the error of a check command that did not exit with 0.
pub const CHECK_FAILED: &'static str = "check not finish with status code 0";

/// The description of the error of a test command that did not exit with 0.
pub const TEST_FAILED: &'static str = "test command not finish with status code 0";

/// What the machine waits for.
#[derive(Debug, Clone, Copy, PartialEq, Eq, Structural)]
pub enum Phase {
    /// The plan that names the step.
    Announce,
    /// The word that the step has been announced.
    Announced,
    /// The end of the step's setup.
    Setup,
    /// The plan whose command will run.
    Plan,
    /// The output of the plan's command.
    Execute,
    /// The step's judgment of that output.
    Judge,
    /// The step's check command, if it has one.
    AskCheck,
    /// The output of the check command.
    Check,
    /// The step's test command, if it has one.
    AskTest,
    /// The output of the test command.
    Test,
    /// Nothing: the run is over.
    Done,
}

/// What happened since the last action.
#[derive(Debug)]
pub enum Event {
    /// The step has planned, or failed to.
    Planned(Result<Plan, Error>),
    /// The step has been announced.
    Acknowledged,
    /// The step's setup has ended.
    SetUp(Result<(), Error>),
    /// A command has run, or could not be run.
    Executed(Result<Output, Error>),
    /// The step has judged the output of its command.
    Judged(Result<bool, &'static str>),
    /// The step has named its check or test command, or has none.
    Asked(Option<String>),
}

/// What to do next. The answer to each action is the event named with it.
#[derive(Debug)]
pub enum Action {
    /// Ask the step for a plan. Answer: [`Event::Planned`].
    Plan { step: usize },
    /// Tell the user which step begins. Answer: [`Event::Acknowledged`].
    Announce { id: String },
    /// Let the step set itself up. Answer: [`Event::SetUp`].
    SetUp { step: usize },
    /// Run a shell command for the given phase. Answer: [`Event::Executed`].
    Execute { command: String, kind: Kind },
    /// Let the step judge [`Lifecycle::output`] with [`Lifecycle::ctx`], which
    /// are the output of the plan's command and the context of that plan.
    /// Answer: [`Event::Judged`].
    Judge { step: usize },
    /// Ask the step for its check command. Answer: [`Event::Asked`].
    AskCheck { step: usize },
    /// Ask the step for its test command. Answer: [`Event::Asked`].
    AskTest { step: usize },
    /// Stop: the run has ended with this result.
    Finish(Result<(), Error>),
}

/// Where a run stands.
#[derive(Debug)]
pub struct Lifecycle {
    /// The number of steps of the run.
    pub steps: usize,
    /// The step that is being taken.
    pub step: usize,
    /// What the machine waits for.
    pub phase: Phase,
    /// The context of the last plan of the step: once a command runs, that of
    /// the plan whose command it is.
    pub ctx: Option<HashMap<String, String>>,
    /// What the plan's command left behind, while it waits to be judged.
    pub output: Option<Output>,
}

/// The exit code of a command that succeeded.
pub open spec fn exited_cleanly(output: Output) -> bool {
    output.status_code == Some(0i32)
}

/// `action` ends the run with a step error of this kind and description around
/// this output.
pub open spec fn fails_with(
    action: Action,
    kind: Kind,
    description: Seq<char>,
    output: Output,
) -> bool {
    action matches Action::Finish(
        Err(Error::StepError { kind: found, description: words, command_output }),
    ) && found == kind && words@ == description && command_output == output
}

impl Action {
    /// The actions that the machine cannot answer from the steps alone: the two
    /// that need the outside world, and the end.
    pub open spec fn is_outward(&self) -> bool {
        self is Announce || self is Execute || self is Finish
    }
}

impl Lifecycle {
    /// The machine points at a step unless the run is over, and holds an output
    /// while it waits for a judgment.
    pub open spec fn wf(&self) -> bool {
        &&& self.phase is Done || self.step < self.steps
        &&& self.phase is Judge ==> self.output is Some
    }

    /// The event is an answer to the action that led to this phase.
    pub open spec fn expects(&self, event: Event) -> bool {
        match self.phase {
            Phase::Announce | Phase::Plan => event is Planned,
            Phase::Announced => event is Acknowledged,
            Phase::Setup => event is SetUp,
            Phase::Execute | Phase::Check | Phase::Test => event is Executed,
            Phase::Judge => event is Judged,
            Phase::AskCheck | Phase::AskTest => event is Asked,
            Phase::Done => false,
        }
    }

    /// The action is the one that this phase waits on.
    pub open spec fn asks(&self, action: Action) -> bool {
        match action {
            Action::Plan { step } => (self.phase is Announce || self.phase is Plan) && step
                == self.step,
            Action::Announce { .. } => self.phase is Announced,
            Action::SetUp { step } => self.phase is Setup && step == self.step,
            Action::Execute { kind, .. } => match kind {
                Kind::Plan => self.phase is Execute,
                Kind::Check => self.phase is Check,
                Kind::Test => self.phase is Test,
                Kind::Setup => false,
            },
            Action::Judge { step } => self.phase is Judge && step == self.step,
            Action::AskCheck { step } => self.phase is AskCheck && step == self.step,
            Action::AskTest { step } => self.phase is AskTest && step == self.step,
            Action::Finish(_) => self.phase is Done,
        }
    }

    /// The machine waits for the outside world or for nothing: none of the steps
    /// has a question to answer.
    pub open spec fn waits_outward(&self) -> bool {
        ||| self.phase is Announced
        ||| self.phase is Execute
        ||| self.phase is Check
        ||| self.phase is Test
        ||| self.phase is Done
    }

    /// How far the phase is from the end of its step.
    pub open spec fn phase_rank(phase: Phase) -> int {
        match phase {
            Phase::Announce => 10,
            Phase::Announced => 9,
            Phase::Setup => 8,
            Phase::Plan => 7,
            Phase::Execute => 6,
            Phase::Judge => 5,
            Phase::AskCheck => 4,
            Phase::Check => 3,
            Phase::AskTest => 2,
            Phase::Test => 1,
            Phase::Done => 0,
        }
    }

    /// How far the run is from its end at most, in events. It is 0 when the run
    /// is over, and every event lowers it.
    pub open spec fn rank(&self) -> int {
        if self.phase is Done {
            0
        } else {
            (self.steps - self.step) * 11 + Self::phase_rank(self.phase)
        }
    }

    /// `after` stands at the same step as `before`, in the given phase.
    pub open spec fn moved(before: Self, after: Self, phase: Phase) -> bool {
        &&& after.steps == before.steps
        &&& after.step == before.step
        &&& after.phase == phase
    }

    /// `after` is the end of the run that stood at `before`, and `action` says so
    /// with `result`.
    pub open spec fn stopped(
        before: Self,
        after: Self,
        action: Action,
        result: Result<(), Error>,
    ) -> bool {
        &&& after.steps == before.steps
        &&& after.phase is Done
        &&& action == Action::Finish(result)
    }

    /// `after` and `action` leave the step of `before` behind: the next step is
    /// to be announced, or the run ends well where there is none.
    pub open spec fn left_step(before: Self, after: Self, action: Action) -> bool {
        &&& after.steps == before.steps
        &&& after.step == before.step + 1
        &&& after.output == before.output
        &&& after.ctx == before.ctx
        &&& if before.step + 1 < before.steps {
            after.phase is Announce && action == (Action::Plan { step: after.step })
        } else {
            after.phase is Done && action == Action::Finish(Ok(()))
        }
    }

    /// What [`Lifecycle::advance`] makes of an event: the machine after it, and
    /// the action that it answers with.
    ///
    /// Every plan brings its context with it, so the context that is kept for
    /// the judgment is that of the plan whose command ran. Every error of a step
    /// or of a command ends the run with that error. A judgment of `false`
    /// leaves the step without an error. An error in place of a judgment ends
    /// the run with a step error of kind `Plan` around the output that was
    /// judged. A check or test command that does not exit with 0 ends the run
    /// with a step error of its kind around its output.
    pub open spec fn follows(before: Self, event: Event, after: Self, action: Action) -> bool {
        match event {
            Event::Planned(Ok(plan)) => {
                &&& after.output == before.output
                &&& after.ctx == plan.ctx
                &&& if before.phase is Announce {
                    &&& Self::moved(before, after, Phase::Announced)
                    &&& action == (Action::Announce { id: plan.id })
                } else {
                    &&& Self::moved(before, after, Phase::Execute)
                    &&& action == (Action::Execute { command: plan.command, kind: Kind::Plan })
                }
            },
            Event::Acknowledged => {
                &&& Self::moved(before, after, Phase::Setup)
                &&& after.ctx == before.ctx
                &&& after.output == before.output
                &&& action == (Action::SetUp { step: before.step })
            },
            Event::SetUp(Ok(_)) => {
                &&& Self::moved(before, after, Phase::Plan)
                &&& after.ctx == before.ctx
                &&& after.output == before.output
                &&& action == (Action::Plan { step: before.step })
            },
            Event::Executed(Ok(output)) => {
                &&& after.ctx == before.ctx
                &&& if before.phase is Execute {
                    &&& Self::moved(before, after, Phase::Judge)
                    &&& after.output == Some(output)
                    &&& action == (Action::Judge { step: before.step })
                } else if before.phase is Check {
                    &&& after.output == before.output
                    &&& if exited_cleanly(output) {
                        &&& Self::moved(before, after, Phase::AskTest)
                        &&& action == (Action::AskTest { step: before.step })
                    } else {
                        &&& after.steps == before.steps
                        &&& after.phase is Done
                        &&& fails_with(action, Kind::Check, CHECK_FAILED@, output)
                    }
                } else {
                    &&& after.output == before.output
                    &&& if exited_cleanly(output) {
                        Self::left_step(before, after, action)
                    } else {
                        &&& after.steps == before.steps
                        &&& after.phase is Done
                        &&& fails_with(action, Kind::Test, TEST_FAILED@, output)
                    }
                }
            },
            Event::Judged(Ok(passed)) => {
                &&& after.ctx == before.ctx
                &&& after.output is None
                &&& if passed {
                    &&& Self::moved(before, after, Phase::AskCheck)
                    &&& action == (Action::AskCheck { step: before.step })
                } else {
                    Self::left_step(Self { output: None, ..before }, after, action)
                }
            },
            Event::Judged(Err(reason)) => {
                &&& after.steps == before.steps
                &&& after.phase is Done
                &&& after.output is None
                &&& before.output matches Some(output)
                &&& fails_with(action, Kind::Plan, reason@, output)
            },
            Event::Asked(Some(command)) => {
                &&& after.ctx == before.ctx
                &&& after.output == before.output
                &&& if before.phase is AskCheck {
                    &&& Self::moved(before, after, Phase::Check)
                    &&& action == (Action::Execute { command, kind: Kind::Check })
                } else {
                    &&& Self::moved(before, after, Phase::Test)
                    &&& action == (Action::Execute { command, kind: Kind::Test })
                }
            },
            Event::Asked(None) => {
                &&& after.ctx == before.ctx
                &&& after.output == before.output
                &&& if before.phase is AskCheck {
                    &&& Self::moved(before, after, Phase::AskTest)
                    &&& action == (Action::AskTest { step: before.step })
                } else {
                    Self::left_step(before, after, action)
                }
            },
            Event::Planned(Err(error)) | Event::SetUp(Err(error)) | Event::Executed(
                Err(error),
            ) => Self::stopped(before, after, action, Err(error)),
        }
    }

    /// The machine of a fresh run of `steps` steps, and its first action: to plan
    /// the first step, or to stop at once where there is none.
    pub open spec fn begun(steps: usize) -> (Self, Action) {
        if steps == 0 {
            (
                Self { steps, step: 0, phase: Phase::Done, ctx: None, output: None },
                Action::Finish(Ok(())),
            )
        } else {
            (
                Self { steps, step: 0, phase: Phase::Announce, ctx: None, output: None },
                Action::Plan { step: 0 },
            )
        }
    }

    /// The answers of the steps, taken in one after the other, lead from the
    /// machine `start` with its action `first` to the machine `now` with its
    /// action `pending`. Each answer answers the action before it, which is one
    /// for a step, and [`Lifecycle::follows`] gives the machine and the action
    /// after it.
    pub open spec fn reached(
        start: Self,
        first: Action,
        answers: Seq<Event>,
        now: Self,
        pending: Action,
    ) -> bool
        decreases answers.len(),
    {
        if answers.len() == 0 {
            now == start && pending == first
        } else {
            exists|mid: Self, asked: Action|
                #![trigger Self::follows(mid, answers.last(), now, pending), mid.asks(asked)]
                {
                    &&& Self::reached(start, first, answers.drop_last(), mid, asked)
                    &&& !asked.is_outward()
                    &&& mid.wf()
                    &&& mid.asks(asked)
                    &&& mid.expects(answers.last())
                    &&& Self::follows(mid, answers.last(), now, pending)
                }
        }
    }

    /// The event from outside and then the answers of the steps lead from the
    /// machine `before` to the machine `after` with its action `request`.
    pub open spec fn resumed_through(
        before: Self,
        event: Event,
        answers: Seq<Event>,
        after: Self,
        request: Action,
    ) -> bool {
        exists|mid: Self, first: Action|
            {
                &&& #[trigger] Self::follows(before, event, mid, first)
                &&& Self::reached(mid, first, answers, after, request)
            }
    }

    /// The run has ended with an error.
    pub open spec fn failed(after: Self, request: Action) -> bool {
        after.phase is Done && request matches Action::Finish(Err(_))
    }

    /// The run waits for its caller at this step and in this phase, with the
    /// action of that phase.
    pub open spec fn waits_at(after: Self, request: Action, step: int, phase: Phase) -> bool {
        &&& after.step == step
        &&& after.phase == phase
        &&& after.asks(request)
        &&& request.is_outward()
    }

    /// What can come of leaving the step of `before` behind. Where a step
    /// follows, it is announced or fails to plan. Where none follows, the run
    /// ends well.
    pub open spec fn enters_next(before: Self, after: Self, request: Action) -> bool {
        if before.step + 1 < before.steps {
            Self::waits_at(after, request, before.step + 1, Phase::Announced) || Self::failed(
                after,
                request,
            )
        } else {
            after.phase is Done && request == Action::Finish(Ok(()))
        }
    }

    /// Where the machine `before` with its action `pending` can come to wait
    /// for the caller, whatever the steps answer.
    ///
    /// An action for the caller is waited on as it is. A step that is planned to
    /// be announced is announced or fails. A step that is set up runs its plan's
    /// command or fails. A step that is judged fails, or goes on to its check
    /// command, to its test command or to the next step, and a step that is
    /// asked for a command goes on in the same way.
    pub open spec fn ends(before: Self, pending: Action, after: Self, request: Action) -> bool {
        if pending.is_outward() {
            after == before && request == pending
        } else {
            &&& after.steps == before.steps
            &&& match before.phase {
                Phase::Announce => {
                    ||| Self::waits_at(after, request, before.step as int, Phase::Announced)
                    ||| Self::failed(after, request)
                },
                Phase::Setup | Phase::Plan => {
                    ||| Self::waits_at(after, request, before.step as int, Phase::Execute)
                    ||| Self::failed(after, request)
                },
                Phase::Judge => {
                    ||| Self::failed(after, request)
                    ||| Self::waits_at(after, request, before.step as int, Phase::Check)
                    ||| Self::waits_at(after, request, before.step as int, Phase::Test)
                    ||| Self::enters_next(before, after, request)
                },
                Phase::AskCheck => {
                    ||| Self::waits_at(after, request, before.step as int, Phase::Check)
                    ||| Self::waits_at(after, request, before.step as int, Phase::Test)
                    ||| Self::enters_next(before, after, request)
                },
                Phase::AskTest => {
                    ||| Self::waits_at(after, request, before.step as int, Phase::Test)
                    ||| Self::enters_next(before, after, request)
                },
                _ => false,
            }
        }
    }

    /// What can come of an event from outside, whatever the steps answer: where
    /// the run waits for its caller next.
    ///
    /// An announced step runs its plan's command, unless its setup or its plan
    /// fails. A command that could not run ends the run with its error. The
    /// output of a plan's command is judged: the run fails, or goes on to the
    /// check command, to the test command or to the next step. A check command
    /// that exits with 0 leads to the test command or to the next step, a test
    /// command that does so to the next step, and either ends the run with its
    /// step error where it does not. The run ends well only behind its last
    /// step.
    pub open spec fn resumed(before: Self, event: Event, after: Self, request: Action) -> bool {
        &&& after.steps == before.steps
        &&& match event {
            Event::Acknowledged => {
                ||| Self::waits_at(after, request, before.step as int, Phase::Execute)
                ||| Self::failed(after, request)
            },
            Event::Executed(Err(error)) => after.phase is Done && request == Action::Finish(
                Err(error),
            ),
            Event::Executed(Ok(output)) => match before.phase {
                Phase::Execute => {
                    ||| Self::failed(after, request)
                    ||| Self::waits_at(after, request, before.step as int, Phase::Check)
                    ||| Self::waits_at(after, request, before.step as int, Phase::Test)
                    ||| Self::enters_next(before, after, request)
                },
                Phase::Check => if exited_cleanly(output) {
                    ||| Self::waits_at(after, request, before.step as int, Phase::Test)
                    ||| Self::enters_next(before, after, request)
                } else {
                    after.phase is Done && fails_with(request, Kind::Check, CHECK_FAILED@, output)
                },
                _ => if exited_cleanly(output) {
                    Self::enters_next(before, after, request)
                } else {
                    after.phase is Done && fails_with(request, Kind::Test, TEST_FAILED@, output)
                },
            },
            _ => false,
        }
    }

    /// A chain of answers grows by one link at its end.
    pub proof fn lemma_reached_extends(
        start: Self,
        first: Action,
        answers: Seq<Event>,
        mid: Self,
        asked: Action,
        answer: Event,
        now: Self,
        pending: Action,
    )
        requires
            Self::reached(start, first, answers, mid, asked),
            !asked.is_outward(),
            mid.wf(),
            mid.asks(asked),
            mid.expects(answer),
            Self::follows(mid, answer, now, pending),
        ensures
            Self::reached(start, first, answers.push(answer), now, pending),
    {
        let longer = answers.push(answer);
        assert(longer.drop_last() =~= answers);
        assert(longer.last() == answer);
        assert(Self::reached(start, first, longer.drop_last(), mid, asked));
        assert(Self::follows(mid, longer.last(), now, pending));
    }

    /// One answer of a step can only narrow where the run comes to wait: what can
    /// come of the machine after the answer can come of the machine before it.
    pub proof fn lemma_answer_narrows(
        before: Self,
        asked: Action,
        answer: Event,
        now: Self,
        pending: Action,
        after: Self,
        request: Action,
    )
        requires
            before.wf(),
            before.asks(asked),
            !asked.is_outward(),
            before.expects(answer),
            Self::follows(before, answer, now, pending),
            Self::ends(now, pending, after, request),
        ensures
            Self::ends(before, asked, after, request),
    {
    }

    /// What comes of an event from outside, by [`Lifecycle::follows`] for the
    /// event and [`Lifecycle::ends`] for the steps' answers, is what
    /// [`Lifecycle::resumed`] allows.
    pub proof fn lemma_resumed(
        before: Self,
        event: Event,
        mid: Self,
        first: Action,
        after: Self,
        request: Action,
    )
        requires
            before.wf(),
            before.waits_outward(),
            before.expects(event),
            Self::follows(before, event, mid, first),
            Self::ends(mid, first, after, request),
        ensures
            Self::resumed(before, event, after, request),
    {
    }

    /// An error of a step or of a command ends the run with that error, whatever
    /// the phase: no later step is asked for anything.
    pub proof fn lemma_error_ends_run(before: Self, event: Event, after: Self, action: Action)
        requires
            before.wf(),
            before.expects(event),
            Self::follows(before, event, after, action),
            event matches Event::Planned(Err(_)) || event matches Event::SetUp(Err(_))
                || event matches Event::Executed(Err(_)),
        ensures
            after.phase is Done,
            action matches Action::Finish(Err(error)) && (event == Event::Planned(Err(error))
                || event == Event::SetUp(Err(error)) || event == Event::Executed(Err(error))),
            forall|next: Event| !after.expects(next),
    {
    }

    /// The step judges the output of a command with the context of the plan that
    /// the command came from, not with that of an earlier plan.
    pub proof fn lemma_judgment_gets_the_executed_plan(
        planning: Self,
        plan: Plan,
        running: Self,
        run: Action,
        output: Output,
        judging: Self,
        judge: Action,
    )
        requires
            planning.wf(),
            planning.phase is Plan,
            Self::follows(planning, Event::Planned(Ok(plan)), running, run),
            Self::follows(running, Event::Executed(Ok(output)), judging, judge),
        ensures
            run == (Action::Execute { command: plan.command, kind: Kind::Plan }),
            judge == (Action::Judge { step: planning.step }),
            judging.phase is Judge,
            judging.ctx == plan.ctx,
            judging.output == Some(output),
    {
    }

    /// A run ends with an error only for one of four reasons: a step or a
    /// command failed with an error, a judgment failed with an error, or a check
    /// or test command did not exit with 0. A command of a plan that exits with
    /// another code is no reason, and neither is a judgment of `false`.
    pub proof fn lemma_run_fails_only_on_failure(
        before: Self,
        event: Event,
        after: Self,
        action: Action,
    )
        requires
            before.wf(),
            before.expects(event),
            Self::follows(before, event, after, action),
            action matches Action::Finish(Err(_)),
        ensures
            ({
                ||| event matches Event::Planned(Err(_))
                ||| event matches Event::SetUp(Err(_))
                ||| event matches Event::Executed(Err(_))
                ||| event matches Event::Judged(Err(_))
                ||| {
                    &&& event matches Event::Executed(Ok(output))
                    &&& !exited_cleanly(output)
                    &&& before.phase is Check || before.phase is Test
                }
            }),
    {
    }

    /// A run ends well only behind its last step.
    pub proof fn lemma_success_only_after_last_step(
        before: Self,
        event: Event,
        after: Self,
        action: Action,
    )
        requires
            before.wf(),
            before.expects(event),
            Self::follows(before, event, after, action),
            action == Action::Finish(Ok(())),
        ensures
            before.step + 1 == before.steps,
            event matches Event::Judged(Ok(false)) || event matches Event::Asked(None)
                || event matches Event::Executed(Ok(_)),
    {
    }

    /// A judgment that fails with an error ends the run with a step error of kind
    /// `Plan` that holds the output that was judged.
    pub proof fn lemma_judgment_error_ends_run(
        before: Self,
        reason: &'static str,
        after: Self,
        action: Action,
    )
        requires
            before.wf(),
            before.expects(Event::Judged(Err(reason))),
            Self::follows(before, Event::Judged(Err(reason)), after, action),
        ensures
            after.phase is Done,
            fails_with(action, Kind::Plan, reason@, before.output->0),
    {
    }

    /// A judgment of `false` is no error: the rest of the step is left out, and
    /// the run goes on with the next step or ends well after the last one.
    pub proof fn lemma_soft_failure_moves_on(before: Self, after: Self, action: Action)
        requires
            before.wf(),
            before.expects(Event::Judged(Ok(false))),
            Self::follows(before, Event::Judged(Ok(false)), after, action),
        ensures
            before.step + 1 < before.steps ==> after.phase is Announce && action == (Action::Plan {
                step: (before.step + 1) as usize,
            }),
            before.step + 1 == before.steps ==> after.phase is Done && action == Action::Finish(
                Ok(()),
            ),
    {
    }

    /// A check or test command that does not exit with 0 ends the run with a step
    /// error of its kind around its output, and an exit with 0 never does.
    pub proof fn lemma_check_and_test_must_exit_cleanly(
        before: Self,
        output: Output,
        after: Self,
        action: Action,
    )
        requires
            before.wf(),
            before.phase is Check || before.phase is Test,
            Self::follows(before, Event::Executed(Ok(output)), after, action),
        ensures
            !exited_cleanly(output) ==> after.phase is Done && fails_with(
                action,
                if before.phase is Check {
                    Kind::Check
                } else {
                    Kind::Test
                },
                if before.phase is Check {
                    CHECK_FAILED@
                } else {
                    TEST_FAILED@
                },
                output,
            ),
            exited_cleanly(output) ==> !(action matches Action::Finish(Err(_))),
    {
    }

    /// The machine of a run of `steps` steps that has not begun or is over.
    pub fn idle(steps: usize) -> (machine: Self)
        ensures
            machine.wf(),
            machine.steps == steps,
            machine.step == 0,
            machine.phase is Done,
            machine.ctx is None,
            machine.output is None,
    {
        Self { steps, step: 0, phase: Phase::Done, ctx: None, output: None }
    }

    /// The machine of a run of `steps` steps, and its first action: to plan the
    /// first step, or to stop at once where there is none.
    pub fn begin(steps: usize) -> (started: (Self, Action))
        ensures
            started.0 == Self::begun(steps).0,
            started.1 == Self::begun(steps).1,
            started.0.wf(),
            started.0.asks(started.1),
            started.0.steps == steps,
            started.0.step == 0,
            started.0.ctx is None,
            started.0.output is None,
            steps == 0 ==> started.0.phase is Done && started.1 == Action::Finish(Ok(())),
            steps > 0 ==> started.0.phase is Announce && started.1 == (Action::Plan { step: 0 }),
    {
        if steps == 0 {
            (
                Self { steps, step: 0, phase: Phase::Done, ctx: None, output: None },
                Action::Finish(Ok(())),
            )
        } else {
            (
                Self { steps, step: 0, phase: Phase::Announce, ctx: None, output: None },
                Action::Plan { step: 0 },
            )
        }
    }

    /// Ends the run with `result`.
    fn stop(&mut self, result: Result<(), Error>) -> (action: Action)
        ensures
            final(self).phase is Done,
            final(self).steps == old(self).steps,
            final(self).step == old(self).step,
            final(self).ctx == old(self).ctx,
            final(self).output == old(self).output,
            action == Action::Finish(result),
    {
        self.phase = Phase::Done;
        Action::Finish(result)
    }

    /// Ends the run with a step error.
    fn fail(&mut self, kind: Kind, description: &str, output: Output) -> (action: Action)
        ensures
            final(self).phase is Done,
            final(self).steps == old(self).steps,
            final(self).step == old(self).step,
            final(self).ctx == old(self).ctx,
            final(self).output == old(self).output,
            fails_with(action, kind, description@, output),
    {
        self.stop(
            Err(
                Error::StepError {
                    kind,
                    description: description.to_owned(),
                    command_output: output,
                },
            ),
        )
    }

    /// Leaves the step behind.
    fn leave_step(&mut self) -> (action: Action)
        requires
            old(self).step < old(self).steps,
        ensures
            Self::left_step(*old(self), *final(self), action),
    {
        self.step = self.step + 1;
        if self.step < self.steps {
            self.phase = Phase::Announce;
            Action::Plan { step: self.step }
        } else {
            self.stop(Ok(()))
        }
    }

    /// Takes in what happened and says what to do next.
    pub fn advance(&mut self, event: Event) -> (action: Action)
        requires
            old(self).wf(),
            old(self).expects(event),
        ensures
            final(self).wf(),
            final(self).asks(action),
            final(self).rank() < old(self).rank(),
            Self::follows(*old(self), event, *final(self), action),
    {
        match event {
            Event::Planned(Ok(plan)) => {
                self.ctx = plan.ctx;
                if self.phase == Phase::Announce {
                    self.phase = Phase::Announced;
                    Action::Announce { id: plan.id }
                } else {
                    self.phase = Phase::Execute;
                    Action::Execute { command: plan.command, kind: Kind::Plan }
                }
            },
            Event::Acknowledged => {
                self.phase = Phase::Setup;
                Action::SetUp { step: self.step }
            },
            Event::SetUp(Ok(_)) => {
                self.phase = Phase::Plan;
                Action::Plan { step: self.step }
            },
            Event::Executed(Ok(output)) => {
                if self.phase == Phase::Execute {
                    self.phase = Phase::Judge;
                    self.output = Some(output);
                    Action::Judge { step: self.step }
                } else {
                    let clean = match output.status_code {
                        Some(code) => code == 0,
                        None => false,
                    };
                    if self.phase == Phase::Check {
                        if clean {
                            self.phase = Phase::AskTest;
                            Action::AskTest { step: self.step }
                        } else {
                            self.fail(Kind::Check, CHECK_FAILED, output)
                        }
                    } else {
                        if clean {
                            self.leave_step()
                        } else {
                            self.fail(Kind::Test, TEST_FAILED, output)
                        }
                    }
                }
            },
            Event::Judged(verdict) => {
                let output = self.output.take().unwrap();
                match verdict {
                    Ok(true) => {
                        self.phase = Phase::AskCheck;
                        Action::AskCheck { step: self.step }
                    },
                    Ok(false) => self.leave_step(),
                    Err(reason) => self.fail(Kind::Plan, reason, output),
                }
            },
            Event::Asked(Some(command)) => {
                if self.phase == Phase::AskCheck {
                    self.phase = Phase::Check;
                    Action::Execute { command, kind: Kind::Check }
                } else {
                    self.phase = Phase::Test;
                    Action::Execute { command, kind: Kind::Test }
                }
            },
            Event::Asked(None) => {
                if self.phase == Phase::AskCheck {
                    self.phase = Phase::AskTest;
                    Action::AskTest { step: self.step }
                } else {
                    self.leave_step()
                }
            },
            Event::Planned(Err(error)) => self.stop(Err(error)),
            Event::SetUp(Err(error)) => self.stop(Err(error)),
            Event::Executed(Err(error)) => self.stop(Err(error)),
        }
    }
}

} // verus!
