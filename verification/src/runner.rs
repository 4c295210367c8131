//! The runner: an ordered list of steps and the one randomizer that they share.
//!
//! The runner plans, sets up and judges the steps itself. It runs no command:
//! whenever a command is due it hands an [`Action::Execute`] to its caller and
//! takes the output back through [`Runner::resume`].
use crate::errors::Error;
use crate::lifecycle::{exited_cleanly, Action, Event, Lifecycle, Phase};
use crate::randomizer::Randomizer;
use crate::report::{plan_entry, render, report_text, yaml_text, Labels, PlanEntry};
use crate::step::StepTrait;
use crate::stream::seeded_stream;
use vstd::prelude::*;

verus! {

/// A run: the steps in the order in which they are taken, the randomizer that
/// every plan draws from, and where the run stands.
pub struct Runner {
    steps: Vec<Box<dyn StepTrait>>,
    init: Option<Box<dyn StepTrait>>,
    randomizer: Randomizer,
    progress: Lifecycle,
}

/// A runner over `steps`, with a seed from the operating system.
#[must_use]
pub fn new(steps: Vec<Box<dyn StepTrait>>) -> (runner: Runner)
    ensures
        runner.wf(),
        runner.step_count() == steps@.len(),
        runner.stream() == seeded_stream(runner.seed()),
        runner.progress().phase is Done,
        !runner.has_init_step(),
{
    let progress = Lifecycle::idle(steps.len());
    Runner { steps, init: None, randomizer: Randomizer::default(), progress }
}

/// Whether what came of a command settles the next action for the caller of the
/// runner, with no question to a step: the command could not run, a check or
/// test command failed, or the last test command of the run succeeded.
pub open spec fn settles(before: Lifecycle, event: Event) -> bool {
    match event {
        Event::Executed(Err(_)) => true,
        Event::Executed(Ok(output)) => {
            ||| before.phase is Check && !exited_cleanly(output)
            ||| before.phase is Test && (!exited_cleanly(output) || before.step + 1
                >= before.steps)
        },
        _ => false,
    }
}

impl Runner {
    /// The number of steps.
    pub closed spec fn step_count(&self) -> nat {
        self.steps@.len()
    }

    /// Where the run stands.
    pub closed spec fn progress(&self) -> Lifecycle {
        self.progress
    }

    /// The machine is sound, counts as many steps as the runner holds, and
    /// waits for the caller of the runner, not for a step.
    pub open spec fn wf(&self) -> bool {
        &&& self.progress().wf()
        &&& self.progress().waits_outward()
        &&& self.progress().steps == self.step_count()
    }

    /// The words that the randomizer has yet to hand out.
    pub closed spec fn stream(&self) -> Map<nat, u32> {
        self.randomizer.stream()
    }

    /// The seed of the randomizer.
    pub closed spec fn seed(&self) -> u64 {
        self.randomizer.seed
    }

    /// Whether a step has been set aside to run before the others.
    pub closed spec fn has_init_step(&self) -> bool {
        self.init is Some
    }

    /// Sets a step aside to run before the others.
    #[must_use]
    pub fn init_step(self, step: Box<dyn StepTrait>) -> (runner: Self)
        ensures
            runner.wf() == self.wf(),
            runner.has_init_step(),
            runner.step_count() == self.step_count(),
            runner.stream() == self.stream(),
            runner.seed() == self.seed(),
            runner.progress() == self.progress(),
    {
        Runner {
            steps: self.steps,
            init: Some(step),
            randomizer: self.randomizer,
            progress: self.progress,
        }
    }

    /// Replaces the randomizer.
    #[must_use]
    pub fn randomizer(self, randomizer: Randomizer) -> (runner: Self)
        ensures
            runner.wf() == self.wf(),
            runner.stream() == randomizer.stream(),
            runner.seed() == randomizer.seed,
            runner.step_count() == self.step_count(),
            runner.has_init_step() == self.has_init_step(),
            runner.progress() == self.progress(),
    {
        Runner { steps: self.steps, init: self.init, randomizer, progress: self.progress }
    }

    /// The seed that the randomizer was made from.
    pub fn current_seed(&self) -> (seed: u64)
        ensures
            seed == self.seed(),
    {
        self.randomizer.seed
    }

    /// What the run waits for.
    pub fn phase(&self) -> (phase: Phase)
        ensures
            phase == self.progress().phase,
    {
        self.progress.phase
    }

    /// The report of what the run is about to do: its seed and, for each step in
    /// order, one plan and the state of the step.
    ///
    /// Each step plans once, so the report uses up draws of the randomizer. The
    /// first step that fails to plan ends the report with its error. No command
    /// is run.
    ///
    /// Only a step can make the report fail: a run without steps always has its
    /// report, which is the head alone, and its randomizer stays as it is. A
    /// report that is there holds the labels in their styles, the number of steps,
    /// the seed that the randomizer had before the first plan, and one entry for
    /// each step.
    pub fn dump_plan(&mut self) -> (report: Result<String, Error>)
        ensures
            final(self).wf() == old(self).wf(),
            final(self).step_count() == old(self).step_count(),
            final(self).progress() == old(self).progress(),
            final(self).has_init_step() == old(self).has_init_step(),
            old(self).step_count() == 0 ==> {
                &&& report is Ok
                &&& final(self).stream() == old(self).stream()
                &&& final(self).seed() == old(self).seed()
            },
            report matches Ok(text) ==> exists|labels: Labels, entries: Seq<PlanEntry>|
                {
                    &&& labels.is_styled()
                    &&& entries.len() == old(self).step_count()
                    &&& text@ == #[trigger] report_text(
                        labels,
                        old(self).step_count(),
                        old(self).seed(),
                        entries,
                    )
                },
    {
        let labels = Labels::styled();
        let seed = self.randomizer.seed;
        let count = self.steps.len();
        let mut entries: Vec<PlanEntry> = Vec::new();
        let mut at: usize = 0;
        while at < count
            invariant
                at <= count,
                count == self.steps@.len(),
                entries@.len() == at,
                seed == old(self).randomizer.seed,
                at == 0 ==> self.randomizer == old(self).randomizer,
                labels.is_styled(),
                self.steps == old(self).steps,
                self.init == old(self).init,
                self.progress == old(self).progress,
            decreases count - at,
        {
            let execution_plan = match self.steps[at].plan(&mut self.randomizer) {
                Ok(plan) => plan,
                Err(error) => {
                    return Err(error);
                },
            };
            let state = yaml_text(&self.steps[at].to_yaml());
            entries.push(plan_entry(at, execution_plan, state));
            at += 1;
        }
        let text = render(&labels, count, seed, &entries);
        proof {
            assert(entries@.len() == old(self).step_count());
            assert(text@ == report_text(
                labels,
                old(self).step_count(),
                old(self).seed(),
                entries@,
            ));
        }
        Ok(text)
    }

    /// Follows the machine until it asks for something that the steps cannot
    /// give: the steps answer every other action, one after the other, and the
    /// machine takes each answer in.
    fn drive(&mut self, first: Action) -> (request: Action)
        requires
            old(self).progress.wf(),
            old(self).progress.steps == old(self).steps@.len(),
            old(self).progress.asks(first),
        ensures
            final(self).wf(),
            request.is_outward(),
            final(self).progress.asks(request),
            final(self).progress.rank() <= old(self).progress.rank(),
            exists|answers: Seq<Event>| #[trigger]
                Lifecycle::reached(
                    old(self).progress,
                    first,
                    answers,
                    final(self).progress,
                    request,
                ),
            Lifecycle::ends(old(self).progress, first, final(self).progress, request),
            final(self).steps == old(self).steps,
            final(self).init == old(self).init,
    {
        let mut action = first;
        let ghost mut answers: Seq<Event> = Seq::empty();
        loop
            invariant
                self.progress.asks(action),
                self.progress.wf(),
                self.progress.steps == self.steps@.len(),
                self.progress.rank() <= old(self).progress.rank(),
                self.steps == old(self).steps,
                self.init == old(self).init,
                Lifecycle::reached(old(self).progress, first, answers, self.progress, action),
                forall|after: Lifecycle, request: Action| #[trigger]
                    Lifecycle::ends(self.progress, action, after, request) ==> Lifecycle::ends(
                        old(self).progress,
                        first,
                        after,
                        request,
                    ),
            decreases self.progress.rank(),
        {
            let ghost before = self.progress;
            let ghost asked = action;
            proof {
                if action.is_outward() {
                    assert(Lifecycle::ends(before, action, before, action));
                }
            }
            let event = match action {
                Action::Plan { step } => Event::Planned(
                    self.steps[step].plan(&mut self.randomizer),
                ),
                Action::SetUp { step } => Event::SetUp(self.steps[step].setup()),
                Action::Judge { step } => Event::Judged(
                    self.steps[step].is_success(
                        self.progress.output.as_ref().unwrap(),
                        &self.progress.ctx,
                    ),
                ),
                Action::AskCheck { step } => Event::Asked(self.steps[step].run_check()),
                Action::AskTest { step } => Event::Asked(self.steps[step].run_test()),
                outward => {
                    return outward;
                },
            };
            let ghost answer = event;
            action = self.progress.advance(event);
            proof {
                let longer = answers.push(answer);
                Lifecycle::lemma_reached_extends(
                    old(self).progress,
                    first,
                    answers,
                    before,
                    asked,
                    answer,
                    self.progress,
                    action,
                );
                assert forall|after: Lifecycle, request: Action| #[trigger]
                    Lifecycle::ends(self.progress, action, after, request) implies Lifecycle::ends(
                    old(self).progress,
                    first,
                    after,
                    request,
                ) by {
                    Lifecycle::lemma_answer_narrows(
                        before,
                        asked,
                        answer,
                        self.progress,
                        action,
                        after,
                        request,
                    );
                    assert(Lifecycle::ends(before, asked, after, request));
                }
                answers = longer;
            }
        }
    }

    /// Begins the run at the first step and takes it to the first action that
    /// the caller has to take.
    ///
    /// A run without steps ends well at once. Any other run has its first step
    /// plan: the step is announced, or the run ends with the error of the plan.
    /// The steps' answers lead from the fresh machine to the machine and the
    /// action that come back, link by link.
    pub fn start(&mut self) -> (request: Action)
        ensures
            final(self).wf(),
            request.is_outward(),
            final(self).progress().asks(request),
            final(self).step_count() == old(self).step_count(),
            final(self).has_init_step() == old(self).has_init_step(),
            old(self).step_count() == 0 ==> request == Action::Finish(Ok(())),
            old(self).step_count() > 0 ==> {
                ||| Lifecycle::waits_at(final(self).progress(), request, 0, Phase::Announced)
                ||| Lifecycle::failed(final(self).progress(), request)
            },
            exists|answers: Seq<Event>| #[trigger]
                Lifecycle::reached(
                    Lifecycle::begun(old(self).step_count() as usize).0,
                    Lifecycle::begun(old(self).step_count() as usize).1,
                    answers,
                    final(self).progress(),
                    request,
                ),
    {
        let (progress, first) = Lifecycle::begin(self.steps.len());
        let ghost fresh = progress;
        let ghost asked = first;
        self.progress = progress;
        let request = self.drive(first);
        proof {
            let answers = choose|answers: Seq<Event>| #[trigger]
                Lifecycle::reached(fresh, asked, answers, self.progress, request);
            assert(fresh == Lifecycle::begun(old(self).step_count() as usize).0);
            assert(asked == Lifecycle::begun(old(self).step_count() as usize).1);
            assert(Lifecycle::reached(
                Lifecycle::begun(old(self).step_count() as usize).0,
                Lifecycle::begun(old(self).step_count() as usize).1,
                answers,
                self.progress,
                request,
            ));
        }
        request
    }

    /// Takes in the answer to the last action and takes the run to the next
    /// action that the caller has to take.
    ///
    /// Where the event settles that action, it is the action that the machine
    /// answers with. Where the machine first has questions for the steps, the
    /// steps are asked, and their answers decide among what
    /// [`Lifecycle::resumed`] allows. The event and then the steps' answers lead
    /// from the old machine to the machine and the action that come back, link
    /// by link.
    pub fn resume(&mut self, event: Event) -> (request: Action)
        requires
            old(self).wf(),
            old(self).progress().expects(event),
        ensures
            final(self).wf(),
            request.is_outward(),
            final(self).progress().asks(request),
            final(self).progress().rank() < old(self).progress().rank(),
            final(self).step_count() == old(self).step_count(),
            final(self).has_init_step() == old(self).has_init_step(),
            settles(old(self).progress(), event) ==> Lifecycle::follows(
                old(self).progress(),
                event,
                final(self).progress(),
                request,
            ),
            Lifecycle::resumed(old(self).progress(), event, final(self).progress(), request),
            request == Action::Finish(Ok(())) ==> {
                let before = old(self).progress();
                before.step + 1 == before.steps
            },
            exists|answers: Seq<Event>| #[trigger]
                Lifecycle::resumed_through(
                    old(self).progress(),
                    event,
                    answers,
                    final(self).progress(),
                    request,
                ),
    {
        let ghost before = self.progress;
        let first = self.progress.advance(event);
        let ghost mid = self.progress;
        let ghost asked = first;
        let request = self.drive(first);
        proof {
            Lifecycle::lemma_resumed(before, event, mid, asked, self.progress, request);
            let answers = choose|answers: Seq<Event>| #[trigger]
                Lifecycle::reached(mid, asked, answers, self.progress, request);
            assert(Lifecycle::follows(before, event, mid, asked));
            assert(Lifecycle::resumed_through(before, event, answers, self.progress, request));
        }
        request
    }
}

} // verus!
