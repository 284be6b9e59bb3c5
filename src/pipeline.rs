use vstd::prelude::*;

use crate::context::{context_model, invocation, resolve, Context, ContextModel, Invocation};
use crate::error::{result_model, ErrorModel, ExecError};
use crate::outcome::{collect_output, exit_outcome, ExitReport};

verus! {

/// One stage of a pipeline: a command, its arguments and where it runs.
pub type Stage<'a> = (&'a str, &'a [&'a str], Option<&'a Context>);

/// The mathematical value of a [`Stage`].
pub type StageModel = (Seq<char>, Seq<Seq<char>>, Option<ContextModel>);

pub open spec fn stage_model(stage: Stage) -> StageModel {
    (stage.0@, stage.1.deep_view(), context_model(stage.2))
}

/// The program and arguments that each stage resolves to, in order.
pub open spec fn plan_of(stages: Seq<StageModel>) -> Seq<(Seq<char>, Seq<Seq<char>>)> {
    stages.map_values(|s: StageModel| invocation(s.0, s.1, s.2))
}

/// Where a pipeline run stands.
#[derive(Debug, Clone, Copy)]
pub enum Phase {
    /// Nothing spawned yet.
    Ready,
    /// The stage at this index was asked to be spawned.
    Spawning(usize),
    /// Every stage was spawned; the last one is being waited for.
    Waiting,
    /// The result was handed out.
    Finished,
}

/// What happened to the processes since the last step.
pub enum Event {
    /// The run begins.
    Start,
    /// The stage asked for was spawned; `stdout_piped` tells whether its
    /// standard output pipe is there to be read.
    Spawned { stdout_piped: bool },
    /// The stage asked for could not be spawned.
    SpawnFailed(std::io::Error),
    /// The last stage ended.
    Exited(ExitReport),
    /// Waiting for the last stage failed.
    WaitFailed(std::io::Error),
}

pub enum EventModel {
    Start,
    Spawned(bool),
    SpawnFailed(std::io::Error),
    Exited(Option<i32>, Seq<u8>, Seq<u8>),
    WaitFailed(std::io::Error),
}

impl View for Event {
    type V = EventModel;

    open spec fn view(&self) -> EventModel {
        match self {
            Event::Start => EventModel::Start,
            Event::Spawned { stdout_piped } => EventModel::Spawned(*stdout_piped),
            Event::SpawnFailed(e) => EventModel::SpawnFailed(*e),
            Event::Exited(r) => EventModel::Exited(r.code, r.stdout@, r.stderr@),
            Event::WaitFailed(e) => EventModel::WaitFailed(*e),
        }
    }
}

/// What the caller is to do next.
pub enum Action {
    /// Spawn this program with its standard output piped. With
    /// `stdin_from_previous`, its standard input is the standard output pipe
    /// of the stage spawned before, which is moved there and read by no one
    /// else. With `capture_stderr` (the last stage), its standard error is
    /// piped too, to be reported should it fail; the others keep the
    /// caller's.
    Spawn { invocation: Invocation, stdin_from_previous: bool, capture_stderr: bool },
    /// Wait for the last stage and report how it ended.
    Wait,
    /// The run is over, with this result.
    Finish(Result<String, ExecError>),
}

pub enum ActionModel {
    Spawn {
        invocation: (Seq<char>, Seq<Seq<char>>),
        stdin_from_previous: bool,
        capture_stderr: bool,
    },
    Wait,
    Finish(Result<Seq<char>, ErrorModel>),
}

impl View for Action {
    type V = ActionModel;

    open spec fn view(&self) -> ActionModel {
        match self {
            Action::Spawn {
                invocation,
                stdin_from_previous,
                capture_stderr,
            } => ActionModel::Spawn {
                invocation: invocation@,
                stdin_from_previous: *stdin_from_previous,
                capture_stderr: *capture_stderr,
            },
            Action::Wait => ActionModel::Wait,
            Action::Finish(r) => ActionModel::Finish(result_model(*r)),
        }
    }
}

pub open spec fn spawn_stage(
    plan: Seq<(Seq<char>, Seq<Seq<char>>)>,
    i: int,
) -> ActionModel {
    ActionModel::Spawn {
        invocation: plan[i],
        stdin_from_previous: i > 0,
        capture_stderr: i == plan.len() - 1,
    }
}

pub open spec fn fail(e: ErrorModel) -> (Phase, ActionModel) {
    (Phase::Finished, ActionModel::Finish(Err(e)))
}

/// One step of a pipeline run over `plan`, from `phase` on `event`.
///
/// Stages are spawned left to right, each reading the output of the one
/// before; the first failure ends the run. An empty pipeline, a missing
/// output pipe, and an event that does not fit the phase are chaining
/// errors.
pub open spec fn transition(
    plan: Seq<(Seq<char>, Seq<Seq<char>>)>,
    phase: Phase,
    event: EventModel,
) -> (Phase, ActionModel) {
    match (phase, event) {
        (Phase::Ready, EventModel::Start) => if plan.len() == 0 {
            fail(ErrorModel::Chaining)
        } else {
            (Phase::Spawning(0), spawn_stage(plan, 0))
        },
        (Phase::Spawning(i), EventModel::Spawned(stdout_piped)) => if i + 1 < plan.len() {
            if stdout_piped {
                (Phase::Spawning((i + 1) as usize), spawn_stage(plan, i + 1))
            } else {
                fail(ErrorModel::Chaining)
            }
        } else {
            (Phase::Waiting, ActionModel::Wait)
        },
        (Phase::Spawning(_), EventModel::SpawnFailed(e)) => fail(ErrorModel::Io(e)),
        (Phase::Waiting, EventModel::Exited(code, stdout, stderr)) => (
            Phase::Finished,
            ActionModel::Finish(exit_outcome(code, stdout, stderr)),
        ),
        (Phase::Waiting, EventModel::WaitFailed(e)) => fail(ErrorModel::Io(e)),
        _ => fail(ErrorModel::Chaining),
    }
}

/// A run of a pipeline: its stages and where it stands. The caller spawns
/// and waits; the run decides what comes next.
pub struct Pipeline<'a> {
    stages: &'a [Stage<'a>],
    phase: Phase,
}

impl<'a> Pipeline<'a> {
    pub closed spec fn model(&self) -> Seq<StageModel> {
        self.stages@.map_values(|s: Stage| stage_model(s))
    }

    pub closed spec fn plan(&self) -> Seq<(Seq<char>, Seq<Seq<char>>)> {
        plan_of(self.model())
    }

    pub closed spec fn phase(&self) -> Phase {
        self.phase
    }

    pub closed spec fn well_formed(&self) -> bool {
        match self.phase {
            Phase::Spawning(i) => i < self.stages@.len(),
            _ => true,
        }
    }

    /// A run of `stages`, in order, with nothing spawned yet.
    pub fn new(stages: &'a [Stage<'a>]) -> (r: Self)
        ensures
            r.well_formed(),
            r.model() == stages@.map_values(|s: Stage| stage_model(s)),
            r.plan() == plan_of(r.model()),
            r.phase() == Phase::Ready,
    {
        Pipeline { stages, phase: Phase::Ready }
    }

    /// Where the run stands.
    pub fn current_phase(&self) -> (r: Phase)
        ensures
            r == self.phase(),
    {
        self.phase
    }

    fn spawn(&self, i: usize) -> (r: Action)
        requires
            i < self.stages@.len(),
        ensures
            r@ == spawn_stage(self.plan(), i as int),
    {
        let (command, args, context) = self.stages[i];
        Action::Spawn {
            invocation: resolve(command, args, context),
            stdin_from_previous: i > 0,
            capture_stderr: i == self.stages.len() - 1,
        }
    }

    fn finish_with(&mut self, e: ExecError) -> (r: Action)
        ensures
            final(self).stages == old(self).stages,
            (final(self).phase, r@) == fail(e@),
    {
        self.phase = Phase::Finished;
        Action::Finish(Err(e))
    }

    /// Takes in what happened and says what to do next.
    pub fn step(&mut self, event: Event) -> (r: Action)
        requires
            old(self).well_formed(),
        ensures
            final(self).well_formed(),
            final(self).model() == old(self).model(),
            final(self).plan() == old(self).plan(),
            (final(self).phase(), r@) == transition(old(self).plan(), old(self).phase(), event@),
    {
        let phase = self.phase;
        match (phase, event) {
            (Phase::Ready, Event::Start) => {
                if self.stages.len() == 0 {
                    self.finish_with(ExecError::Chaining)
                } else {
                    self.phase = Phase::Spawning(0);
                    self.spawn(0)
                }
            },
            (Phase::Spawning(i), Event::Spawned { stdout_piped }) => {
                assert(i < self.stages@.len());
                if i < self.stages.len() - 1 {
                    if stdout_piped {
                        self.phase = Phase::Spawning(i + 1);
                        self.spawn(i + 1)
                    } else {
                        self.finish_with(ExecError::Chaining)
                    }
                } else {
                    self.phase = Phase::Waiting;
                    Action::Wait
                }
            },
            (Phase::Spawning(_), Event::SpawnFailed(e)) => self.finish_with(ExecError::Io(e)),
            (Phase::Waiting, Event::Exited(report)) => {
                self.phase = Phase::Finished;
                Action::Finish(collect_output(report))
            },
            (Phase::Waiting, Event::WaitFailed(e)) => self.finish_with(ExecError::Io(e)),
            _ => self.finish_with(ExecError::Chaining),
        }
    }
}

} // verus!
