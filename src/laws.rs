use vstd::prelude::*;
use vstd::utf8::{decode_utf8, valid_utf8};

use crate::context::invocation;
use crate::error::ErrorModel;
use crate::outcome::exit_outcome;
use crate::pipeline::{
    plan_of, spawn_stage, transition, ActionModel, EventModel, Phase, StageModel,
};

verus! {

/// Where a run over `plan` ends, and every action it asks for, when it is
/// handed `events` one by one from `phase`.
pub open spec fn run(
    plan: Seq<(Seq<char>, Seq<Seq<char>>)>,
    phase: Phase,
    events: Seq<EventModel>,
) -> (Phase, Seq<ActionModel>)
    decreases events.len(),
{
    if events.len() == 0 {
        (phase, Seq::empty())
    } else {
        let (next, action) = transition(plan, phase, events[0]);
        let (last, rest) = run(plan, next, events.drop_first());
        (last, seq![action] + rest)
    }
}

/// `n` reports of a stage spawned with its output pipe in place.
pub open spec fn spawned(n: nat) -> Seq<EventModel> {
    Seq::new(n, |i: int| EventModel::Spawned(true))
}

/// The spawns of the stages of `plan` from index `from` on, in order.
pub open spec fn spawns_from(plan: Seq<(Seq<char>, Seq<Seq<char>>)>, from: int) -> Seq<
    ActionModel,
> {
    Seq::new((plan.len() - from) as nat, |j: int| spawn_stage(plan, from + j))
}

/// `n` chaining errors: what a finished run answers to any event.
pub open spec fn chaining_errors(n: nat) -> Seq<ActionModel> {
    Seq::new(n, |i: int| ActionModel::Finish(Err(ErrorModel::Chaining)))
}

proof fn lemma_spawn_remaining(
    plan: Seq<(Seq<char>, Seq<Seq<char>>)>,
    i: usize,
    rest: Seq<EventModel>,
)
    requires
        i < plan.len() <= usize::MAX,
    ensures
        run(plan, Phase::Spawning(i), spawned((plan.len() - i) as nat) + rest) == (
            run(plan, Phase::Waiting, rest).0,
            spawns_from(plan, i + 1) + seq![ActionModel::Wait] + run(plan, Phase::Waiting, rest).1,
        ),
    decreases plan.len() - i,
{
    let events = spawned((plan.len() - i) as nat) + rest;
    assert(events[0] == EventModel::Spawned(true));
    if i + 1 < plan.len() {
        assert(events.drop_first() =~= spawned((plan.len() - (i + 1)) as nat) + rest);
        lemma_spawn_remaining(plan, (i + 1) as usize, rest);
        assert(spawns_from(plan, i + 1) =~= seq![spawn_stage(plan, i + 1)] + spawns_from(
            plan,
            i + 2,
        ));
        assert(seq![spawn_stage(plan, i + 1)] + (spawns_from(plan, i + 2) + seq![
            ActionModel::Wait,
        ] + run(plan, Phase::Waiting, rest).1) =~= spawns_from(plan, i + 1) + seq![
            ActionModel::Wait,
        ] + run(plan, Phase::Waiting, rest).1);
    } else {
        assert(events.drop_first() =~= rest);
        assert(spawns_from(plan, i + 1) =~= Seq::<ActionModel>::empty());
        assert(seq![ActionModel::Wait] + run(plan, Phase::Waiting, rest).1 =~= spawns_from(
            plan,
            i + 1,
        ) + seq![ActionModel::Wait] + run(plan, Phase::Waiting, rest).1);
    }
}

/// A pipeline in which every stage is spawned and the last one exits with
/// code 0 yields exactly the last stage's standard output as text. On the
/// way it spawns each stage once, left to right, each but the first reading
/// the output of the one before, and then waits.
pub proof fn lemma_successful_pipeline_yields_last_output(
    stages: Seq<StageModel>,
    stdout: Seq<u8>,
    stderr: Seq<u8>,
)
    requires
        0 < stages.len() <= usize::MAX,
        valid_utf8(stdout),
    ensures
        run(
            plan_of(stages),
            Phase::Ready,
            seq![EventModel::Start] + spawned(stages.len()) + seq![
                EventModel::Exited(Some(0i32), stdout, stderr),
            ],
        ) == (
            Phase::Finished,
            spawns_from(plan_of(stages), 0) + seq![
                ActionModel::Wait,
                ActionModel::Finish(Ok(decode_utf8(stdout))),
            ],
        ),
{
    let plan = plan_of(stages);
    let last = seq![EventModel::Exited(Some(0i32), stdout, stderr)];
    let events = seq![EventModel::Start] + spawned(stages.len()) + last;
    assert(events[0] == EventModel::Start);
    assert(events.drop_first() =~= spawned((plan.len() - 0) as nat) + last);
    lemma_spawn_remaining(plan, 0, last);
    assert(last.drop_first() =~= Seq::<EventModel>::empty());
    let finish = ActionModel::Finish(Ok(decode_utf8(stdout)));
    let none = run(plan, Phase::Finished, last.drop_first());
    assert(none.1 =~= Seq::<ActionModel>::empty());
    assert(seq![finish] + none.1 =~= seq![finish]);
    assert(run(plan, Phase::Waiting, last) == (Phase::Finished, seq![finish]));
    assert(spawns_from(plan, 0) =~= seq![spawn_stage(plan, 0)] + spawns_from(plan, 1));
    assert(seq![spawn_stage(plan, 0)] + (spawns_from(plan, 1) + seq![ActionModel::Wait] + seq![
        finish,
    ]) =~= spawns_from(plan, 0) + seq![ActionModel::Wait, finish]);
}

/// A one-stage pipeline runs exactly its command, resolved in its context,
/// reading from no other stage and keeping its standard error, and yields exactly how that command ended.
pub proof fn lemma_single_stage_runs_its_command(
    stage: StageModel,
    stdout_piped: bool,
    code: Option<i32>,
    stdout: Seq<u8>,
    stderr: Seq<u8>,
)
    ensures
        run(
            plan_of(seq![stage]),
            Phase::Ready,
            seq![
                EventModel::Start,
                EventModel::Spawned(stdout_piped),
                EventModel::Exited(code, stdout, stderr),
            ],
        ) == (
            Phase::Finished,
            seq![
                ActionModel::Spawn {
                    invocation: invocation(stage.0, stage.1, stage.2),
                    stdin_from_previous: false,
                    capture_stderr: true,
                },
                ActionModel::Wait,
                ActionModel::Finish(exit_outcome(code, stdout, stderr)),
            ],
        ),
{
    let plan = plan_of(seq![stage]);
    let events = seq![
        EventModel::Start,
        EventModel::Spawned(stdout_piped),
        EventModel::Exited(code, stdout, stderr),
    ];
    assert(plan[0] == invocation(stage.0, stage.1, stage.2));
    assert(events.drop_first() =~= seq![
        EventModel::Spawned(stdout_piped),
        EventModel::Exited(code, stdout, stderr),
    ]);
    assert(events.drop_first().drop_first() =~= seq![EventModel::Exited(code, stdout, stderr)]);
    assert(events.drop_first().drop_first().drop_first() =~= Seq::<EventModel>::empty());
    let r0 = run(plan, Phase::Finished, events.drop_first().drop_first().drop_first());
    assert(r0.1 =~= Seq::<ActionModel>::empty());
    let r1 = run(plan, Phase::Waiting, events.drop_first().drop_first());
    assert(r1.1 =~= seq![ActionModel::Finish(exit_outcome(code, stdout, stderr))]);
    let r2 = run(plan, Phase::Spawning(0), events.drop_first());
    assert(r2.1 =~= seq![ActionModel::Wait] + r1.1);
    let r3 = run(plan, Phase::Ready, events);
    assert(r3.1 =~= seq![spawn_stage(plan, 0)] + r2.1);
}

proof fn lemma_finished_run_spawns_nothing(
    plan: Seq<(Seq<char>, Seq<Seq<char>>)>,
    later: Seq<EventModel>,
)
    ensures
        run(plan, Phase::Finished, later) == (Phase::Finished, chaining_errors(later.len())),
    decreases later.len(),
{
    if later.len() > 0 {
        lemma_finished_run_spawns_nothing(plan, later.drop_first());
        assert(chaining_errors(later.len()) =~= seq![
            ActionModel::Finish(Err(ErrorModel::Chaining)),
        ] + chaining_errors(later.drop_first().len()));
    } else {
        assert(chaining_errors(0) =~= Seq::<ActionModel>::empty());
    }
}

/// When a stage fails to spawn, the run ends with that I/O error, and no
/// further stage is spawned, whatever is reported afterwards.
pub proof fn lemma_spawn_failure_ends_run(
    stages: Seq<StageModel>,
    i: usize,
    error: std::io::Error,
    later: Seq<EventModel>,
)
    requires
        i < stages.len(),
    ensures
        ({
            let (phase, actions) = run(
                plan_of(stages),
                Phase::Spawning(i),
                seq![EventModel::SpawnFailed(error)] + later,
            );
            &&& phase == Phase::Finished
            &&& actions[0] == ActionModel::Finish(Err(ErrorModel::Io(error)))
            &&& forall|k: int| 0 <= k < actions.len() ==> !(actions[k] is Spawn)
        }),
{
    let plan = plan_of(stages);
    let events = seq![EventModel::SpawnFailed(error)] + later;
    assert(events[0] == EventModel::SpawnFailed(error));
    assert(events.drop_first() =~= later);
    lemma_finished_run_spawns_nothing(plan, later);
}

} // verus!
