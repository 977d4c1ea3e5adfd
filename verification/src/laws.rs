//! The library's guarantees, stated and proved as laws over the
//! mathematical model: the task-name round trip, the resolver's fallback and
//! rejection rules, and the fail-fast semantics of sequences and of sibling
//! subprojects.

use vstd::prelude::*;

use crate::command::{CommandsView, RootView, SubCommand};
use crate::err::DevErrorView;
use crate::runner::{no_declarations_message_v, process_command_v, step_v, ConfigOutcomeView,
    DirInfoView, EnterOutcome, EventView, PhaseView, PlanView, RunnerView};

verus! {

/// Parsing the canonical string form of any task name yields that task name
/// back.
pub proof fn lemma_task_name_round_trip(t: SubCommand)
    ensures
        SubCommand::spec_parse(t.spec_name()) == Some(t),
{
    reveal_strlit("build");
    reveal_strlit("package");
    reveal_strlit("check");
    reveal_strlit("clean");
    reveal_strlit("install");
    reveal_strlit("run");
    assert("build"@.len() == 5);
    assert("package"@.len() == 7);
    assert("check"@.len() == 5);
    assert("clean"@.len() == 5);
    assert("install"@.len() == 7);
    assert("run"@.len() == 3);
    assert("build"@[0] == 'b' && "check"@[0] == 'c' && "clean"@[0] == 'c');
    assert("check"@[1] == 'h' && "clean"@[1] == 'l');
    assert("package"@[0] == 'p' && "install"@[0] == 'i');
}

/// A string parses to a task name exactly when it is that task name's
/// canonical form: unrecognized strings are always rejected, and no string
/// maps to a default.
pub proof fn lemma_task_name_parse_exact(s: Seq<char>, t: SubCommand)
    ensures
        SubCommand::spec_parse(s) == Some(t) <==> s == t.spec_name(),
{
    lemma_task_name_round_trip(t);
}

/// An explicitly empty subproject list resolves exactly as an absent one:
/// the project is a leaf and its own commands run, whatever the task.
pub proof fn lemma_empty_subprojects_fallback(
    task: SubCommand,
    commands: CommandsView,
    dir: DirInfoView,
)
    ensures
        process_command_v(
            task,
            ConfigOutcomeView::Parsed(
                RootView { commands: Some(commands), subprojects: Some(Seq::empty()) },
            ),
            dir,
        ) == process_command_v(
            task,
            ConfigOutcomeView::Parsed(RootView { commands: Some(commands), subprojects: None }),
            dir,
        ),
{
}

/// The machine-level form of the fallback: from any state, a configuration
/// with an explicitly empty subproject list advances the engine exactly as
/// the same configuration with no subproject key at all.
pub proof fn lemma_empty_subprojects_fallback_step(
    s: RunnerView,
    commands: CommandsView,
    dir: DirInfoView,
)
    ensures
        step_v(
            s,
            EventView::Config(
                ConfigOutcomeView::Parsed(
                    RootView { commands: Some(commands), subprojects: Some(Seq::empty()) },
                ),
                dir,
            ),
        ) == step_v(
            s,
            EventView::Config(
                ConfigOutcomeView::Parsed(
                    RootView { commands: Some(commands), subprojects: None },
                ),
                dir,
            ),
        ),
{
    lemma_empty_subprojects_fallback(s.task, commands, dir);
}

/// A configuration that declares neither tasks nor subprojects is always
/// rejected as a configuration-authoring problem, with a diagnostic that
/// ends by saying no tasks or subprojects are present.
pub proof fn lemma_no_declarations_rejected(task: SubCommand, dir: DirInfoView)
    ensures
        process_command_v(
            task,
            ConfigOutcomeView::Parsed(RootView { commands: None, subprojects: None }),
            dir,
        ) == Err::<PlanView, DevErrorView>(
            DevErrorView::YmlProblem(no_declarations_message_v(dir)),
        ),
        exists|context: Seq<char>|
            no_declarations_message_v(dir) == context + ", no tasks or subprojects present"@,
{
    let context = match dir {
        DirInfoView::Known(d) => d,
        DirInfoView::NotText => "no directory found"@,
        DirInfoView::Inaccessible => "no directory found"@,
    };
    assert(no_declarations_message_v(dir) == context + ", no tasks or subprojects present"@);
}

/// A successful completion bubble never produces an error outcome.
proof fn lemma_success_state_not_err(task: SubCommand, stack: Seq<PhaseView>)
    ensures
        !(crate::runner::success_state(task, stack).outcome matches Some(r) && r is Err),
    decreases stack.len(),
{
    if stack.len() > 0 {
        match stack.last() {
            PhaseView::Recursing { subs, current } => {
                if current + 1 >= subs.len() {
                    lemma_success_state_not_err(task, stack.drop_last());
                }
            },
            _ => {},
        }
    }
}

/// A finished engine never moves again: it expects no event, and any event
/// leaves it unchanged. Once a failure has been reported, nothing further is
/// ever attempted.
pub proof fn lemma_finished_is_final(s: RunnerView, ev: EventView)
    requires
        s.outcome is Some,
    ensures
        step_v(s, ev) == s,
        !s.expects(ev),
{
}

/// Fail-fast across siblings: while subproject visits are in progress, any
/// failing step finishes the whole run at once with `SubProjectFailed`
/// naming the subproject the outermost visit was on — later siblings are
/// never attempted, since the finished engine accepts no further events.
pub proof fn lemma_sibling_fail_fast(s: RunnerView, ev: EventView)
    requires
        s.wf(),
        s.stack.len() >= 2,
        step_v(s, ev).outcome matches Some(r) && r is Err,
    ensures
        s.stack[0] matches PhaseView::Recursing { subs, current }
            && step_v(s, ev).outcome == Some(
            Err::<(), DevErrorView>(DevErrorView::SubProjectFailed(subs[current])),
        ),
        forall|later: EventView| !step_v(s, ev).expects(later),
{
    let below = s.stack.drop_last();
    assert(below[0] == s.stack[0]);
    assert(s.stack[0] is Recursing && crate::runner::phase_wf(s.stack[0]));
    match (s.stack.last(), ev) {
        (PhaseView::Load, EventView::Config(outcome, dir)) => {
            match process_command_v(s.task, outcome, dir) {
                Ok(PlanView::RunCommands(cmds)) => {
                    if cmds.len() == 0 {
                        lemma_success_state_not_err(s.task, below);
                    }
                },
                Ok(PlanView::EnterSubprojects(subs)) => {
                    if subs.len() == 0 {
                        lemma_success_state_not_err(s.task, below);
                    }
                },
                Err(_) => {},
            }
        },
        (PhaseView::Running { cmds, next }, EventView::Ran(ok)) => {
            if ok && !(next + 1 < cmds.len()) {
                lemma_success_state_not_err(s.task, below);
            }
        },
        _ => {},
    }
}

/// Feeding the engine one command outcome after another.
pub open spec fn feed_runs(s: RunnerView, results: Seq<bool>) -> RunnerView
    decreases results.len(),
{
    if results.len() == 0 {
        s
    } else {
        feed_runs(
            step_v(s, EventView::Ran(results[0])),
            results.subrange(1, results.len() as int),
        )
    }
}

/// A running command sequence, general form: from command position `next`
/// on, reporting success for every remaining command completes the whole
/// run successfully.
proof fn lemma_sequence_succeeds_from(
    task: SubCommand,
    cmds: Seq<Seq<char>>,
    next: int,
    results: Seq<bool>,
)
    requires
        0 <= next < cmds.len(),
        results.len() == cmds.len() - next,
        forall|j: int| 0 <= j < results.len() ==> results[j],
    ensures
        feed_runs(
            RunnerView {
                task,
                stack: seq![PhaseView::Running { cmds, next }],
                outcome: None,
            },
            results,
        ).outcome == Some(Ok::<(), DevErrorView>(())),
    decreases results.len(),
{
    let s = RunnerView { task, stack: seq![PhaseView::Running { cmds, next }], outcome: None };
    let rest = results.subrange(1, results.len() as int);
    let ev = EventView::Ran(results[0]);
    assert(results[0]);
    assert(s.expects(ev));
    assert(s.stack.drop_last() =~= Seq::<PhaseView>::empty());
    assert(feed_runs(s, results) == feed_runs(step_v(s, ev), rest));
    if next + 1 < cmds.len() {
        let stepped = step_v(s, ev);
        assert(stepped.stack =~= seq![PhaseView::Running { cmds, next: next + 1 }]);
        let s2 = RunnerView {
            task,
            stack: seq![PhaseView::Running { cmds, next: next + 1 }],
            outcome: None,
        };
        assert(stepped == s2);
        assert(forall|j: int| 0 <= j < rest.len() ==> rest[j]);
        lemma_sequence_succeeds_from(task, cmds, next + 1, rest);
        assert(feed_runs(s2, rest).outcome == Some(Ok::<(), DevErrorView>(())));
    } else {
        let stepped = step_v(s, ev);
        assert(stepped == crate::runner::success_state(task, s.stack.drop_last()));
        assert(stepped.outcome == Some(Ok::<(), DevErrorView>(())));
        assert(rest =~= Seq::<bool>::empty());
        assert(feed_runs(stepped, rest) == stepped);
    }
}

/// A running command sequence, general form: if the first failure comes at
/// relative position `k` (with enough commands left to reach it), the whole
/// run finishes right there with `ProcessFailed`.
proof fn lemma_sequence_fails_from(
    task: SubCommand,
    cmds: Seq<Seq<char>>,
    next: int,
    results: Seq<bool>,
    k: int,
)
    requires
        0 <= next < cmds.len(),
        0 <= k < results.len(),
        results.len() == k + 1,
        next + k < cmds.len(),
        forall|j: int| 0 <= j < k ==> results[j],
        !results[k],
    ensures
        feed_runs(
            RunnerView {
                task,
                stack: seq![PhaseView::Running { cmds, next }],
                outcome: None,
            },
            results,
        ).outcome == Some(Err::<(), DevErrorView>(DevErrorView::ProcessFailed)),
    decreases k,
{
    let s = RunnerView { task, stack: seq![PhaseView::Running { cmds, next }], outcome: None };
    let rest = results.subrange(1, results.len() as int);
    let ev = EventView::Ran(results[0]);
    assert(s.expects(ev));
    assert(s.stack.drop_last() =~= Seq::<PhaseView>::empty());
    assert(feed_runs(s, results) == feed_runs(step_v(s, ev), rest));
    if k == 0 {
        assert(!results[0]);
        let stepped = step_v(s, ev);
        assert(stepped.outcome == Some(Err::<(), DevErrorView>(DevErrorView::ProcessFailed)));
        assert(rest =~= Seq::<bool>::empty());
        assert(feed_runs(stepped, rest) == stepped);
    } else {
        assert(results[0]);
        let stepped = step_v(s, ev);
        assert(stepped.stack =~= seq![PhaseView::Running { cmds, next: next + 1 }]);
        let s2 = RunnerView {
            task,
            stack: seq![PhaseView::Running { cmds, next: next + 1 }],
            outcome: None,
        };
        assert(stepped == s2);
        assert(forall|j: int| 0 <= j < k - 1 ==> rest[j]);
        assert(!rest[k - 1]);
        lemma_sequence_fails_from(task, cmds, next + 1, rest, k - 1);
        assert(feed_runs(s2, rest).outcome == Some(
            Err::<(), DevErrorView>(DevErrorView::ProcessFailed),
        ));
    }
}

/// Sequence semantics, success half: a command sequence whose every command
/// succeeds completes the whole run successfully, the commands having been
/// asked for in declared order.
pub proof fn lemma_sequence_all_succeed(task: SubCommand, cmds: Seq<Seq<char>>, results: Seq<bool>)
    requires
        cmds.len() > 0,
        results.len() == cmds.len(),
        forall|j: int| 0 <= j < results.len() ==> results[j],
    ensures
        feed_runs(
            RunnerView { task, stack: seq![PhaseView::Running { cmds, next: 0 }], outcome: None },
            results,
        ).outcome == Some(Ok::<(), DevErrorView>(())),
{
    lemma_sequence_succeeds_from(task, cmds, 0, results);
}

/// Sequence semantics, failure half: the first failing command finishes the
/// whole run with `ProcessFailed` at once, and the finished engine accepts
/// no further events — commands after the first failure are never started.
pub proof fn lemma_sequence_fail_fast(
    task: SubCommand,
    cmds: Seq<Seq<char>>,
    results: Seq<bool>,
    k: int,
)
    requires
        0 <= k < cmds.len(),
        results.len() == k + 1,
        forall|j: int| 0 <= j < k ==> results[j],
        !results[k],
    ensures
        ({
            let finished = feed_runs(
                RunnerView {
                    task,
                    stack: seq![PhaseView::Running { cmds, next: 0 }],
                    outcome: None,
                },
                results,
            );
            finished.outcome == Some(Err::<(), DevErrorView>(DevErrorView::ProcessFailed))
                && forall|later: EventView| !finished.expects(later)
        }),
{
    lemma_sequence_fails_from(task, cmds, 0, results, k);
}

/// A subproject whose directory or configuration file is missing fails the
/// visit with `SubProjectNotFound` naming exactly that subproject path.
pub proof fn lemma_missing_subproject(task: SubCommand, subs: Seq<Seq<char>>, current: int)
    requires
        0 <= current < subs.len(),
    ensures
        step_v(
            RunnerView {
                task,
                stack: seq![PhaseView::Recursing { subs, current }],
                outcome: None,
            },
            EventView::Entered(EnterOutcome::Missing),
        ).outcome == Some(Err::<(), DevErrorView>(DevErrorView::SubProjectNotFound(subs[current]))),
{
    let s = RunnerView { task, stack: seq![PhaseView::Recursing { subs, current }], outcome: None };
    assert(s.stack.drop_last() =~= Seq::<PhaseView>::empty());
}

} // verus!
