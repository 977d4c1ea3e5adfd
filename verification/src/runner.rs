//! The task-resolution and recursive-execution engine.
//!
//! The engine is a state machine. Its state is a stack of phases, one per
//! nesting level of the subproject recursion: the top phase says what the
//! current project visit is waiting for (its configuration, the outcome of a
//! command line, the outcome of entering a subproject). [`Runner::next_action`]
//! names the outside action to perform; the caller performs it and reports
//! what happened through [`Runner::step`]. All precedence, ordering,
//! fail-fast and error-wrapping decisions are made here.

use vstd::prelude::*;

use crate::command::{Commands, CommandsView, Root, RootView, SubCommand, UserCommand,
    UserCommandView};
use crate::err::{unit_result_view, DevError, DevErrorView};

verus! {

// ---------------------------------------------------------------------------
// Events: what the caller reports back, and their mathematical forms.
// ---------------------------------------------------------------------------

/// What locating and parsing a directory's configuration file yielded.
#[derive(Debug)]
pub enum ConfigOutcome {
    /// The file was present, readable and well-formed.
    Parsed(Root),
    /// No configuration file in the directory.
    Missing,
    /// The file exists but could not be read.
    Unreadable,
    /// The file was read but is not valid configuration syntax.
    Invalid,
}

/// Mathematical form of a [`ConfigOutcome`].
pub ghost enum ConfigOutcomeView {
    Parsed(RootView),
    Missing,
    Unreadable,
    Invalid,
}

impl View for ConfigOutcome {
    type V = ConfigOutcomeView;

    open spec fn view(&self) -> ConfigOutcomeView {
        match self {
            ConfigOutcome::Parsed(root) => ConfigOutcomeView::Parsed(root@),
            ConfigOutcome::Missing => ConfigOutcomeView::Missing,
            ConfigOutcome::Unreadable => ConfigOutcomeView::Unreadable,
            ConfigOutcome::Invalid => ConfigOutcomeView::Invalid,
        }
    }
}

/// What the current working directory looked like when a configuration was
/// loaded: its display form, a directory whose name is not representable as
/// a string, or no directory at all (reading it failed).
#[derive(Debug)]
pub enum DirInfo {
    /// The directory's display form.
    Known(String),
    /// The directory exists but its name is not valid text.
    NotText,
    /// Reading the current directory failed.
    Inaccessible,
}

/// Mathematical form of a [`DirInfo`].
pub ghost enum DirInfoView {
    Known(Seq<char>),
    NotText,
    Inaccessible,
}

impl View for DirInfo {
    type V = DirInfoView;

    open spec fn view(&self) -> DirInfoView {
        match self {
            DirInfo::Known(d) => DirInfoView::Known(d@),
            DirInfo::NotText => DirInfoView::NotText,
            DirInfo::Inaccessible => DirInfoView::Inaccessible,
        }
    }
}

/// What became of the attempt to enter a declared subproject: the caller
/// returns to the captured base directory, checks that the subproject path
/// exists as a directory holding a configuration file, and changes into it.
#[derive(Debug, Clone, Copy, PartialEq, Eq)]
pub enum EnterOutcome {
    /// The subproject exists, holds a configuration file, and is now the
    /// working directory.
    Entered,
    /// The path does not exist or holds no configuration file.
    Missing,
    /// A directory change failed.
    CdFailed,
}

/// One reported outcome of the action the engine asked for.
#[derive(Debug)]
pub enum Event {
    /// Outcome of loading the current directory's configuration, with the
    /// directory itself for diagnostics.
    Config(ConfigOutcome, DirInfo),
    /// Whether a shell command line completed with exit status zero.
    Ran(bool),
    /// Outcome of entering the next declared subproject.
    Entered(EnterOutcome),
}

/// Mathematical form of an [`Event`].
pub ghost enum EventView {
    Config(ConfigOutcomeView, DirInfoView),
    Ran(bool),
    Entered(EnterOutcome),
}

impl View for Event {
    type V = EventView;

    open spec fn view(&self) -> EventView {
        match self {
            Event::Config(outcome, dir) => EventView::Config(outcome@, dir@),
            Event::Ran(ok) => EventView::Ran(*ok),
            Event::Entered(outcome) => EventView::Entered(*outcome),
        }
    }
}

// ---------------------------------------------------------------------------
// Resolution: from a loaded configuration to a plan.
// ---------------------------------------------------------------------------

/// What a project visit resolved to: run command lines locally, or visit
/// subprojects in declared order.
#[derive(Debug, PartialEq)]
pub enum Plan {
    /// Run these command lines, in order, stopping at the first failure.
    RunCommands(Vec<String>),
    /// Visit these subprojects, in order, stopping at the first failure.
    EnterSubprojects(Vec<String>),
}

/// Mathematical form of a [`Plan`].
pub ghost enum PlanView {
    RunCommands(Seq<Seq<char>>),
    EnterSubprojects(Seq<Seq<char>>),
}

impl View for Plan {
    type V = PlanView;

    open spec fn view(&self) -> PlanView {
        match self {
            Plan::RunCommands(cmds) => PlanView::RunCommands(cmds.deep_view()),
            Plan::EnterSubprojects(subs) => PlanView::EnterSubprojects(subs.deep_view()),
        }
    }
}

/// The mathematical form of a plan-or-error result.
pub open spec fn plan_result_view(r: Result<Plan, DevError>) -> Result<PlanView, DevErrorView> {
    match r {
        Ok(p) => Ok(p@),
        Err(e) => Err(e@),
    }
}

/// The mathematical form of a command-list-or-error result.
pub open spec fn commands_result_view(r: Result<Vec<String>, DevError>) -> Result<
    Seq<Seq<char>>,
    DevErrorView,
> {
    match r {
        Ok(cmds) => Ok(cmds.deep_view()),
        Err(e) => Err(e@),
    }
}

/// The command lines that a task resolves to against a declaration table:
/// an undefined task is a caller error, a single command is a one-element
/// sequence, a declared sequence is taken as is.
pub open spec fn run_project_commands_v(sub_command: SubCommand, commands: CommandsView) -> Result<
    Seq<Seq<char>>,
    DevErrorView,
> {
    match commands.by_sub_command(sub_command) {
        UserCommandView::Undefined => Err(DevErrorView::CommandUndefined(sub_command)),
        UserCommandView::Single(cmd) => Ok(seq![cmd]),
        UserCommandView::Sequence(cmds) => Ok(cmds),
    }
}

/// The diagnostic message for a configuration that declares neither tasks
/// nor subprojects.
pub open spec fn no_declarations_message_v(dir: DirInfoView) -> Seq<char> {
    (match dir {
        DirInfoView::Known(d) => d,
        DirInfoView::NotText => "no directory found"@,
        DirInfoView::Inaccessible => "no directory found"@,
    }) + ", no tasks or subprojects present"@
}

/// How one project visit resolves, by case on the loaded configuration:
/// load failures become the corresponding errors; a configuration without
/// tasks or subprojects is an authoring error; an absent or explicitly empty
/// subproject list means local execution; a non-empty subproject list takes
/// precedence over local commands.
pub open spec fn process_command_v(
    sub_command: SubCommand,
    outcome: ConfigOutcomeView,
    dir: DirInfoView,
) -> Result<PlanView, DevErrorView> {
    match outcome {
        ConfigOutcomeView::Missing => Err(DevErrorView::FileNotFound),
        ConfigOutcomeView::Unreadable => Err(DevErrorView::FileUnreadable),
        ConfigOutcomeView::Invalid => match dir {
            DirInfoView::Known(d) => Err(DevErrorView::YmlProblem(d)),
            DirInfoView::NotText => Err(DevErrorView::YmlProblem(Seq::empty())),
            DirInfoView::Inaccessible => Err(DevErrorView::DirectoryManipulationFailed),
        },
        ConfigOutcomeView::Parsed(root) => match (root.subprojects, root.commands) {
            (None, None) => Err(DevErrorView::YmlProblem(no_declarations_message_v(dir))),
            (None, Some(commands)) => match run_project_commands_v(sub_command, commands) {
                Ok(cmds) => Ok(PlanView::RunCommands(cmds)),
                Err(e) => Err(e),
            },
            (Some(subs), Some(commands)) => if subs.len() == 0 {
                match run_project_commands_v(sub_command, commands) {
                    Ok(cmds) => Ok(PlanView::RunCommands(cmds)),
                    Err(e) => Err(e),
                }
            } else {
                Ok(PlanView::EnterSubprojects(subs))
            },
            (Some(subs), None) => Ok(PlanView::EnterSubprojects(subs)),
        },
    }
}

/// How an attempt to enter one declared subproject resolves: a missing
/// directory or configuration file names the subproject; a failed directory
/// change is a context error; otherwise the visit may proceed.
pub open spec fn run_subproject_command_v(sub_project: Seq<char>, outcome: EnterOutcome) -> Result<
    (),
    DevErrorView,
> {
    match outcome {
        EnterOutcome::Entered => Ok(()),
        EnterOutcome::Missing => Err(DevErrorView::SubProjectNotFound(sub_project)),
        EnterOutcome::CdFailed => Err(DevErrorView::DirectoryManipulationFailed),
    }
}

/// The command lines that a task resolves to against a declaration table.
pub fn run_project_commands(sub_command: &SubCommand, commands: Commands) -> (r: Result<
    Vec<String>,
    DevError,
>)
    ensures
        commands_result_view(r) == run_project_commands_v(*sub_command, commands@),
{
    match commands.by_sub_command(sub_command) {
        UserCommand::Undefined => Err(DevError::CommandUndefined(*sub_command)),
        UserCommand::Single(cmd) => {
            let cmds = vec![cmd];
            proof {
                assert(cmds.deep_view() =~= seq![cmds@[0]@]);
            }
            Ok(cmds)
        },
        UserCommand::Sequence(cmds) => Ok(cmds),
    }
}

/// The diagnostic message for a configuration that declares neither tasks
/// nor subprojects.
fn no_declarations_message(dir: DirInfo) -> (m: String)
    ensures
        m@ == no_declarations_message_v(dir@),
{
    let base = match dir {
        DirInfo::Known(d) => d,
        DirInfo::NotText => String::from_str("no directory found"),
        DirInfo::Inaccessible => String::from_str("no directory found"),
    };
    base.concat(", no tasks or subprojects present")
}

/// Resolve one project visit from its loaded configuration.
pub fn process_command(sub_command: &SubCommand, outcome: ConfigOutcome, dir: DirInfo) -> (r:
    Result<Plan, DevError>)
    ensures
        plan_result_view(r) == process_command_v(*sub_command, outcome@, dir@),
{
    match outcome {
        ConfigOutcome::Missing => Err(DevError::FileNotFound),
        ConfigOutcome::Unreadable => Err(DevError::FileUnreadable),
        ConfigOutcome::Invalid => match dir {
            DirInfo::Known(d) => Err(DevError::YmlProblem(d)),
            DirInfo::NotText => Err(DevError::YmlProblem(String::new())),
            DirInfo::Inaccessible => Err(DevError::DirectoryManipulationFailed),
        },
        ConfigOutcome::Parsed(root) => match (root.subprojects, root.commands) {
            (None, None) => Err(DevError::YmlProblem(no_declarations_message(dir))),
            (None, Some(commands)) => match run_project_commands(sub_command, commands) {
                Ok(cmds) => Ok(Plan::RunCommands(cmds)),
                Err(e) => Err(e),
            },
            (Some(subs), Some(commands)) => if subs.len() == 0 {
                match run_project_commands(sub_command, commands) {
                    Ok(cmds) => Ok(Plan::RunCommands(cmds)),
                    Err(e) => Err(e),
                }
            } else {
                Ok(Plan::EnterSubprojects(subs))
            },
            (Some(subs), None) => Ok(Plan::EnterSubprojects(subs)),
        },
    }
}

// ---------------------------------------------------------------------------
// The engine state: one phase per nesting level of the recursion.
// ---------------------------------------------------------------------------

/// What one nesting level of the recursion is waiting for.
#[derive(Debug)]
pub enum Phase {
    /// Waiting for the directory's configuration to be loaded.
    Load,
    /// Running command lines in order; `next` is the one whose outcome is
    /// awaited.
    Running { cmds: Vec<String>, next: usize },
    /// Visiting subprojects in order; `current` is the one being visited.
    Recursing { subs: Vec<String>, current: usize },
}

/// Mathematical form of a [`Phase`].
pub ghost enum PhaseView {
    Load,
    Running { cmds: Seq<Seq<char>>, next: int },
    Recursing { subs: Seq<Seq<char>>, current: int },
}

impl View for Phase {
    type V = PhaseView;

    open spec fn view(&self) -> PhaseView {
        match self {
            Phase::Load => PhaseView::Load,
            Phase::Running { cmds, next } => PhaseView::Running {
                cmds: cmds.deep_view(),
                next: *next as int,
            },
            Phase::Recursing { subs, current } => PhaseView::Recursing {
                subs: subs.deep_view(),
                current: *current as int,
            },
        }
    }
}

impl DeepView for Phase {
    type V = PhaseView;

    open spec fn deep_view(&self) -> PhaseView {
        self.view()
    }
}

/// A phase whose position index lies within its list.
pub open spec fn phase_wf(p: PhaseView) -> bool {
    match p {
        PhaseView::Load => true,
        PhaseView::Running { cmds, next } => 0 <= next < cmds.len(),
        PhaseView::Recursing { subs, current } => 0 <= current < subs.len(),
    }
}

/// Mathematical form of a [`Runner`].
pub ghost struct RunnerView {
    pub task: SubCommand,
    pub stack: Seq<PhaseView>,
    pub outcome: Option<Result<(), DevErrorView>>,
}

impl RunnerView {
    /// Well-formedness: a finished engine has an empty stack; a running one
    /// has at least one phase, every phase's index lies within its list, and
    /// every phase but the top is a subproject visit in progress.
    pub open spec fn wf(self) -> bool {
        &&& self.outcome is Some ==> self.stack.len() == 0
        &&& self.outcome is None ==> self.stack.len() > 0
        &&& forall|i: int| 0 <= i < self.stack.len() ==> phase_wf(#[trigger] self.stack[i])
        &&& forall|i: int|
            0 <= i < self.stack.len() - 1 ==> (#[trigger] self.stack[i]) is Recursing
    }

    /// Whether an event is the kind of answer the engine is waiting for.
    pub open spec fn expects(self, ev: EventView) -> bool {
        &&& self.outcome is None
        &&& self.stack.len() > 0
        &&& match self.stack.last() {
            PhaseView::Load => ev is Config,
            PhaseView::Running { .. } => ev is Ran,
            PhaseView::Recursing { .. } => ev is Entered,
        }
    }
}

/// The engine's state right after construction: one level, waiting for the
/// starting directory's configuration.
pub open spec fn init_v(task: SubCommand) -> RunnerView {
    RunnerView { task, stack: seq![PhaseView::Load], outcome: None }
}

/// How a failure reads once it has unwound past the levels in `below`: each
/// level in progress re-wraps its child's failure as `SubProjectFailed` of
/// the subproject it was visiting, keeping only the outermost wrap.
pub open spec fn wrap_error(below: Seq<PhaseView>, e: DevErrorView) -> DevErrorView {
    if below.len() > 0 {
        match below[0] {
            PhaseView::Recursing { subs, current } => DevErrorView::SubProjectFailed(
                subs[current],
            ),
            _ => e,  // not reached under well-formedness
        }
    } else {
        e
    }
}

/// The finished state a failure leads to: the failure unwinds past every
/// level still in progress (`below`), and no further work happens.
pub open spec fn fail_state(task: SubCommand, below: Seq<PhaseView>, e: DevErrorView) -> RunnerView {
    RunnerView { task, stack: Seq::empty(), outcome: Some(Err(wrap_error(below, e))) }
}

/// The state reached when the top level of `stack` has just completed
/// successfully: its parent visit moves to its next subproject, and a parent
/// whose subproject list is exhausted completes in turn; an empty stack
/// means overall success.
pub open spec fn success_state(task: SubCommand, stack: Seq<PhaseView>) -> RunnerView
    decreases stack.len(),
{
    if stack.len() == 0 {
        RunnerView { task, stack, outcome: Some(Ok(())) }
    } else {
        match stack.last() {
            PhaseView::Recursing { subs, current } => if current + 1 < subs.len() {
                RunnerView {
                    task,
                    stack: stack.update(
                        stack.len() - 1,
                        PhaseView::Recursing { subs, current: current + 1 },
                    ),
                    outcome: None,
                }
            } else {
                success_state(task, stack.drop_last())
            },
            _ => RunnerView { task, stack, outcome: None },  // not reached under well-formedness
        }
    }
}

/// The engine's transition: how one reported event advances the state. An
/// event the engine does not expect leaves the state unchanged; in
/// particular a finished engine never moves again.
pub open spec fn step_v(s: RunnerView, ev: EventView) -> RunnerView {
    if !s.expects(ev) {
        s
    } else {
        let below = s.stack.drop_last();
        match (s.stack.last(), ev) {
            (PhaseView::Load, EventView::Config(outcome, dir)) => match process_command_v(
                s.task,
                outcome,
                dir,
            ) {
                Ok(PlanView::RunCommands(cmds)) => if cmds.len() == 0 {
                    success_state(s.task, below)
                } else {
                    RunnerView { stack: below.push(PhaseView::Running { cmds, next: 0 }), ..s }
                },
                Ok(PlanView::EnterSubprojects(subs)) => if subs.len() == 0 {
                    success_state(s.task, below)
                } else {
                    RunnerView {
                        stack: below.push(PhaseView::Recursing { subs, current: 0 }),
                        ..s
                    }
                },
                Err(e) => fail_state(s.task, below, e),
            },
            (PhaseView::Running { cmds, next }, EventView::Ran(ok)) => if !ok {
                fail_state(s.task, below, DevErrorView::ProcessFailed)
            } else if next + 1 < cmds.len() {
                RunnerView {
                    stack: below.push(PhaseView::Running { cmds, next: next + 1 }),
                    ..s
                }
            } else {
                success_state(s.task, below)
            },
            (PhaseView::Recursing { subs, current }, EventView::Entered(outcome)) => match
                run_subproject_command_v(subs[current], outcome) {
                Ok(_) => RunnerView { stack: s.stack.push(PhaseView::Load), ..s },
                Err(e) => fail_state(s.task, below, e),
            },
            _ => s,
        }
    }
}

/// The outside action the engine asks for in a running state.
pub open spec fn action_v(s: RunnerView) -> ActionView {
    match s.stack.last() {
        PhaseView::Load => ActionView::LoadConfig,
        PhaseView::Running { cmds, next } => ActionView::RunShell(cmds[next]),
        PhaseView::Recursing { subs, current } => ActionView::EnterSubproject(subs[current]),
    }
}

/// The outside action the caller is asked to perform next.
#[derive(Debug, PartialEq)]
pub enum Action {
    /// Load the configuration file of the current working directory.
    LoadConfig,
    /// Run this shell command line and report whether it exited zero.
    RunShell(String),
    /// Return to the captured base directory of the current nesting level,
    /// validate this subproject path, and change into it.
    EnterSubproject(String),
}

/// Mathematical form of an [`Action`].
pub ghost enum ActionView {
    LoadConfig,
    RunShell(Seq<char>),
    EnterSubproject(Seq<char>),
}

impl View for Action {
    type V = ActionView;

    open spec fn view(&self) -> ActionView {
        match self {
            Action::LoadConfig => ActionView::LoadConfig,
            Action::RunShell(cmd) => ActionView::RunShell(cmd@),
            Action::EnterSubproject(sub) => ActionView::EnterSubproject(sub@),
        }
    }
}

/// Well-formedness is preserved by every successful completion bubble.
proof fn lemma_success_state_wf(task: SubCommand, stack: Seq<PhaseView>)
    requires
        forall|i: int|
            0 <= i < stack.len() ==> phase_wf(#[trigger] stack[i]) && stack[i] is Recursing,
    ensures
        success_state(task, stack).wf(),
    decreases stack.len(),
{
    if stack.len() > 0 {
        match stack.last() {
            PhaseView::Recursing { subs, current } => {
                if current + 1 < subs.len() {
                    let updated = stack.update(
                        stack.len() - 1,
                        PhaseView::Recursing { subs, current: current + 1 },
                    );
                    assert(forall|i: int|
                        0 <= i < updated.len() - 1 ==> updated[i] == stack[i]);
                } else {
                    lemma_success_state_wf(task, stack.drop_last());
                }
            },
            _ => {},
        }
    }
}

/// Well-formedness is preserved by every transition.
pub proof fn lemma_step_v_wf(s: RunnerView, ev: EventView)
    requires
        s.wf(),
    ensures
        step_v(s, ev).wf(),
{
    if s.expects(ev) {
        let below = s.stack.drop_last();
        assert(forall|i: int| 0 <= i < below.len() ==> below[i] == s.stack[i]);
        assert(forall|i: int|
            0 <= i < below.len() ==> phase_wf(#[trigger] below[i]) && below[i] is Recursing);
        lemma_success_state_wf(s.task, below);
        match (s.stack.last(), ev) {
            (PhaseView::Load, EventView::Config(outcome, dir)) => {
                match process_command_v(s.task, outcome, dir) {
                    Ok(PlanView::RunCommands(cmds)) => {
                        if cmds.len() != 0 {
                            let pushed = below.push(PhaseView::Running { cmds, next: 0 });
                            assert(forall|i: int|
                                0 <= i < pushed.len() - 1 ==> pushed[i] == below[i]);
                        }
                    },
                    Ok(PlanView::EnterSubprojects(subs)) => {
                        if subs.len() != 0 {
                            let pushed = below.push(
                                PhaseView::Recursing { subs, current: 0 },
                            );
                            assert(forall|i: int|
                                0 <= i < pushed.len() - 1 ==> pushed[i] == below[i]);
                        }
                    },
                    Err(_) => {},
                }
            },
            (PhaseView::Running { cmds, next }, EventView::Ran(ok)) => {
                if ok && next + 1 < cmds.len() {
                    let pushed = below.push(PhaseView::Running { cmds, next: next + 1 });
                    assert(forall|i: int| 0 <= i < pushed.len() - 1 ==> pushed[i] == below[i]);
                }
            },
            (PhaseView::Recursing { subs, current }, EventView::Entered(outcome)) => {
                match run_subproject_command_v(subs[current], outcome) {
                    Ok(_) => {
                        let pushed = s.stack.push(PhaseView::Load);
                        assert(forall|i: int|
                            0 <= i < pushed.len() - 1 ==> pushed[i] == s.stack[i]);
                    },
                    Err(_) => {},
                }
            },
            _ => {},
        }
    }
}

// ---------------------------------------------------------------------------
// The engine itself.
// ---------------------------------------------------------------------------

/// The task-resolution and recursive-execution engine, stepped by its caller.
#[derive(Debug)]
pub struct Runner {
    task: SubCommand,
    stack: Vec<Phase>,
    outcome: Option<Result<(), DevError>>,
}

impl View for Runner {
    type V = RunnerView;

    closed spec fn view(&self) -> RunnerView {
        RunnerView {
            task: self.task,
            stack: self.stack.deep_view(),
            outcome: match self.outcome {
                Some(r) => Some(unit_result_view(r)),
                None => None,
            },
        }
    }
}

impl Runner {
    /// Well-formedness of the engine's state.
    pub open spec fn wf(&self) -> bool {
        self@.wf()
    }

    /// Start resolving `task` against the caller's current directory.
    pub fn new(task: SubCommand) -> (r: Runner)
        ensures
            r@ == init_v(task),
            r.wf(),
    {
        let mut stack: Vec<Phase> = Vec::new();
        stack.push(Phase::Load);
        let r = Runner { task, stack, outcome: None };
        proof {
            assert(r@.stack =~= seq![PhaseView::Load]);
        }
        r
    }

    /// Whether the engine has reached an overall outcome.
    pub fn finished(&self) -> (b: bool)
        ensures
            b == (self@.outcome is Some),
    {
        self.outcome.is_some()
    }

    /// How many nesting levels are in progress. The level that asks to enter
    /// a subproject is the deepest one; its base directory is captured when
    /// it first asks.
    pub fn depth(&self) -> (d: usize)
        ensures
            d == self@.stack.len(),
    {
        self.stack.len()
    }

    /// The overall outcome of the run.
    pub fn outcome(self) -> (r: Result<(), DevError>)
        requires
            self@.outcome is Some,
        ensures
            self@.outcome == Some(unit_result_view(r)),
    {
        match self.outcome {
            Some(r) => r,
            None => {
                proof {
                    assert(false);
                }
                Ok(())
            },
        }
    }

    /// The outside action to perform next.
    pub fn next_action(&self) -> (a: Action)
        requires
            self.wf(),
            self@.outcome is None,
        ensures
            a@ == action_v(self@),
    {
        let i = self.stack.len() - 1;
        proof {
            assert(self@.stack.last() == self.stack.deep_view()[i as int]);
        }
        match &self.stack[i] {
            Phase::Load => Action::LoadConfig,
            Phase::Running { cmds, next } => Action::RunShell(cmds[*next].clone()),
            Phase::Recursing { subs, current } => Action::EnterSubproject(subs[*current].clone()),
        }
    }

    /// Unwind a failure: every level still in progress re-wraps it, and the
    /// engine finishes with the outermost wrap.
    fn fail(&mut self, e: DevError)
        requires
            old(self).outcome is None,
            forall|i: int|
                0 <= i < old(self).stack.deep_view().len() ==> phase_wf(
                    #[trigger] old(self).stack.deep_view()[i],
                ) && old(self).stack.deep_view()[i] is Recursing,
        ensures
            final(self)@ == fail_state(old(self)@.task, old(self)@.stack, e@),
    {
        let wrapped: DevError = if self.stack.len() > 0 {
            match &self.stack[0] {
                Phase::Recursing { subs, current } => DevError::SubProjectFailed(
                    subs[*current].clone(),
                ),
                _ => {
                    proof {
                        assert(false);
                    }
                    DevError::ProcessFailed
                },
            }
        } else {
            e
        };
        self.stack = Vec::new();
        self.outcome = Some(Err(wrapped));
        proof {
            assert(self@.stack =~= Seq::<PhaseView>::empty());
        }
    }

    /// Bubble a completed level up: the parent visit advances to its next
    /// subproject, exhausted parents complete in turn, and an empty stack is
    /// overall success.
    fn finish_success(&mut self)
        requires
            old(self).outcome is None,
            forall|i: int|
                0 <= i < old(self).stack.deep_view().len() ==> phase_wf(
                    #[trigger] old(self).stack.deep_view()[i],
                ) && old(self).stack.deep_view()[i] is Recursing,
        ensures
            final(self)@ == success_state(old(self)@.task, old(self)@.stack),
    {
        loop
            invariant
                self.task == old(self).task,
                self.outcome is None,
                forall|i: int|
                    0 <= i < self.stack.deep_view().len() ==> phase_wf(
                        #[trigger] self.stack.deep_view()[i],
                    ) && self.stack.deep_view()[i] is Recursing,
                success_state(old(self)@.task, old(self)@.stack) == success_state(
                    self@.task,
                    self@.stack,
                ),
                self@.task == old(self)@.task,
            decreases self.stack.len(),
        {
            if self.stack.len() == 0 {
                self.outcome = Some(Ok(()));
                proof {
                    assert(self@.stack =~= Seq::<PhaseView>::empty());
                }
                return ;
            }
            let ghost prev = self.stack.deep_view();
            let phase = self.stack.pop().unwrap();
            proof {
                assert(self.stack.deep_view() =~= prev.drop_last());
                assert(phase@ == prev.last());
            }
            match phase {
                Phase::Recursing { subs, current } => {
                    if current < subs.len() - 1 {
                        let ghost subs_v = subs.deep_view();
                        self.stack.push(Phase::Recursing { subs, current: current + 1 });
                        proof {
                            assert(self.stack.deep_view() =~= prev.update(
                                prev.len() - 1,
                                PhaseView::Recursing { subs: subs_v, current: current + 1 },
                            ));
                        }
                        return ;
                    }
                    // last subproject of this level done: the level completes
                },
                _ => {
                    proof {
                        assert(false);
                    }
                },
            }
        }
    }

    /// Fold one reported outcome into the state.
    pub fn step(&mut self, event: Event)
        requires
            old(self).wf(),
            old(self)@.expects(event@),
        ensures
            final(self)@ == step_v(old(self)@, event@),
            final(self).wf(),
    {
        proof {
            lemma_step_v_wf(old(self)@, event@);
        }
        let ghost pre = self@;
        let phase = self.stack.pop().unwrap();
        proof {
            assert(self.stack.deep_view() =~= pre.stack.drop_last());
            assert(phase@ == pre.stack.last());
            assert(forall|i: int|
                0 <= i < self.stack.deep_view().len() ==> phase_wf(
                    #[trigger] self.stack.deep_view()[i],
                ) && self.stack.deep_view()[i] is Recursing);
        }
        match (phase, event) {
            (Phase::Load, Event::Config(outcome, dir)) => {
                match process_command(&self.task, outcome, dir) {
                    Err(e) => self.fail(e),
                    Ok(Plan::RunCommands(cmds)) => {
                        if cmds.len() == 0 {
                            self.finish_success();
                        } else {
                            let ghost below = self.stack.deep_view();
                            self.stack.push(Phase::Running { cmds, next: 0 });
                            proof {
                                assert(self.stack.deep_view() =~= below.push(
                                    self.stack.deep_view().last(),
                                ));
                            }
                        }
                    },
                    Ok(Plan::EnterSubprojects(subs)) => {
                        if subs.len() == 0 {
                            self.finish_success();
                        } else {
                            let ghost below = self.stack.deep_view();
                            self.stack.push(Phase::Recursing { subs, current: 0 });
                            proof {
                                assert(self.stack.deep_view() =~= below.push(
                                    self.stack.deep_view().last(),
                                ));
                            }
                        }
                    },
                }
            },
            (Phase::Running { cmds, next }, Event::Ran(ok)) => {
                if !ok {
                    self.fail(DevError::ProcessFailed);
                } else if next < cmds.len() - 1 {
                    let ghost below = self.stack.deep_view();
                    self.stack.push(Phase::Running { cmds, next: next + 1 });
                    proof {
                        assert(self.stack.deep_view() =~= below.push(
                            self.stack.deep_view().last(),
                        ));
                    }
                } else {
                    self.finish_success();
                }
            },
            (Phase::Recursing { subs, current }, Event::Entered(outcome)) => {
                match run_subproject_command(&subs[current], outcome) {
                    Ok(_) => {
                        let ghost below = self.stack.deep_view();
                        self.stack.push(Phase::Recursing { subs, current });
                        self.stack.push(Phase::Load);
                        proof {
                            assert(self.stack.deep_view() =~= pre.stack.push(PhaseView::Load));
                        }
                    },
                    Err(e) => self.fail(e),
                }
            },
            _ => {
                proof {
                    assert(false);
                }
            },
        }
    }
}

/// Resolve one attempt to enter a declared subproject.
pub fn run_subproject_command(sub_project: &String, outcome: EnterOutcome) -> (r: Result<
    (),
    DevError,
>)
    ensures
        unit_result_view(r) == run_subproject_command_v(sub_project@, outcome),
{
    match outcome {
        EnterOutcome::Entered => Ok(()),
        EnterOutcome::Missing => Err(DevError::SubProjectNotFound(sub_project.clone())),
        EnterOutcome::CdFailed => Err(DevError::DirectoryManipulationFailed),
    }
}

} // verus!
