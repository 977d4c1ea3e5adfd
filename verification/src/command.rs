//! The configuration data model: task names, per-task command declarations,
//! and the root configuration of one project directory.

use vstd::prelude::*;

verus! {

/// The closed set of supported task names. Every value has a unique canonical
/// lowercase string form; unrecognized strings are rejected, never defaulted.
#[derive(Debug, Clone, Copy, PartialEq, Eq)]
pub enum SubCommand {
    Build,
    Package,
    Check,
    Clean,
    Install,
    Run,
}

impl SubCommand {
    /// The lowercase string that the task name is written as.
    pub open spec fn spec_name(self) -> Seq<char> {
        match self {
            SubCommand::Build => "build"@,
            SubCommand::Package => "package"@,
            SubCommand::Check => "check"@,
            SubCommand::Clean => "clean"@,
            SubCommand::Install => "install"@,
            SubCommand::Run => "run"@,
        }
    }

    /// Which task name, if any, a string denotes: exactly the canonical
    /// forms are accepted.
    pub open spec fn spec_parse(s: Seq<char>) -> Option<SubCommand> {
        if s == "build"@ {
            Some(SubCommand::Build)
        } else if s == "package"@ {
            Some(SubCommand::Package)
        } else if s == "check"@ {
            Some(SubCommand::Check)
        } else if s == "clean"@ {
            Some(SubCommand::Clean)
        } else if s == "install"@ {
            Some(SubCommand::Install)
        } else if s == "run"@ {
            Some(SubCommand::Run)
        } else {
            None
        }
    }

    /// The lowercase string that the task name is written as.
    pub fn canonical_name(&self) -> (name: String)
        ensures
            name@ == self.spec_name(),
    {
        match self {
            SubCommand::Build => String::from_str("build"),
            SubCommand::Package => String::from_str("package"),
            SubCommand::Check => String::from_str("check"),
            SubCommand::Clean => String::from_str("clean"),
            SubCommand::Install => String::from_str("install"),
            SubCommand::Run => String::from_str("run"),
        }
    }

    /// Parse a task name from its canonical string form; any other string is
    /// rejected.
    pub fn parse(value: &str) -> (r: Result<SubCommand, ()>)
        ensures
            r matches Ok(t) ==> Self::spec_parse(value@) == Some(t),
            r is Err ==> Self::spec_parse(value@) is None,
    {
        let v = String::from_str(value);
        if v == String::from_str("build") {
            Ok(SubCommand::Build)
        } else if v == String::from_str("package") {
            Ok(SubCommand::Package)
        } else if v == String::from_str("check") {
            Ok(SubCommand::Check)
        } else if v == String::from_str("clean") {
            Ok(SubCommand::Clean)
        } else if v == String::from_str("install") {
            Ok(SubCommand::Install)
        } else if v == String::from_str("run") {
            Ok(SubCommand::Run)
        } else {
            Err(())
        }
    }
}

impl core::str::FromStr for SubCommand {
    type Err = ();

    fn from_str(value: &str) -> Result<SubCommand, ()> {
        SubCommand::parse(value)
    }
}

/// What running a task means for one project: nothing configured, one shell
/// command line, or an ordered sequence of command lines.
#[derive(Debug, PartialEq)]
pub enum UserCommand {
    /// No command configured for the task.
    Undefined,
    /// One shell command line.
    Single(String),
    /// Command lines to run in declared order; the empty sequence is legal
    /// and succeeds vacuously.
    Sequence(Vec<String>),
}

/// Mathematical form of a [`UserCommand`].
pub ghost enum UserCommandView {
    Undefined,
    Single(Seq<char>),
    Sequence(Seq<Seq<char>>),
}

impl View for UserCommand {
    type V = UserCommandView;

    open spec fn view(&self) -> UserCommandView {
        match self {
            UserCommand::Undefined => UserCommandView::Undefined,
            UserCommand::Single(cmd) => UserCommandView::Single(cmd@),
            UserCommand::Sequence(cmds) => UserCommandView::Sequence(cmds.deep_view()),
        }
    }
}

impl Default for UserCommand {
    /// An absent declaration means the task is undefined.
    fn default() -> (r: UserCommand)
        ensures
            r == UserCommand::Undefined,
    {
        UserCommand::Undefined
    }
}

/// The per-task command declarations of one project: one [`UserCommand`] for
/// each member of the closed task-name set.
#[derive(Debug, PartialEq)]
pub struct Commands {
    build: UserCommand,
    package: UserCommand,
    check: UserCommand,
    clean: UserCommand,
    install: UserCommand,
    run: UserCommand,
}

/// Mathematical form of a [`Commands`] value.
pub ghost struct CommandsView {
    pub build: UserCommandView,
    pub package: UserCommandView,
    pub check: UserCommandView,
    pub clean: UserCommandView,
    pub install: UserCommandView,
    pub run: UserCommandView,
}

impl CommandsView {
    /// The declaration that a task name selects.
    pub open spec fn by_sub_command(self, sub_command: SubCommand) -> UserCommandView {
        match sub_command {
            SubCommand::Build => self.build,
            SubCommand::Package => self.package,
            SubCommand::Check => self.check,
            SubCommand::Clean => self.clean,
            SubCommand::Install => self.install,
            SubCommand::Run => self.run,
        }
    }
}

impl View for Commands {
    type V = CommandsView;

    closed spec fn view(&self) -> CommandsView {
        CommandsView {
            build: self.build@,
            package: self.package@,
            check: self.check@,
            clean: self.clean@,
            install: self.install@,
            run: self.run@,
        }
    }
}

impl Commands {
    /// Build a declaration table from one entry per task name.
    pub fn new(
        build: UserCommand,
        package: UserCommand,
        check: UserCommand,
        clean: UserCommand,
        install: UserCommand,
        run: UserCommand,
    ) -> (r: Commands)
        ensures
            r@ == (CommandsView {
                build: build@,
                package: package@,
                check: check@,
                clean: clean@,
                install: install@,
                run: run@,
            }),
    {
        Commands { build, package, check, clean, install, run }
    }

    /// The declaration that a task name selects.
    pub fn by_sub_command(self, sub_command: &SubCommand) -> (r: UserCommand)
        ensures
            r@ == self@.by_sub_command(*sub_command),
    {
        match *sub_command {
            SubCommand::Build => self.build,
            SubCommand::Package => self.package,
            SubCommand::Check => self.check,
            SubCommand::Clean => self.clean,
            SubCommand::Install => self.install,
            SubCommand::Run => self.run,
        }
    }
}

/// The root configuration of one project directory. Both keys are optional;
/// the combination of their presence drives the resolver's branching.
#[derive(Debug, PartialEq)]
pub struct Root {
    /// The project's own task declarations, if any.
    pub commands: Option<Commands>,
    /// The ordered subproject paths, if declared. Duplicates and empty
    /// strings are structurally legal; duplicates mean "visit twice".
    pub subprojects: Option<Vec<String>>,
}

/// Mathematical form of a [`Root`] value.
pub ghost struct RootView {
    pub commands: Option<CommandsView>,
    pub subprojects: Option<Seq<Seq<char>>>,
}

impl View for Root {
    type V = RootView;

    open spec fn view(&self) -> RootView {
        RootView {
            commands: match self.commands {
                Some(c) => Some(c@),
                None => None,
            },
            subprojects: match self.subprojects {
                Some(ref s) => Some(s.deep_view()),
                None => None,
            },
        }
    }
}

} // verus!
