use dev::command::{Commands, Root, SubCommand, UserCommand};
use dev::err::DevError;
use dev::runner::{
    process_command, run_project_commands, run_subproject_command, Action, ConfigOutcome, DirInfo,
    EnterOutcome, Event, Plan, Runner,
};

/// A declaration table where only `build` is configured.
fn build_only(cmd: UserCommand) -> Commands {
    Commands::new(
        cmd,
        UserCommand::Undefined,
        UserCommand::Undefined,
        UserCommand::Undefined,
        UserCommand::Undefined,
        UserCommand::Undefined,
    )
}

/// A configuration with only local commands declared.
fn local_config(commands: Commands) -> ConfigOutcome {
    ConfigOutcome::Parsed(Root { commands: Some(commands), subprojects: None })
}

/// A configuration with only subprojects declared.
fn subprojects_config(subs: &[&str]) -> ConfigOutcome {
    ConfigOutcome::Parsed(Root {
        commands: None,
        subprojects: Some(subs.iter().map(|s| s.to_string()).collect()),
    })
}

fn here() -> DirInfo {
    DirInfo::Known(".".to_string())
}

/// Drive the engine as far as running one local `build` command in the
/// current project, reporting `ok` as that command's outcome.
fn run_local_build(runner: &mut Runner, cmd: &str, ok: bool) {
    runner.step(Event::Config(local_config(build_only(UserCommand::Single(cmd.to_string()))), here()));
    match runner.next_action() {
        Action::RunShell(line) => assert_eq!(line, cmd),
        other => panic!("expected a command line, got {:?}", other),
    }
    runner.step(Event::Ran(ok));
}

#[test]
fn run_subproject_command_nonexistent_directory_returns_subproject_not_found() {
    let result = run_subproject_command(&"fake_dir".to_string(), EnterOutcome::Missing);
    assert_eq!(result, Err(DevError::SubProjectNotFound("fake_dir".to_string())));
}

#[test]
fn run_subproject_command_failing_test_returns_subproject_failed() {
    let mut runner = Runner::new(SubCommand::Build);
    runner.step(Event::Config(subprojects_config(&["tests/failing_subproject"]), here()));
    match runner.next_action() {
        Action::EnterSubproject(path) => assert_eq!(path, "tests/failing_subproject"),
        other => panic!("expected a subproject visit, got {:?}", other),
    }
    runner.step(Event::Entered(EnterOutcome::Entered));
    run_local_build(&mut runner, "exit 1", false);
    assert_eq!(
        runner.outcome(),
        Err(DevError::SubProjectFailed("tests/failing_subproject".to_string()))
    );
}

#[test]
fn run_subproject_command_success_is_ok() {
    let mut runner = Runner::new(SubCommand::Build);
    runner.step(Event::Config(subprojects_config(&["tests/pass_subproject"]), here()));
    runner.step(Event::Entered(EnterOutcome::Entered));
    run_local_build(&mut runner, "exit 0", true);
    assert_eq!(runner.outcome(), Ok(()));
}

#[test]
fn run_multitask_command_successes_is_ok() {
    let mut runner = Runner::new(SubCommand::Build);
    runner.step(Event::Config(subprojects_config(&["tests/multitask_subproject"]), here()));
    runner.step(Event::Entered(EnterOutcome::Entered));
    runner.step(Event::Config(
        local_config(build_only(UserCommand::Sequence(vec![
            "true".to_string(),
            "true".to_string(),
        ]))),
        here(),
    ));
    runner.step(Event::Ran(true));
    runner.step(Event::Ran(true));
    assert_eq!(runner.outcome(), Ok(()));
}

#[test]
fn process_command_can_run_subproject_commmands_success_is_ok() {
    // A project whose subproject has a nested subproject of its own.
    let mut runner = Runner::new(SubCommand::Build);
    runner.step(Event::Config(subprojects_config(&["tests/with_subprojects"]), here()));
    runner.step(Event::Entered(EnterOutcome::Entered));
    runner.step(Event::Config(subprojects_config(&["nested"]), here()));
    assert_eq!(runner.depth(), 2);
    runner.step(Event::Entered(EnterOutcome::Entered));
    run_local_build(&mut runner, "exit 0", true);
    assert_eq!(runner.outcome(), Ok(()));
}

#[test]
fn process_command_end_on_first_failure() {
    let mut runner = Runner::new(SubCommand::Build);
    runner.step(Event::Config(subprojects_config(&["tests/multitask_early_failure"]), here()));
    runner.step(Event::Entered(EnterOutcome::Entered));
    runner.step(Event::Config(
        local_config(build_only(UserCommand::Sequence(vec![
            "true".to_string(),
            "false".to_string(),
            "true".to_string(),
        ]))),
        here(),
    ));
    runner.step(Event::Ran(true));
    runner.step(Event::Ran(false));
    // The third command of the sequence is never asked for: the run is over.
    assert!(runner.finished());
    assert_eq!(
        runner.outcome(),
        Err(DevError::SubProjectFailed("tests/multitask_early_failure".to_string()))
    );
}

#[test]
fn process_command_rus_root_project_command_when_subprojects_empty() {
    let mut runner = Runner::new(SubCommand::Build);
    runner.step(Event::Config(
        ConfigOutcome::Parsed(Root {
            commands: Some(build_only(UserCommand::Single("exit 0".to_string()))),
            subprojects: Some(vec![]),
        }),
        DirInfo::Known("tests/empty_subprojects".to_string()),
    ));
    match runner.next_action() {
        Action::RunShell(line) => assert_eq!(line, "exit 0"),
        other => panic!("expected local execution, got {:?}", other),
    }
    runner.step(Event::Ran(true));
    assert_eq!(runner.outcome(), Ok(()));
}

#[test]
fn process_command_yml_error_when_no_commands_or_subprojects() {
    let mut runner = Runner::new(SubCommand::Build);
    runner.step(Event::Config(
        ConfigOutcome::Parsed(Root { commands: None, subprojects: None }),
        DirInfo::Known("tests/empty_dev".to_string()),
    ));
    assert_eq!(
        runner.outcome(),
        Err(DevError::YmlProblem(
            "tests/empty_dev, no tasks or subprojects present".to_string()
        ))
    );
}

#[test]
fn empty_subprojects_behaves_like_absent_subprojects() {
    // The same declarations, once with `subprojects: []`, once without the
    // key: the outcomes agree, here on a failing task.
    let commands = || build_only(UserCommand::Single("false".to_string()));
    let mut with_empty = Runner::new(SubCommand::Build);
    with_empty.step(Event::Config(
        ConfigOutcome::Parsed(Root { commands: Some(commands()), subprojects: Some(vec![]) }),
        here(),
    ));
    let mut with_none = Runner::new(SubCommand::Build);
    with_none.step(Event::Config(
        ConfigOutcome::Parsed(Root { commands: Some(commands()), subprojects: None }),
        here(),
    ));
    assert_eq!(with_empty.next_action(), with_none.next_action());
    with_empty.step(Event::Ran(false));
    with_none.step(Event::Ran(false));
    assert_eq!(with_empty.outcome(), with_none.outcome());
}

#[test]
fn sibling_failure_skips_later_siblings() {
    // Subprojects [A, B, C]: A succeeds, B fails, so the run ends with
    // SubProjectFailed("B") and C is never entered.
    let mut runner = Runner::new(SubCommand::Build);
    runner.step(Event::Config(subprojects_config(&["A", "B", "C"]), here()));
    match runner.next_action() {
        Action::EnterSubproject(path) => assert_eq!(path, "A"),
        other => panic!("expected to enter A, got {:?}", other),
    }
    runner.step(Event::Entered(EnterOutcome::Entered));
    run_local_build(&mut runner, "true", true);
    match runner.next_action() {
        Action::EnterSubproject(path) => assert_eq!(path, "B"),
        other => panic!("expected to enter B, got {:?}", other),
    }
    runner.step(Event::Entered(EnterOutcome::Entered));
    run_local_build(&mut runner, "false", false);
    assert!(runner.finished());
    assert_eq!(runner.outcome(), Err(DevError::SubProjectFailed("B".to_string())));
}

#[test]
fn duplicate_subprojects_are_visited_twice_in_order() {
    let mut runner = Runner::new(SubCommand::Build);
    runner.step(Event::Config(subprojects_config(&["sub", "sub"]), here()));
    for _ in 0..2 {
        match runner.next_action() {
            Action::EnterSubproject(path) => assert_eq!(path, "sub"),
            other => panic!("expected to enter sub, got {:?}", other),
        }
        runner.step(Event::Entered(EnterOutcome::Entered));
        run_local_build(&mut runner, "true", true);
    }
    assert_eq!(runner.outcome(), Ok(()));
}

#[test]
fn sequence_fails_on_first_falsy_command() {
    // A sequence of ["true", "false", "true"] fails overall and the third
    // command is never started.
    let mut runner = Runner::new(SubCommand::Build);
    runner.step(Event::Config(
        local_config(build_only(UserCommand::Sequence(vec![
            "true".to_string(),
            "false".to_string(),
            "true".to_string(),
        ]))),
        here(),
    ));
    match runner.next_action() {
        Action::RunShell(line) => assert_eq!(line, "true"),
        other => panic!("expected the first command, got {:?}", other),
    }
    runner.step(Event::Ran(true));
    match runner.next_action() {
        Action::RunShell(line) => assert_eq!(line, "false"),
        other => panic!("expected the second command, got {:?}", other),
    }
    runner.step(Event::Ran(false));
    assert!(runner.finished());
    assert_eq!(runner.outcome(), Err(DevError::ProcessFailed));
}

#[test]
fn empty_sequence_succeeds_vacuously() {
    let mut runner = Runner::new(SubCommand::Build);
    runner.step(Event::Config(local_config(build_only(UserCommand::Sequence(vec![]))), here()));
    assert!(runner.finished());
    assert_eq!(runner.outcome(), Ok(()));
}

#[test]
fn successful_single_command_run_exits_clean() {
    let mut runner = Runner::new(SubCommand::Build);
    run_local_build(&mut runner, "exit 0", true);
    assert_eq!(runner.outcome(), Ok(()));
}

#[test]
fn failing_single_command_reports_process_failed() {
    let mut runner = Runner::new(SubCommand::Build);
    run_local_build(&mut runner, "exit 1", false);
    assert_eq!(runner.outcome(), Err(DevError::ProcessFailed));
}

#[test]
fn missing_subproject_names_the_exact_path() {
    let mut runner = Runner::new(SubCommand::Build);
    runner.step(Event::Config(subprojects_config(&["sub"]), here()));
    runner.step(Event::Entered(EnterOutcome::Missing));
    assert_eq!(runner.outcome(), Err(DevError::SubProjectNotFound("sub".to_string())));
}

#[test]
fn failed_directory_change_reports_directory_error() {
    let mut runner = Runner::new(SubCommand::Build);
    runner.step(Event::Config(subprojects_config(&["sub"]), here()));
    runner.step(Event::Entered(EnterOutcome::CdFailed));
    assert_eq!(runner.outcome(), Err(DevError::DirectoryManipulationFailed));
}

#[test]
fn undefined_task_reports_command_undefined() {
    let mut runner = Runner::new(SubCommand::Clean);
    runner.step(Event::Config(local_config(build_only(UserCommand::Single("true".to_string()))), here()));
    assert_eq!(runner.outcome(), Err(DevError::CommandUndefined(SubCommand::Clean)));
}

#[test]
fn missing_configuration_reports_file_not_found() {
    let mut runner = Runner::new(SubCommand::Build);
    runner.step(Event::Config(ConfigOutcome::Missing, here()));
    assert_eq!(runner.outcome(), Err(DevError::FileNotFound));
}

#[test]
fn unreadable_configuration_reports_file_unreadable() {
    let mut runner = Runner::new(SubCommand::Build);
    runner.step(Event::Config(ConfigOutcome::Unreadable, here()));
    assert_eq!(runner.outcome(), Err(DevError::FileUnreadable));
}

#[test]
fn invalid_configuration_reports_yml_problem_with_directory() {
    let mut runner = Runner::new(SubCommand::Build);
    runner.step(Event::Config(ConfigOutcome::Invalid, DirInfo::Known("somewhere".to_string())));
    assert_eq!(runner.outcome(), Err(DevError::YmlProblem("somewhere".to_string())));
}

#[test]
fn invalid_configuration_without_directory_reports_directory_error() {
    let mut runner = Runner::new(SubCommand::Build);
    runner.step(Event::Config(ConfigOutcome::Invalid, DirInfo::Inaccessible));
    assert_eq!(runner.outcome(), Err(DevError::DirectoryManipulationFailed));
}

#[test]
fn no_declarations_without_directory_still_names_the_problem() {
    let mut runner = Runner::new(SubCommand::Build);
    runner.step(Event::Config(
        ConfigOutcome::Parsed(Root { commands: None, subprojects: None }),
        DirInfo::Inaccessible,
    ));
    assert_eq!(
        runner.outcome(),
        Err(DevError::YmlProblem(
            "no directory found, no tasks or subprojects present".to_string()
        ))
    );
}

#[test]
fn nested_failure_names_the_outermost_subproject() {
    // The failure of a nested subproject is re-wrapped at each level; only
    // the outermost subproject's name survives.
    let mut runner = Runner::new(SubCommand::Build);
    runner.step(Event::Config(subprojects_config(&["outer"]), here()));
    runner.step(Event::Entered(EnterOutcome::Entered));
    runner.step(Event::Config(subprojects_config(&["inner"]), here()));
    runner.step(Event::Entered(EnterOutcome::Missing));
    assert_eq!(runner.outcome(), Err(DevError::SubProjectFailed("outer".to_string())));
}

#[test]
fn subprojects_take_precedence_over_local_commands() {
    let mut runner = Runner::new(SubCommand::Build);
    runner.step(Event::Config(
        ConfigOutcome::Parsed(Root {
            commands: Some(build_only(UserCommand::Single("never run".to_string()))),
            subprojects: Some(vec!["sub".to_string()]),
        }),
        here(),
    ));
    match runner.next_action() {
        Action::EnterSubproject(path) => assert_eq!(path, "sub"),
        other => panic!("expected a subproject visit, got {:?}", other),
    }
}

#[test]
fn empty_subproject_list_without_commands_succeeds_quietly() {
    // Declaring `subprojects: []` and nothing else visits nothing and ends
    // successfully, as the recursion over an empty list is vacuous.
    let mut runner = Runner::new(SubCommand::Build);
    runner.step(Event::Config(
        ConfigOutcome::Parsed(Root { commands: None, subprojects: Some(vec![]) }),
        here(),
    ));
    assert_eq!(runner.outcome(), Ok(()));
}

#[test]
fn run_project_commands_maps_each_declaration_kind() {
    assert_eq!(
        run_project_commands(&SubCommand::Build, build_only(UserCommand::Single("x".to_string()))),
        Ok(vec!["x".to_string()])
    );
    assert_eq!(
        run_project_commands(&SubCommand::Build, build_only(UserCommand::Undefined)),
        Err(DevError::CommandUndefined(SubCommand::Build))
    );
    assert_eq!(
        run_project_commands(
            &SubCommand::Build,
            build_only(UserCommand::Sequence(vec!["a".to_string(), "b".to_string()]))
        ),
        Ok(vec!["a".to_string(), "b".to_string()])
    );
}

#[test]
fn process_command_resolves_local_and_recursive_plans() {
    let local = process_command(
        &SubCommand::Build,
        local_config(build_only(UserCommand::Single("x".to_string()))),
        here(),
    );
    assert_eq!(local, Ok(Plan::RunCommands(vec!["x".to_string()])));
    let recursive = process_command(&SubCommand::Build, subprojects_config(&["sub"]), here());
    assert_eq!(recursive, Ok(Plan::EnterSubprojects(vec!["sub".to_string()])));
}
