use dev::command::{Commands, SubCommand, UserCommand};

#[test]
fn sub_command_errors_when_unknown_string() {
    assert_eq!("fish".parse::<SubCommand>(), Err(()));
}

#[test]
fn sub_command_canonical_names_are_exact() {
    assert_eq!(SubCommand::Build.canonical_name(), "build");
    assert_eq!(SubCommand::Package.canonical_name(), "package");
    assert_eq!(SubCommand::Check.canonical_name(), "check");
    assert_eq!(SubCommand::Clean.canonical_name(), "clean");
    assert_eq!(SubCommand::Install.canonical_name(), "install");
    assert_eq!(SubCommand::Run.canonical_name(), "run");
}

#[test]
fn sub_command_round_trips_through_its_canonical_name() {
    let all = vec![
        SubCommand::Build,
        SubCommand::Package,
        SubCommand::Check,
        SubCommand::Clean,
        SubCommand::Install,
        SubCommand::Run,
    ];
    for task in all {
        assert_eq!(task.canonical_name().parse::<SubCommand>(), Ok(task));
    }
}

#[test]
fn sub_command_rejects_near_misses() {
    assert_eq!("Build".parse::<SubCommand>(), Err(()));
    assert_eq!("builds".parse::<SubCommand>(), Err(()));
    assert_eq!("".parse::<SubCommand>(), Err(()));
}

#[test]
fn by_sub_command_selects_the_matching_entry() {
    let commands = Commands::new(
        UserCommand::Single("make all".to_string()),
        UserCommand::Undefined,
        UserCommand::Sequence(vec!["lint".to_string(), "test".to_string()]),
        UserCommand::Undefined,
        UserCommand::Undefined,
        UserCommand::Single("./app".to_string()),
    );
    assert_eq!(
        commands.by_sub_command(&SubCommand::Check),
        UserCommand::Sequence(vec!["lint".to_string(), "test".to_string()])
    );
}

#[test]
fn by_sub_command_yields_undefined_for_absent_entries() {
    let commands = Commands::new(
        UserCommand::Single("make all".to_string()),
        UserCommand::Undefined,
        UserCommand::Undefined,
        UserCommand::Undefined,
        UserCommand::Undefined,
        UserCommand::Undefined,
    );
    assert_eq!(commands.by_sub_command(&SubCommand::Clean), UserCommand::Undefined);
}

#[test]
fn user_command_defaults_to_undefined() {
    assert_eq!(UserCommand::default(), UserCommand::Undefined);
}
