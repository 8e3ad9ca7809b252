use hab_sup::args::{Arg, ArgMatches};
use hab_sup::cli::{cli, ArgSpec, CommandSpec, Subcommand, Validator};
use hab_sup::domain::Platform;

fn find<'a>(list: &'a [CommandSpec], command: Subcommand) -> Option<&'a CommandSpec> {
    list.iter().find(|c| c.command == command)
}

fn arg(list: &[ArgSpec], arg: Arg) -> Option<&ArgSpec> {
    list.iter().find(|a| a.arg == arg)
}

#[test]
fn commands_go_by_their_names() {
    let all = [
        (Subcommand::Bash, "bash"),
        (Subcommand::Config, "config"),
        (Subcommand::Load, "load"),
        (Subcommand::Run, "run"),
        (Subcommand::Sh, "sh"),
        (Subcommand::Start, "start"),
        (Subcommand::Status, "status"),
        (Subcommand::Stop, "stop"),
        (Subcommand::Term, "term"),
        (Subcommand::Unload, "unload"),
    ];
    for (command, name) in all {
        assert_eq!(command.name(), name);
        assert_eq!(Subcommand::from_name(name), Some(command));
    }
    assert_eq!(Subcommand::from_name("sta"), None);
    assert_eq!(Subcommand::from_name(""), None);
}

#[test]
fn the_program_is_described() {
    let app = cli(Platform::Unix);
    assert_eq!(app.name, "hab-sup");
    assert_eq!(app.about, "The Habitat Supervisor");
    assert_eq!(app.author, "\nAuthors: The Habitat Maintainers <humans@habitat.sh>\n");
    assert!(app.versionless_subcommands && app.subcommand_required_else_help);
    assert_eq!(app.args.len(), 2);
    assert!(app.args.iter().all(|a| a.global && !a.takes_value));
    assert_eq!(app.args[0].short, Some("v"));
    assert_eq!(app.args[1].long, Some("no-color"));
}

#[test]
fn only_unix_can_end_a_supervisor() {
    let unix = cli(Platform::Unix);
    let windows = cli(Platform::Windows);
    assert_eq!(unix.commands.len(), 10);
    assert_eq!(windows.commands.len(), 9);
    assert!(find(&unix.commands, Subcommand::Term).is_some());
    assert!(find(&windows.commands, Subcommand::Term).is_none());
}

#[test]
fn only_windows_asks_for_a_password() {
    for command in [Subcommand::Load, Subcommand::Run] {
        let unix = cli(Platform::Unix);
        let windows = cli(Platform::Windows);
        assert!(arg(&find(&unix.commands, command).unwrap().args, Arg::Password).is_none());
        assert!(arg(&find(&windows.commands, command).unwrap().args, Arg::Password).is_some());
    }
}

#[test]
fn load_takes_its_arguments_in_order() {
    let app = cli(Platform::Windows);
    let load = find(&app.commands, Subcommand::Load).unwrap();
    let names: Vec<&str> = load.args.iter().map(|a| a.arg.name()).collect();
    assert_eq!(
        names,
        vec![
            "PKG_IDENT", "APPLICATION", "ENVIRONMENT", "CHANNEL", "GROUP", "BLDR_URL", "TOPOLOGY",
            "STRATEGY", "BIND", "FORCE", "PASSWORD",
        ]
    );
    assert!(load.args[0].required && load.args[0].takes_value);
    assert_eq!(load.args[1].needs, Some(Arg::Environment));
    assert_eq!(load.args[2].needs, Some(Arg::Application));
    assert_eq!((load.args[1].long, load.args[1].short), (Some("application"), Some("a")));
    assert_eq!(load.args[5].validator, Some(Validator::Url));
    assert_eq!(load.args[6].validator, Some(Validator::Topology));
    assert_eq!(load.args[7].validator, Some(Validator::UpdateStrategy));
    assert!(load.args[8].multiple);
    assert!(!load.args[9].takes_value);
}

#[test]
fn run_takes_its_arguments_in_order() {
    let app = cli(Platform::Unix);
    let run = find(&app.commands, Subcommand::Run).unwrap();
    let names: Vec<&str> = run.args.iter().map(|a| a.arg.name()).collect();
    assert_eq!(
        names,
        vec![
            "LISTEN_GOSSIP", "LISTEN_HTTP", "LISTEN_CTL", "NAME", "ORGANIZATION", "PEER",
            "PERMANENT_PEER", "PEER_WATCH_FILE", "RING", "CHANNEL", "BLDR_URL", "AUTO_UPDATE",
            "EVENTS", "PKG_IDENT_OR_ARTIFACT", "APPLICATION", "ENVIRONMENT", "GROUP", "TOPOLOGY",
            "STRATEGY", "BIND", "FORCE",
        ]
    );
    assert_eq!(run.args[2].validator, Some(Validator::ListenHttp));
    assert_eq!(run.args[7].conflicts_with, Some("peer"));
    assert_eq!(run.args[12].validator, Some(Validator::ServiceGroup));
    assert!(!run.args[13].required);
}

#[test]
fn aliases_shorten_names() {
    let app = cli(Platform::Unix);
    for command in &app.commands {
        for alias in &command.aliases {
            assert!(command.command.name().starts_with(alias));
        }
    }
    assert_eq!(find(&app.commands, Subcommand::Start).unwrap().aliases, vec!["sta", "star"]);
    assert_eq!(
        find(&app.commands, Subcommand::Status).unwrap().aliases,
        vec!["stat", "statu", "status"]
    );
}

#[test]
fn no_word_names_two_commands() {
    let app = cli(Platform::Unix);
    let mut words: Vec<(&str, Subcommand)> = Vec::new();
    for command in &app.commands {
        words.push((command.command.name(), command.command));
        for alias in &command.aliases {
            words.push((alias, command.command));
        }
    }
    for (word, command) in &words {
        assert!(words.iter().all(|(other, owner)| other != word || owner == command));
    }
}

#[test]
fn no_command_declares_an_argument_twice() {
    for platform in [Platform::Unix, Platform::Windows] {
        let app = cli(platform);
        for command in &app.commands {
            for (i, a) in command.args.iter().enumerate() {
                assert!(command.args.iter().skip(i + 1).all(|b| b.arg != a.arg));
                assert!(a.arg != Arg::ConfigDir);
            }
        }
    }
}

#[test]
fn the_help_on_config_differs() {
    let unix = cli(Platform::Unix);
    let windows = cli(Platform::Windows);
    assert_eq!(
        find(&unix.commands, Subcommand::Config).unwrap().args[0].help,
        "A package identifier (ex: core/redis)"
    );
    assert_eq!(
        find(&windows.commands, Subcommand::Config).unwrap().args[0].help,
        "A package identifier (ex: core/redis, core/busybox-static/1.42.2)"
    );
}

#[test]
fn matches_hold_what_was_given() {
    let mut m = ArgMatches::new();
    assert!(!m.is_present(Arg::Peer));
    assert_eq!(m.value_of(Arg::Peer), None);
    assert!(m.values_of(Arg::Peer).is_none());
    m.insert(Arg::Peer, vec!["a".to_string(), "b".to_string()]);
    m.insert(Arg::Force, vec![]);
    assert!(m.is_present(Arg::Peer) && m.is_present(Arg::Force));
    assert_eq!(m.value_of(Arg::Peer).unwrap(), "a");
    assert_eq!(m.values_of(Arg::Peer).unwrap(), &vec!["a".to_string(), "b".to_string()]);
    assert_eq!(m.value_of(Arg::Force), None);
    m.insert(Arg::Peer, vec!["c".to_string()]);
    assert_eq!(m.value_of(Arg::Peer).unwrap(), "c");
}
