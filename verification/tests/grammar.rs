use clap::{App, AppSettings, ErrorKind, SubCommand};
use hab_sup::args::Arg;
use hab_sup::cli::{cli, ArgSpec, Validator};
use hab_sup::domain::Platform;
use hab_sup::validate::valid_url;

fn arg(spec: &ArgSpec) -> clap::Arg<'static, 'static> {
    let mut a = clap::Arg::with_name(spec.arg.name())
        .help(spec.help)
        .takes_value(spec.takes_value)
        .required(spec.required)
        .multiple(spec.multiple)
        .global(spec.global);
    if let Some(short) = spec.short {
        a = a.short(short);
    }
    if let Some(long) = spec.long {
        a = a.long(long);
    }
    if let Some(needed) = spec.needs {
        a = a.requires(needed.name());
    }
    if let Some(other) = spec.conflicts_with {
        a = a.conflicts_with(other);
    }
    if spec.validator == Some(Validator::Url) {
        a = a.validator(|value| valid_url(&value));
    }
    a
}

fn app(platform: Platform) -> App<'static, 'static> {
    let spec = cli(platform);
    let mut app = App::new(spec.name)
        .about(spec.about)
        .author(spec.author)
        .setting(AppSettings::VersionlessSubcommands)
        .setting(AppSettings::SubcommandRequiredElseHelp);
    for a in &spec.args {
        app = app.arg(arg(a));
    }
    for c in &spec.commands {
        let mut sub = SubCommand::with_name(c.command.name()).about(c.about).aliases(&c.aliases);
        for a in &c.args {
            sub = sub.arg(arg(a));
        }
        app = app.subcommand(sub);
    }
    app
}

fn parse(words: &[&str]) -> clap::Result<clap::ArgMatches<'static>> {
    app(Platform::Unix).get_matches_from_safe(words)
}

#[test]
fn a_load_command_line_is_understood() {
    let m = parse(&[
        "hab-sup", "lo", "core/redis", "-v", "-a", "app", "-e", "prod", "--bind", "a:b.c", "d:e.f",
        "--force", "-u", "https://example.com",
    ])
    .unwrap();
    let (name, sub) = m.subcommand();
    let sub = sub.unwrap();
    assert_eq!(name, "load");
    assert_eq!(sub.value_of(Arg::PkgIdent.name()), Some("core/redis"));
    assert_eq!(sub.value_of(Arg::Application.name()), Some("app"));
    assert_eq!(sub.value_of(Arg::Environment.name()), Some("prod"));
    assert_eq!(sub.values_of(Arg::Bind.name()).unwrap().collect::<Vec<_>>(), ["a:b.c", "d:e.f"]);
    assert!(sub.is_present(Arg::Force.name()));
    assert!(sub.is_present(Arg::Verbose.name()));
    assert!(!sub.is_present(Arg::NoColor.name()));
    assert_eq!(sub.value_of(Arg::BldrUrl.name()), Some("https://example.com"));
}

#[test]
fn a_run_command_line_is_understood() {
    let m = parse(&[
        "hab-sup", "run", "--peer", "10.0.0.1", "--peer", "10.0.0.2:1", "--peer-watch-file", "/p",
        "-I", "-A", "-r", "beast", "--override-name", "mine", "--org", "o", "-n", "g.default",
        "--listen-ctl", "1.2.3.4:5", "core/redis",
    ])
    .unwrap();
    let sub = m.subcommand_matches("run").unwrap();
    assert_eq!(sub.values_of("PEER").unwrap().collect::<Vec<_>>(), ["10.0.0.1", "10.0.0.2:1"]);
    assert_eq!(sub.value_of("PEER_WATCH_FILE"), Some("/p"));
    assert!(sub.is_present("PERMANENT_PEER") && sub.is_present("AUTO_UPDATE"));
    assert_eq!(sub.value_of("RING"), Some("beast"));
    assert_eq!(sub.value_of("NAME"), Some("mine"));
    assert_eq!(sub.value_of("ORGANIZATION"), Some("o"));
    assert_eq!(sub.value_of("EVENTS"), Some("g.default"));
    assert_eq!(sub.value_of("LISTEN_CTL"), Some("1.2.3.4:5"));
    assert_eq!(sub.value_of("PKG_IDENT_OR_ARTIFACT"), Some("core/redis"));
}

#[test]
fn an_application_needs_an_environment() {
    let err = parse(&["hab-sup", "load", "core/redis", "-a", "app"]).unwrap_err();
    assert_eq!(err.kind, ErrorKind::MissingRequiredArgument);
    let err = parse(&["hab-sup", "run", "-e", "prod"]).unwrap_err();
    assert_eq!(err.kind, ErrorKind::MissingRequiredArgument);
}

#[test]
fn most_commands_need_a_package() {
    for command in ["config", "load", "start", "stop", "unload"] {
        let err = parse(&["hab-sup", command]).unwrap_err();
        assert_eq!(err.kind, ErrorKind::MissingRequiredArgument);
    }
    for command in ["bash", "run", "sh", "status", "term"] {
        assert_eq!(parse(&["hab-sup", command]).unwrap().subcommand_name(), Some(command));
    }
}

#[test]
fn an_alias_stands_for_its_command() {
    for c in &cli(Platform::Unix).commands {
        let name = c.command.name();
        for alias in &c.aliases {
            for rest in [&["core/redis"][..], &["core/redis", "-v"][..], &["--nonsense"][..]] {
                let short = parse(&[&["hab-sup", *alias][..], rest].concat());
                let long = parse(&[&["hab-sup", name][..], rest].concat());
                match (short, long) {
                    (Ok(short), Ok(long)) => {
                        assert_eq!(short.subcommand_name(), Some(name));
                        assert_eq!(long.subcommand_name(), Some(name));
                        let short = short.subcommand_matches(name).unwrap();
                        let long = long.subcommand_matches(name).unwrap();
                        assert_eq!(short.is_present("VERBOSE"), long.is_present("VERBOSE"));
                        assert_eq!(short.value_of("PKG_IDENT"), long.value_of("PKG_IDENT"));
                    }
                    (Err(short), Err(long)) => assert_eq!(short.kind, long.kind),
                    _ => panic!(),
                }
            }
        }
    }
}

#[test]
fn a_value_that_fails_its_check_is_refused() {
    for command in ["load", "run"] {
        let err = parse(&["hab-sup", command, "core/redis", "-u", "bldr"]).unwrap_err();
        assert_eq!(err.kind, ErrorKind::ValueValidation);
        assert!(parse(&["hab-sup", command, "core/redis", "-u", "https://x.org"]).is_ok());
    }
}

#[test]
fn an_option_is_given_once() {
    let twice = ["hab-sup", "load", "core/redis", "--channel", "a", "--channel", "b"];
    assert_eq!(parse(&twice).unwrap_err().kind, ErrorKind::UnexpectedMultipleUsage);
    let binds = ["hab-sup", "load", "core/redis", "--bind", "a:b.c", "--bind", "d:e.f"];
    assert!(parse(&binds).is_ok());
}

#[test]
fn a_command_is_needed() {
    let err = parse(&["hab-sup"]).unwrap_err();
    assert_eq!(err.kind, ErrorKind::MissingArgumentOrSubcommand);
}

#[test]
fn the_password_is_an_option_on_windows_alone() {
    let words = ["hab-sup", "load", "core/redis", "--password", "pw"];
    assert!(app(Platform::Windows).get_matches_from_safe(words).is_ok());
    assert!(app(Platform::Unix).get_matches_from_safe(words).is_err());
}
