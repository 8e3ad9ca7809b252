use hab_sup::args::{Arg, ArgMatches};
use hab_sup::domain::{Domain, Platform};
use hab_sup::settings::Surroundings;
use hab_sup::svc_load::{
    config_warning_lines, load_todo, update_svc_load_from_input, LoadReply, LoadRun, LoadStep,
    SvcLoad,
};

struct Plain;

impl Domain for Plain {
    type Error = String;
    type GossipAddr = String;
    type HttpAddr = String;
    type SocketAddr = String;
    type ServiceGroup = String;
    type Ident = String;
    type AppEnv = String;
    type Bind = String;
    type Topology = String;
    type Strategy = String;
}

fn around() -> Surroundings {
    Surroundings {
        bldr_url_from_env: Some("https://env.example".to_string()),
        default_bldr_url: "https://bldr.habitat.sh".to_string(),
        default_channel: "stable".to_string(),
    }
}

fn one(value: &str) -> Vec<String> {
    vec![value.to_string()]
}

fn fill<F>(m: &ArgMatches, platform: Platform, mut perform: F) -> Result<SvcLoad<Plain>, String>
where
    F: FnMut(&LoadStep) -> LoadReply<Plain>,
{
    let mut run: LoadRun<Plain> =
        update_svc_load_from_input(m, &around(), platform, SvcLoad::new());
    while let Some(step) = run.next_step() {
        let reply = perform(step);
        run = run.answer(reply)?;
    }
    Ok(run.into_request())
}

fn all_well(step: &LoadStep) -> LoadReply<Plain> {
    match step {
        LoadStep::NewAppEnv(app, env) => LoadReply::AppEnv(format!("{}.{}", app, env)),
        LoadStep::ParseBind(s) => LoadReply::Bind(format!("bind {}", s)),
        LoadStep::PrintConfigWarning => LoadReply::Printed,
        LoadStep::EncryptPassword(s) => LoadReply::Encrypted(format!("secret {}", s)),
        LoadStep::ParseTopology(s) => LoadReply::Topology(Some(s.clone())),
        LoadStep::ParseStrategy(s) => LoadReply::Strategy(Some(s.clone())),
    }
}

#[test]
fn an_empty_command_line_sets_what_is_always_set() {
    let msg = fill(&ArgMatches::new(), Platform::Unix, all_well).ok().unwrap();
    assert_eq!(msg.ident, None);
    assert_eq!(msg.bldr_url, "https://env.example");
    assert_eq!(msg.bldr_channel, "stable");
    assert_eq!(msg.application_environment, None);
    assert!(msg.binds.is_empty());
    assert_eq!(msg.specified_binds, false);
    assert_eq!(msg.config_from, None);
    assert_eq!(msg.force, false);
    assert_eq!(msg.group, None);
    assert_eq!(msg.svc_encrypted_password, None);
    assert_eq!(msg.topology, None);
    assert_eq!(msg.update_strategy, None);
}

#[test]
fn a_full_command_line_sets_every_field() {
    let mut m = ArgMatches::new();
    m.insert(Arg::BldrUrl, one("https://example.com"));
    m.insert(Arg::Channel, one("unstable"));
    m.insert(Arg::Application, one("app"));
    m.insert(Arg::Environment, one("prod"));
    m.insert(Arg::Bind, vec!["a:b.c".to_string(), "d:e.f".to_string()]);
    m.insert(Arg::ConfigDir, one("/cfg"));
    m.insert(Arg::Force, vec![]);
    m.insert(Arg::Group, one("grp"));
    m.insert(Arg::Password, one("pw"));
    m.insert(Arg::Topology, one("leader"));
    m.insert(Arg::Strategy, one("rolling"));
    let msg = fill(&m, Platform::Windows, all_well).ok().unwrap();
    assert_eq!(msg.bldr_url, "https://example.com");
    assert_eq!(msg.bldr_channel, "unstable");
    assert_eq!(msg.application_environment.unwrap(), "app.prod");
    assert_eq!(msg.binds, vec!["bind a:b.c", "bind d:e.f"]);
    assert_eq!(msg.specified_binds, true);
    assert_eq!(msg.config_from.unwrap(), "/cfg");
    assert_eq!(msg.force, true);
    assert_eq!(msg.group.unwrap(), "grp");
    assert_eq!(msg.svc_encrypted_password.unwrap(), "secret pw");
    assert_eq!(msg.topology.unwrap(), "leader");
    assert_eq!(msg.update_strategy.unwrap(), "rolling");
}

#[test]
fn a_password_is_left_alone_on_unix() {
    let mut m = ArgMatches::new();
    m.insert(Arg::Password, one("pw"));
    assert!(load_todo(&m, Platform::Unix).is_empty());
    assert_eq!(load_todo(&m, Platform::Windows).len(), 1);
}

#[test]
fn an_application_alone_is_not_enough() {
    let mut m = ArgMatches::new();
    m.insert(Arg::Application, one("app"));
    let msg = fill(&m, Platform::Unix, all_well).ok().unwrap();
    assert_eq!(msg.application_environment, None);
}

#[test]
fn the_first_bad_bind_ends_it() {
    let mut m = ArgMatches::new();
    m.insert(Arg::Bind, vec!["ok".to_string(), "bad".to_string(), "worse".to_string()]);
    let result = fill(&m, Platform::Unix, |step| match step {
        LoadStep::ParseBind(s) if s != "ok" => LoadReply::Failed(format!("{}!", s)),
        other => all_well(other),
    });
    assert_eq!(result.err().unwrap(), "bad!");
}

#[test]
fn a_bad_application_environment_comes_before_a_bad_bind() {
    let mut m = ArgMatches::new();
    m.insert(Arg::Application, one("a"));
    m.insert(Arg::Environment, one("b"));
    m.insert(Arg::Bind, one("bad"));
    let result = fill(&m, Platform::Unix, |step| match step {
        LoadStep::NewAppEnv(_, _) => LoadReply::Failed("app env".to_string()),
        LoadStep::ParseBind(_) => LoadReply::Failed("bind".to_string()),
        other => all_well(other),
    });
    assert_eq!(result.err().unwrap(), "app env");
}

#[test]
fn a_password_that_cannot_be_encrypted_ends_it() {
    let mut m = ArgMatches::new();
    m.insert(Arg::Password, one("pw"));
    let result = fill(&m, Platform::Windows, |_| LoadReply::Failed("no".to_string()));
    assert_eq!(result.err().unwrap(), "no");
}

#[test]
fn an_unknown_topology_or_strategy_is_dropped() {
    let mut m = ArgMatches::new();
    m.insert(Arg::Topology, one("ring"));
    m.insert(Arg::Strategy, one("never"));
    let msg = fill(&m, Platform::Unix, |step| match step {
        LoadStep::ParseTopology(_) => LoadReply::Topology(None),
        LoadStep::ParseStrategy(_) => LoadReply::Strategy(None),
        other => all_well(other),
    })
    .ok()
    .unwrap();
    assert_eq!(msg.topology, None);
    assert_eq!(msg.update_strategy, None);
}

#[test]
fn fields_that_nothing_speaks_of_stay() {
    let mut msg: SvcLoad<Plain> = SvcLoad::new();
    msg.ident = Some("core/redis".to_string());
    msg.group = Some("kept".to_string());
    msg.config_from = Some("dir".to_string());
    msg.binds = vec!["old".to_string()];
    let run = update_svc_load_from_input(&ArgMatches::new(), &around(), Platform::Unix, msg);
    assert!(run.next_step().is_none());
    let msg = run.into_request();
    assert_eq!(msg.ident.unwrap(), "core/redis");
    assert_eq!(msg.group.unwrap(), "kept");
    assert_eq!(msg.config_from.unwrap(), "dir");
    assert!(msg.binds.is_empty());
}

#[test]
fn the_config_warning_is_exact() {
    assert_eq!(
        config_warning_lines(),
        [
            "",
            "WARNING: Setting '--config-from' should only be used in development, not production!",
            "",
        ]
    );
}
