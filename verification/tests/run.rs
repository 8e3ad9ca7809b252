use hab_sup::args::{Arg, ArgMatches};
use hab_sup::boot::ExitStatus;
use hab_sup::domain::Domain;
use hab_sup::run::{sub_run, Launch, LaunchProgress, RunReply, RunStep};
use hab_sup::svc_load::SvcLoad;

struct Plain;

impl Domain for Plain {
    type Error = String;
    type GossipAddr = String;
    type HttpAddr = String;
    type SocketAddr = String;
    type ServiceGroup = String;
    type Ident = String;
    type AppEnv = String;
    type Bind = String;
    type Topology = String;
    type Strategy = String;
}

enum End {
    Runs(Option<SvcLoad<Plain>>),
    Failed(String),
    Exits(ExitStatus),
}

fn named(pkg: &str) -> ArgMatches {
    let mut m = ArgMatches::new();
    m.insert(Arg::PkgIdentOrArtifact, vec![pkg.to_string()]);
    m
}

fn all_well(step: &RunStep) -> RunReply<Plain> {
    match step {
        RunStep::CheckRunning => RunReply::Running(false),
        RunStep::FillLoad => {
            let mut msg = SvcLoad::new();
            msg.bldr_url = "url".to_string();
            msg.bldr_channel = "stable".to_string();
            RunReply::Load(msg)
        }
        RunStep::ParseSource(s) => {
            if s.ends_with(".hart") {
                RunReply::Archive
            } else {
                RunReply::Ident(s.clone())
            }
        }
        RunStep::InstallArchive { source, bldr_url, channel } => {
            RunReply::Ident(format!("{} {} {}", source, bldr_url, channel))
        }
        _ => RunReply::Done,
    }
}

fn launch<F>(m: &ArgMatches, mut perform: F) -> (End, Vec<String>)
where
    F: FnMut(&RunStep) -> RunReply<Plain>,
{
    let mut up: Launch<Plain> = sub_run(m);
    let mut taken: Vec<String> = Vec::new();
    loop {
        let step = up.next_step().unwrap();
        taken.push(format!("{:?}", step));
        if matches!(step, RunStep::RunManager) {
            return (End::Runs(up.into_service()), taken);
        }
        let reply = perform(step);
        match up.answer(reply) {
            LaunchProgress::Going(next) => up = next,
            LaunchProgress::Failed(e) => return (End::Failed(e), taken),
            LaunchProgress::Exit(status) => return (End::Exits(status), taken),
        }
    }
}

#[test]
fn a_supervisor_runs_without_a_service() {
    let (end, taken) = launch(&ArgMatches::new(), all_well);
    assert!(matches!(end, End::Runs(None)));
    assert_eq!(taken, vec!["BuildConfig", "CheckRunning", "LoadManager", "RunManager"]);
}

#[test]
fn a_supervisor_runs_with_a_named_package() {
    let (end, _) = launch(&named("core/redis"), all_well);
    match end {
        End::Runs(Some(msg)) => {
            assert_eq!(msg.ident.unwrap(), "core/redis");
            assert_eq!(msg.bldr_url, "url");
        }
        _ => panic!(),
    }
}

#[test]
fn an_artifact_is_installed_and_fixes_the_package() {
    let (end, taken) = launch(&named("/tmp/x.hart"), all_well);
    match end {
        End::Runs(Some(msg)) => assert_eq!(msg.ident.unwrap(), "/tmp/x.hart url stable"),
        _ => panic!(),
    }
    assert_eq!(
        taken,
        vec![
            "BuildConfig",
            "CheckRunning",
            "LoadManager",
            "FillLoad",
            "ParseSource(\"/tmp/x.hart\")",
            "InstallArchive { source: \"/tmp/x.hart\", bldr_url: \"url\", channel: \"stable\" }",
            "RunManager",
        ]
    );
}

#[test]
fn a_supervisor_talks_as_it_is_told() {
    let mut m = ArgMatches::new();
    m.insert(Arg::NoColor, vec![]);
    let (_, taken) = launch(&m, all_well);
    assert_eq!(&taken[..2], ["SetNoColor", "BuildConfig"]);
    m.insert(Arg::Verbose, vec![]);
    let (end, taken) = launch(&m, all_well);
    assert!(matches!(end, End::Runs(None)));
    assert_eq!(
        taken,
        vec![
            "SetVerbose",
            "SetNoColor",
            "BuildConfig",
            "CheckRunning",
            "LoadManager",
            "RunManager",
        ]
    );
}

#[test]
fn a_second_supervisor_exits_at_once() {
    let (end, taken) = launch(&named("core/redis"), |step| match step {
        RunStep::CheckRunning => RunReply::Running(true),
        other => all_well(other),
    });
    assert!(matches!(end, End::Exits(ExitStatus::OkNoRetry)));
    assert_eq!(taken, vec!["BuildConfig", "CheckRunning"]);
}

#[test]
fn an_error_ends_it() {
    let (end, taken) = launch(&named("core/redis"), |step| match step {
        RunStep::LoadManager => RunReply::Failed("locked".to_string()),
        other => all_well(other),
    });
    assert!(matches!(end, End::Failed(e) if e == "locked"));
    assert_eq!(taken.len(), 3);
}
