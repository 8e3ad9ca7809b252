use hab_sup::args::{Arg, ArgMatches};
use hab_sup::control::{
    ctl_secret_key, sub_config, sub_load, sub_start, sub_status, sub_stop, sub_unload, Call,
    CtlError, CtlRun, CtlStep, CtlStepReply, Request,
};
use hab_sup::domain::Domain;
use hab_sup::svc_load::SvcLoad;

struct Plain;

impl Domain for Plain {
    type Error = String;
    type GossipAddr = String;
    type HttpAddr = String;
    type SocketAddr = String;
    type ServiceGroup = String;
    type Ident = String;
    type AppEnv = String;
    type Bind = String;
    type Topology = String;
    type Strategy = String;
}

fn redis() -> ArgMatches {
    let mut m = ArgMatches::new();
    m.insert(Arg::PkgIdent, vec!["core/redis".to_string()]);
    m
}

fn all_well(step: &CtlStep) -> CtlStepReply<Plain> {
    match step {
        CtlStep::ParseIdent(s) => CtlStepReply::Ident(format!("ident {}", s)),
        CtlStep::BuildConfig => CtlStepReply::Config("10.0.0.9:9632".to_string()),
        CtlStep::FillLoad => {
            let mut msg = SvcLoad::new();
            msg.bldr_url = "url".to_string();
            CtlStepReply::Load(msg)
        }
        CtlStep::ReadSecretKey => {
            CtlStepReply::SecretKey { found: true, key: "key".to_string() }
        }
        _ => CtlStepReply::Done,
    }
}

/// Takes a command up to its call.
fn call<F>(
    mut run: CtlRun<Plain>,
    mut perform: F,
) -> (Result<Call<Plain>, CtlError<String>>, Vec<String>)
where
    F: FnMut(&CtlStep) -> CtlStepReply<Plain>,
{
    let mut taken: Vec<String> = Vec::new();
    loop {
        let step = run.next_step().unwrap();
        taken.push(format!("{:?}", step));
        if matches!(step, CtlStep::Call) {
            return (Ok(run.into_call()), taken);
        }
        let reply = perform(step);
        match run.answer(reply) {
            Ok(next) => run = next,
            Err(e) => return (Err(e), taken),
        }
    }
}

#[test]
fn config_asks_for_the_default_configuration() {
    let (result, taken) = call(sub_config(&redis()), all_well);
    let call = result.ok().unwrap();
    assert!(matches!(call.request, Request::SvcGetDefaultCfg(Some(i)) if i == "ident core/redis"));
    assert_eq!(call.secret_key, "key");
    assert_eq!(call.address, "10.0.0.9:9632");
    assert_eq!(
        taken,
        vec!["ParseIdent(\"core/redis\")", "BuildConfig", "ReadSecretKey", "Call"]
    );
}

#[test]
fn unload_start_and_stop_ask_for_what_they_say() {
    let (result, _) = call(sub_unload(&redis()), all_well);
    assert!(matches!(result.ok().unwrap().request, Request::SvcUnload(Some(i)) if i == "ident core/redis"));
    let (result, _) = call(sub_start(&redis()), all_well);
    assert!(matches!(result.ok().unwrap().request, Request::SvcStart(Some(i)) if i == "ident core/redis"));
    let (result, _) = call(sub_stop(&redis()), all_well);
    assert!(matches!(result.ok().unwrap().request, Request::SvcStop(Some(i)) if i == "ident core/redis"));
}

#[test]
fn load_fills_in_its_request_before_the_package() {
    let (result, taken) = call(sub_load(&redis()), all_well);
    match result.ok().unwrap().request {
        Request::SvcLoad(msg) => {
            assert_eq!(msg.bldr_url, "url");
            assert_eq!(msg.ident.unwrap(), "ident core/redis");
        }
        _ => panic!(),
    }
    assert_eq!(
        taken,
        vec!["BuildConfig", "FillLoad", "ParseIdent(\"core/redis\")", "ReadSecretKey", "Call"]
    );
}

#[test]
fn status_needs_no_package() {
    let (result, taken) = call(sub_status(&ArgMatches::new()), all_well);
    assert!(matches!(result.ok().unwrap().request, Request::SvcStatus(None)));
    assert_eq!(taken, vec!["BuildConfig", "ReadSecretKey", "Call"]);
    let (result, _) = call(sub_status(&redis()), all_well);
    assert!(matches!(result.ok().unwrap().request, Request::SvcStatus(Some(_))));
}

#[test]
fn output_is_set_up_first() {
    let mut m = redis();
    m.insert(Arg::NoColor, vec![]);
    m.insert(Arg::Verbose, vec![]);
    let (_, taken) = call(sub_stop(&m), all_well);
    assert_eq!(&taken[..2], ["SetVerbose", "SetNoColor"]);
}

#[test]
fn a_bad_package_ends_a_command_before_its_configuration() {
    let (result, taken) = call(sub_start(&redis()), |step| match step {
        CtlStep::ParseIdent(_) => CtlStepReply::Failed("ident".to_string()),
        CtlStep::BuildConfig => CtlStepReply::Failed("config".to_string()),
        other => all_well(other),
    });
    assert!(matches!(result, Err(CtlError::Step(e)) if e == "ident"));
    assert_eq!(taken.len(), 1);
}

#[test]
fn a_bad_configuration_ends_load_before_its_package() {
    let (result, _) = call(sub_load(&redis()), |step| match step {
        CtlStep::ParseIdent(_) => CtlStepReply::Failed("ident".to_string()),
        CtlStep::BuildConfig => CtlStepReply::Failed("config".to_string()),
        other => all_well(other),
    });
    assert!(matches!(result, Err(CtlError::Step(e)) if e == "config"));
}

#[test]
fn without_a_key_nothing_is_called() {
    let (result, taken) = call(sub_stop(&redis()), |step| match step {
        CtlStep::ReadSecretKey => CtlStepReply::SecretKey { found: false, key: String::new() },
        other => all_well(other),
    });
    assert!(matches!(result, Err(CtlError::CtlSecretNotFound)));
    assert_eq!(taken.last().unwrap(), "ReadSecretKey");
}

#[test]
fn the_secret_key_is_what_was_read() {
    assert!(matches!(ctl_secret_key::<String>(Ok(true), "k".to_string()), Ok(k) if k == "k"));
    assert!(matches!(
        ctl_secret_key::<String>(Ok(false), "k".to_string()),
        Err(CtlError::CtlSecretNotFound)
    ));
    assert!(matches!(
        ctl_secret_key(Err("io".to_string()), String::new()),
        Err(CtlError::Step(e)) if e == "io"
    ));
}
