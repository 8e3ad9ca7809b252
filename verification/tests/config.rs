use hab_sup::args::{Arg, ArgMatches};
use hab_sup::config::{
    caution_lines, config_todo, mgrcfg_from_matches, peer_address, ConfigProgress, ConfigReply,
    ConfigRun, ConfigStep, ManagerConfig, RingVar,
};
use hab_sup::domain::Domain;
use hab_sup::settings::Surroundings;

struct Plain;

impl Domain for Plain {
    type Error = String;
    type GossipAddr = String;
    type HttpAddr = String;
    type SocketAddr = String;
    type ServiceGroup = String;
    type Ident = String;
    type AppEnv = String;
    type Bind = String;
    type Topology = String;
    type Strategy = String;
}

fn around() -> Surroundings {
    Surroundings {
        bldr_url_from_env: None,
        default_bldr_url: "https://bldr.habitat.sh".to_string(),
        default_channel: "stable".to_string(),
    }
}

fn one(value: &str) -> Vec<String> {
    vec![value.to_string()]
}

/// Takes a configuration to its end, with a note of each step.
fn settle<F>(
    m: &ArgMatches,
    mut perform: F,
) -> (Result<ManagerConfig<Plain>, (String, Option<String>)>, Vec<String>)
where
    F: FnMut(&ConfigStep) -> ConfigReply<Plain>,
{
    let mut run: ConfigRun<Plain> = mgrcfg_from_matches(m, &around(), 9638);
    let mut taken: Vec<String> = Vec::new();
    while let Some(step) = run.next_step() {
        taken.push(format!("{:?}", step));
        let reply = perform(step);
        match run.answer(reply) {
            ConfigProgress::Going(next) => run = next,
            ConfigProgress::Failed { error, report } => return (Err((error, report)), taken),
        }
    }
    (Ok(run.into_config()), taken)
}

/// Every step works.
fn all_well(step: &ConfigStep) -> ConfigReply<Plain> {
    match step {
        ConfigStep::ParseGossipListen(s) => ConfigReply::GossipAddr(format!("gossip {}", s)),
        ConfigStep::ParseHttpListen(s) => ConfigReply::HttpAddr(format!("http {}", s)),
        ConfigStep::ParseCtlListen(s) => {
            ConfigReply::CtlAddr(Some(format!("ctl {}", s)), "fallback".to_string())
        }
        ConfigStep::PrintCaution => ConfigReply::Printed,
        ConfigStep::ResolvePeer(s) => {
            ConfigReply::PeerAddrs(vec![format!("first {}", s), format!("second {}", s)])
        }
        ConfigStep::ReadVar(_) => ConfigReply::Var(None),
        ConfigStep::LatestRingKey(s) => ConfigReply::RingKey(format!("latest {}", s)),
        ConfigStep::StoreRingKey(s) => ConfigReply::RingKey(format!("stored {}", s)),
        ConfigStep::ParseEventsGroup(s) => ConfigReply::Group(Some(format!("group {}", s))),
    }
}

#[test]
fn an_empty_command_line_keeps_the_defaults() {
    let (result, taken) = settle(&ArgMatches::new(), all_well);
    let config = result.ok().unwrap();
    assert_eq!(config.auto_update, false);
    assert_eq!(config.update_url, "https://bldr.habitat.sh");
    assert_eq!(config.update_channel, "stable");
    assert_eq!(config.gossip_listen, None);
    assert_eq!(config.http_listen, None);
    assert_eq!(config.ctl_listen, None);
    assert_eq!(config.name, None);
    assert_eq!(config.organization, None);
    assert_eq!(config.gossip_permanent, false);
    assert!(config.gossip_peers.is_empty());
    assert_eq!(config.watch_peer_file, None);
    assert_eq!(config.ring, None);
    assert_eq!(config.eventsrv_group, None);
    assert_eq!(taken, vec!["ReadVar(Key)", "ReadVar(Name)"]);
}

#[test]
fn a_full_command_line_settles_every_setting() {
    let mut m = ArgMatches::new();
    m.insert(Arg::AutoUpdate, vec![]);
    m.insert(Arg::BldrUrl, one("https://example.com"));
    m.insert(Arg::Channel, one("unstable"));
    m.insert(Arg::ListenGossip, one("1.2.3.4:1"));
    m.insert(Arg::ListenHttp, one("1.2.3.4:2"));
    m.insert(Arg::ListenCtl, one("1.2.3.4:3"));
    m.insert(Arg::Name, one("mine"));
    m.insert(Arg::Organization, one("org"));
    m.insert(Arg::PermanentPeer, vec![]);
    m.insert(Arg::Peer, vec!["10.0.0.1".to_string(), "10.0.0.2:5".to_string()]);
    m.insert(Arg::PeerWatchFile, one("/peers"));
    m.insert(Arg::Ring, one("beast"));
    m.insert(Arg::Events, one("events.default"));
    let (result, taken) = settle(&m, all_well);
    let config = result.ok().unwrap();
    assert_eq!(config.auto_update, true);
    assert_eq!(config.update_url, "https://example.com");
    assert_eq!(config.update_channel, "unstable");
    assert_eq!(config.gossip_listen.unwrap(), "gossip 1.2.3.4:1");
    assert_eq!(config.http_listen.unwrap(), "http 1.2.3.4:2");
    assert_eq!(config.ctl_listen.unwrap(), "ctl 1.2.3.4:3");
    assert_eq!(config.name.unwrap(), "mine");
    assert_eq!(config.organization.unwrap(), "org");
    assert_eq!(config.gossip_permanent, true);
    assert_eq!(config.gossip_peers, vec!["first 10.0.0.1:9638", "first 10.0.0.2:5"]);
    assert_eq!(config.watch_peer_file.unwrap(), "/peers");
    assert_eq!(config.ring.unwrap(), "latest beast");
    assert_eq!(config.eventsrv_group, Some(Some("group events.default".to_string())));
    assert_eq!(
        taken,
        vec![
            "ParseGossipListen(\"1.2.3.4:1\")",
            "ParseHttpListen(\"1.2.3.4:2\")",
            "ParseCtlListen(\"1.2.3.4:3\")",
            "PrintCaution",
            "ResolvePeer(\"10.0.0.1:9638\")",
            "ResolvePeer(\"10.0.0.2:5\")",
            "LatestRingKey(\"beast\")",
            "ParseEventsGroup(\"events.default\")",
        ]
    );
}

#[test]
fn a_ring_key_in_the_environment_is_stored() {
    let (result, taken) = settle(&ArgMatches::new(), |step| match step {
        ConfigStep::ReadVar(RingVar::Key) => ConfigReply::Var(Some("SYM-SEC-1".to_string())),
        ConfigStep::ReadVar(RingVar::Name) => ConfigReply::Var(Some("unused".to_string())),
        other => all_well(other),
    });
    assert_eq!(result.ok().unwrap().ring.unwrap(), "stored SYM-SEC-1");
    assert_eq!(taken, vec!["ReadVar(Key)", "StoreRingKey(\"SYM-SEC-1\")"]);
}

#[test]
fn a_ring_name_in_the_environment_comes_last() {
    let (result, taken) = settle(&ArgMatches::new(), |step| match step {
        ConfigStep::ReadVar(RingVar::Name) => ConfigReply::Var(Some("beast".to_string())),
        other => all_well(other),
    });
    assert_eq!(result.ok().unwrap().ring.unwrap(), "latest beast");
    assert_eq!(taken, vec!["ReadVar(Key)", "ReadVar(Name)", "LatestRingKey(\"beast\")"]);
}

#[test]
fn a_ring_on_the_command_line_keeps_the_environment_out() {
    let mut m = ArgMatches::new();
    m.insert(Arg::Ring, one("beast"));
    let (_, taken) = settle(&m, all_well);
    assert_eq!(taken, vec!["LatestRingKey(\"beast\")"]);
}

#[test]
fn a_bad_control_address_falls_back() {
    let mut m = ArgMatches::new();
    m.insert(Arg::ListenCtl, one("nonsense"));
    let (result, _) = settle(&m, |step| match step {
        ConfigStep::ParseCtlListen(_) => ConfigReply::CtlAddr(None, "0.0.0.0:9632".to_string()),
        other => all_well(other),
    });
    assert_eq!(result.ok().unwrap().ctl_listen.unwrap(), "0.0.0.0:9632");
}

#[test]
fn a_bad_gossip_address_ends_it_at_once() {
    let mut m = ArgMatches::new();
    m.insert(Arg::ListenGossip, one("nonsense"));
    m.insert(Arg::Peer, one("10.0.0.1"));
    let (result, taken) = settle(&m, |step| match step {
        ConfigStep::ParseGossipListen(_) => ConfigReply::Failed("bad address".to_string()),
        other => all_well(other),
    });
    assert_eq!(result.err().unwrap(), ("bad address".to_string(), None));
    assert_eq!(taken.len(), 1);
}

#[test]
fn a_peer_that_does_not_resolve_is_reported() {
    let mut m = ArgMatches::new();
    m.insert(Arg::Peer, vec!["good".to_string(), "bad".to_string(), "late".to_string()]);
    let (result, taken) = settle(&m, |step| match step {
        ConfigStep::ResolvePeer(s) if s.starts_with("bad") => {
            ConfigReply::Failed("lookup".to_string())
        }
        other => all_well(other),
    });
    assert_eq!(
        result.err().unwrap(),
        ("lookup".to_string(), Some("Failed to resolve peer: bad:9638".to_string()))
    );
    assert_eq!(taken.len(), 2);
}

#[test]
fn a_bad_events_group_is_dropped() {
    let mut m = ArgMatches::new();
    m.insert(Arg::Events, one("nonsense"));
    let (result, _) = settle(&m, |step| match step {
        ConfigStep::ParseEventsGroup(_) => ConfigReply::Group(None),
        other => all_well(other),
    });
    assert_eq!(result.ok().unwrap().eventsrv_group, Some(None));
}

#[test]
fn peers_get_the_default_port_where_they_have_none() {
    assert_eq!(peer_address("example.com", 9638), "example.com:9638");
    assert_eq!(peer_address("example.com:1", 9638), "example.com:1");
    assert_eq!(peer_address("::1", 9638), "::1");
    assert_eq!(peer_address("", 0), ":0");
}

#[test]
fn the_plan_of_an_empty_command_line_looks_for_a_ring() {
    let todo = config_todo(&ArgMatches::new(), 1);
    assert_eq!(todo.len(), 1);
    assert!(matches!(todo[0], ConfigStep::ReadVar(RingVar::Key)));
}

#[test]
fn the_ring_variables_have_their_names() {
    assert_eq!(RingVar::Key.name(), "HAB_RING_KEY");
    assert_eq!(RingVar::Name.name(), "HAB_RING");
}

#[test]
fn the_caution_has_seven_lines() {
    let lines = caution_lines();
    assert_eq!(lines.len(), 7);
    assert_eq!(lines[0], "");
    assert_eq!(
        lines[1],
        "CAUTION: Running more than one Habitat Supervisor is not recommended for most"
    );
    assert_eq!(lines[5], "CAUTION: If you know what you're doing, carry on!");
}
