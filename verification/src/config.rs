//! How the Supervisor's configuration follows from the command line.
//!
//! Some settings take work that only other components can do: parsing an address, resolving a
//! peer, reading a key. The configuration is therefore made step by step. `ConfigRun` holds what
//! is settled so far and the steps that are left; whoever drives it performs the first step and
//! hands in the reply.

use crate::args;
use crate::args::Arg;
use crate::args::ArgMatches;
use crate::domain::Domain;
use crate::settings;
use crate::settings::Surroundings;
use crate::text;
use vstd::prelude::*;
use vstd::string::*;

verus! {

/// The environment variables that name a ring.
#[derive(Clone, Copy, Debug, PartialEq, Eq, Structural)]
pub enum RingVar {
    /// Holds a ring key itself.
    Key,
    /// Holds the name of a ring.
    Name,
}

impl RingVar {
    pub open spec fn spec_name(self) -> &'static str {
        match self {
            RingVar::Key => "HAB_RING_KEY",
            RingVar::Name => "HAB_RING",
        }
    }

    /// The variable's name.
    pub fn name(self) -> (r: &'static str)
        ensures
            r == self.spec_name(),
    {
        match self {
            RingVar::Key => "HAB_RING_KEY",
            RingVar::Name => "HAB_RING",
        }
    }
}

/// The configuration that a Supervisor runs with, or that a command finds its Supervisor by.
/// A listen address that is `None` is left at its default, and so is the group for events.
pub struct ManagerConfig<D: Domain> {
    pub auto_update: bool,
    pub update_url: String,
    pub update_channel: String,
    pub gossip_listen: Option<D::GossipAddr>,
    pub http_listen: Option<D::HttpAddr>,
    pub ctl_listen: Option<D::SocketAddr>,
    pub name: Option<String>,
    pub organization: Option<String>,
    pub gossip_permanent: bool,
    pub gossip_peers: Vec<D::SocketAddr>,
    pub watch_peer_file: Option<String>,
    pub ring: Option<String>,
    /// Where a group for events was named, the group, or `None` where the name was not one.
    pub eventsrv_group: Option<Option<D::ServiceGroup>>,
}

/// What a `ManagerConfig` holds.
#[verifier::ext_equal]
pub struct ManagerConfigView<D: Domain> {
    pub auto_update: bool,
    pub update_url: Seq<char>,
    pub update_channel: Seq<char>,
    pub gossip_listen: Option<D::GossipAddr>,
    pub http_listen: Option<D::HttpAddr>,
    pub ctl_listen: Option<D::SocketAddr>,
    pub name: Option<Seq<char>>,
    pub organization: Option<Seq<char>>,
    pub gossip_permanent: bool,
    pub gossip_peers: Seq<D::SocketAddr>,
    pub watch_peer_file: Option<Seq<char>>,
    pub ring: Option<Seq<char>>,
    pub eventsrv_group: Option<Option<D::ServiceGroup>>,
}

impl<D: Domain> View for ManagerConfig<D> {
    type V = ManagerConfigView<D>;

    open spec fn view(&self) -> ManagerConfigView<D> {
        ManagerConfigView {
            auto_update: self.auto_update,
            update_url: self.update_url@,
            update_channel: self.update_channel@,
            gossip_listen: self.gossip_listen,
            http_listen: self.http_listen,
            ctl_listen: self.ctl_listen,
            name: text::opt_text(self.name),
            organization: text::opt_text(self.organization),
            gossip_permanent: self.gossip_permanent,
            gossip_peers: self.gossip_peers@,
            watch_peer_file: text::opt_text(self.watch_peer_file),
            ring: text::opt_text(self.ring),
            eventsrv_group: self.eventsrv_group,
        }
    }
}

/// Work that other components do for the configuration.
#[derive(Debug)]
pub enum ConfigStep {
    /// Parse the text as an address for the gossip system.
    ParseGossipListen(String),
    /// Parse the text as an address for the HTTP gateway.
    ParseHttpListen(String),
    /// Parse the text as an address for the control gateway.
    ParseCtlListen(String),
    /// Print the lines of `caution_lines`.
    PrintCaution,
    /// Look up the network addresses of a peer.
    ResolvePeer(String),
    /// Read an environment variable.
    ReadVar(RingVar),
    /// Find the latest key of the ring with this name.
    LatestRingKey(String),
    /// Put the ring key that the text holds into the key cache.
    StoreRingKey(String),
    /// Parse the text as a service group.
    ParseEventsGroup(String),
}

/// What a `ConfigStep` holds.
pub enum ConfigStepView {
    ParseGossipListen(Seq<char>),
    ParseHttpListen(Seq<char>),
    ParseCtlListen(Seq<char>),
    PrintCaution,
    ResolvePeer(Seq<char>),
    ReadVar(RingVar),
    LatestRingKey(Seq<char>),
    StoreRingKey(Seq<char>),
    ParseEventsGroup(Seq<char>),
}

impl View for ConfigStep {
    type V = ConfigStepView;

    open spec fn view(&self) -> ConfigStepView {
        match self {
            ConfigStep::ParseGossipListen(s) => ConfigStepView::ParseGossipListen(s@),
            ConfigStep::ParseHttpListen(s) => ConfigStepView::ParseHttpListen(s@),
            ConfigStep::ParseCtlListen(s) => ConfigStepView::ParseCtlListen(s@),
            ConfigStep::PrintCaution => ConfigStepView::PrintCaution,
            ConfigStep::ResolvePeer(s) => ConfigStepView::ResolvePeer(s@),
            ConfigStep::ReadVar(v) => ConfigStepView::ReadVar(*v),
            ConfigStep::LatestRingKey(s) => ConfigStepView::LatestRingKey(s@),
            ConfigStep::StoreRingKey(s) => ConfigStepView::StoreRingKey(s@),
            ConfigStep::ParseEventsGroup(s) => ConfigStepView::ParseEventsGroup(s@),
        }
    }
}

/// What came of a step.
pub enum ConfigReply<D: Domain> {
    /// The lines are printed.
    Printed,
    /// The gossip address.
    GossipAddr(D::GossipAddr),
    /// The HTTP gateway's address.
    HttpAddr(D::HttpAddr),
    /// The control gateway's address, if the text was one, and its default.
    CtlAddr(Option<D::SocketAddr>, D::SocketAddr),
    /// The addresses of a peer.
    PeerAddrs(Vec<D::SocketAddr>),
    /// What the environment variable holds, if it is set.
    Var(Option<String>),
    /// The name of the ring key, with its revision.
    RingKey(String),
    /// The service group, if the text was one.
    Group(Option<D::ServiceGroup>),
    /// The step failed.
    Failed(D::Error),
}

/// What a `ConfigReply` holds.
pub enum ConfigReplyView<D: Domain> {
    Printed,
    GossipAddr(D::GossipAddr),
    HttpAddr(D::HttpAddr),
    CtlAddr(Option<D::SocketAddr>, D::SocketAddr),
    PeerAddrs(Seq<D::SocketAddr>),
    Var(Option<Seq<char>>),
    RingKey(Seq<char>),
    Group(Option<D::ServiceGroup>),
    Failed(D::Error),
}

impl<D: Domain> View for ConfigReply<D> {
    type V = ConfigReplyView<D>;

    open spec fn view(&self) -> ConfigReplyView<D> {
        match self {
            ConfigReply::Printed => ConfigReplyView::Printed,
            ConfigReply::GossipAddr(a) => ConfigReplyView::GossipAddr(*a),
            ConfigReply::HttpAddr(a) => ConfigReplyView::HttpAddr(*a),
            ConfigReply::CtlAddr(a, b) => ConfigReplyView::CtlAddr(*a, *b),
            ConfigReply::PeerAddrs(list) => ConfigReplyView::PeerAddrs(list@),
            ConfigReply::Var(v) => ConfigReplyView::Var(text::opt_text(*v)),
            ConfigReply::RingKey(s) => ConfigReplyView::RingKey(s@),
            ConfigReply::Group(g) => ConfigReplyView::Group(*g),
            ConfigReply::Failed(e) => ConfigReplyView::Failed(*e),
        }
    }
}

/// Whether `reply` is one that `step` can have. A peer that resolves has at least one address.
pub open spec fn config_reply_fits<D: Domain>(
    step: ConfigStepView,
    reply: ConfigReplyView<D>,
) -> bool {
    match step {
        ConfigStepView::ParseGossipListen(_) => reply is GossipAddr || reply is Failed,
        ConfigStepView::ParseHttpListen(_) => reply is HttpAddr || reply is Failed,
        ConfigStepView::ParseCtlListen(_) => reply is CtlAddr,
        ConfigStepView::PrintCaution => reply is Printed,
        ConfigStepView::ResolvePeer(_) => reply is Failed || (reply matches
            ConfigReplyView::PeerAddrs(list) && list.len() > 0),
        ConfigStepView::ReadVar(_) => reply is Var,
        ConfigStepView::LatestRingKey(_) => reply is RingKey || reply is Failed,
        ConfigStepView::StoreRingKey(_) => reply is RingKey || reply is Failed,
        ConfigStepView::ParseEventsGroup(_) => reply is Group,
    }
}

/// A configuration in the making.
pub struct ConfigRun<D: Domain> {
    /// What is settled so far.
    config: ManagerConfig<D>,
    /// The steps that are left, the next one first.
    todo: Vec<ConfigStep>,
}

/// What a `ConfigRun` holds.
#[verifier::ext_equal]
pub struct ConfigRunView<D: Domain> {
    pub config: ManagerConfigView<D>,
    pub todo: Seq<ConfigStepView>,
}

/// What the steps of `list` hold.
pub open spec fn config_steps(list: Seq<ConfigStep>) -> Seq<ConfigStepView> {
    Seq::new(list.len(), |i: int| list[i]@)
}

impl<D: Domain> View for ConfigRun<D> {
    type V = ConfigRunView<D>;

    closed spec fn view(&self) -> ConfigRunView<D> {
        ConfigRunView { config: self.config@, todo: config_steps(self.todo@) }
    }
}

/// How a configuration stands after a reply.
pub enum ConfigProgress<D: Domain> {
    /// It goes on; it is complete when no step is left.
    Going(ConfigRun<D>),
    /// It is given up with `error`, after `report` is printed.
    Failed { error: D::Error, report: Option<String> },
}

/// What a `ConfigProgress` holds.
#[verifier::ext_equal]
pub enum ConfigProgressView<D: Domain> {
    Going(ConfigRunView<D>),
    Failed { error: D::Error, report: Option<Seq<char>> },
}

impl<D: Domain> View for ConfigProgress<D> {
    type V = ConfigProgressView<D>;

    open spec fn view(&self) -> ConfigProgressView<D> {
        match self {
            ConfigProgress::Going(run) => ConfigProgressView::Going(run@),
            ConfigProgress::Failed { error, report } => ConfigProgressView::Failed {
                error: *error,
                report: text::opt_text(*report),
            },
        }
    }
}

/// The address of a peer: the text itself where it holds a colon, and otherwise the text with
/// the default port of the gossip system.
pub open spec fn peer_addr(peer: Seq<char>, port: u16) -> Seq<char> {
    if peer.contains(':') {
        peer
    } else {
        peer + ":"@ + text::decimal_text(port as int)
    }
}

/// The step that parses an optional setting, where it was given.
pub open spec fn step_for(
    value: Option<Seq<char>>,
    make: spec_fn(Seq<char>) -> ConfigStepView,
) -> Seq<ConfigStepView> {
    match value {
        Some(s) => seq![make(s)],
        None => Seq::empty(),
    }
}

/// The steps that resolve the initial peers.
pub open spec fn peer_steps(peers: Seq<Seq<char>>, port: u16) -> Seq<ConfigStepView> {
    Seq::new(peers.len(), |i: int| ConfigStepView::ResolvePeer(peer_addr(peers[i], port)))
}

/// The first step towards the ring: its key by name where the command line names it, and
/// otherwise a look at the environment.
pub open spec fn ring_step(given: args::Given) -> ConfigStepView {
    match args::value(given, Arg::Ring) {
        Some(name) => ConfigStepView::LatestRingKey(name),
        None => ConfigStepView::ReadVar(RingVar::Key),
    }
}

/// The steps that a command line asks for, in their order.
pub open spec fn config_plan(given: args::Given, port: u16) -> Seq<ConfigStepView> {
    step_for(
        args::value(given, Arg::ListenGossip),
        |s: Seq<char>| ConfigStepView::ParseGossipListen(s),
    ) + step_for(
        args::value(given, Arg::ListenHttp),
        |s: Seq<char>| ConfigStepView::ParseHttpListen(s),
    ) + step_for(
        args::value(given, Arg::ListenCtl),
        |s: Seq<char>| ConfigStepView::ParseCtlListen(s),
    ) + step_for(
        args::value(given, Arg::Name),
        |s: Seq<char>| ConfigStepView::PrintCaution,
    ) + peer_steps(args::values(given, Arg::Peer), port) + seq![ring_step(given)] + step_for(
        args::value(given, Arg::Events),
        |s: Seq<char>| ConfigStepView::ParseEventsGroup(s),
    )
}

/// What is settled before any step is taken.
pub open spec fn config_base<D: Domain>(
    given: args::Given,
    around: settings::SurroundingsView,
) -> ManagerConfigView<D> {
    ManagerConfigView {
        auto_update: given.contains_key(Arg::AutoUpdate),
        update_url: settings::chosen_bldr_url(given, around),
        update_channel: settings::chosen_channel(given, around),
        gossip_listen: None,
        http_listen: None,
        ctl_listen: None,
        name: args::value(given, Arg::Name),
        organization: args::value(given, Arg::Organization),
        gossip_permanent: given.contains_key(Arg::PermanentPeer),
        gossip_peers: Seq::empty(),
        watch_peer_file: args::value(given, Arg::PeerWatchFile),
        ring: None,
        eventsrv_group: None,
    }
}

impl<D: Domain> ConfigRunView<D> {
    /// How the configuration stands after `reply` to its first step.
    pub open spec fn answered(self, reply: ConfigReplyView<D>) -> ConfigProgressView<D> {
        let rest = self.todo.drop_first();
        match reply {
            ConfigReplyView::Failed(error) => ConfigProgressView::Failed {
                error,
                report: match self.todo[0] {
                    ConfigStepView::ResolvePeer(peer) => Some("Failed to resolve peer: "@ + peer),
                    _ => None,
                },
            },
            ConfigReplyView::Printed => ConfigProgressView::Going(
                ConfigRunView { config: self.config, todo: rest },
            ),
            ConfigReplyView::GossipAddr(addr) => ConfigProgressView::Going(
                ConfigRunView {
                    config: ManagerConfigView { gossip_listen: Some(addr), ..self.config },
                    todo: rest,
                },
            ),
            ConfigReplyView::HttpAddr(addr) => ConfigProgressView::Going(
                ConfigRunView {
                    config: ManagerConfigView { http_listen: Some(addr), ..self.config },
                    todo: rest,
                },
            ),
            ConfigReplyView::CtlAddr(parsed, fallback) => ConfigProgressView::Going(
                ConfigRunView {
                    config: ManagerConfigView {
                        ctl_listen: Some(
                            match parsed {
                                Some(addr) => addr,
                                None => fallback,
                            },
                        ),
                        ..self.config
                    },
                    todo: rest,
                },
            ),
            ConfigReplyView::PeerAddrs(list) => ConfigProgressView::Going(
                ConfigRunView {
                    config: ManagerConfigView {
                        gossip_peers: self.config.gossip_peers.push(list[0]),
                        ..self.config
                    },
                    todo: rest,
                },
            ),
            ConfigReplyView::Var(held) => ConfigProgressView::Going(
                ConfigRunView {
                    config: self.config,
                    todo: match (self.todo[0], held) {
                        (ConfigStepView::ReadVar(RingVar::Key), Some(key)) => seq![
                            ConfigStepView::StoreRingKey(key),
                        ] + rest,
                        (ConfigStepView::ReadVar(RingVar::Key), None) => seq![
                            ConfigStepView::ReadVar(RingVar::Name),
                        ] + rest,
                        (_, Some(name)) => seq![ConfigStepView::LatestRingKey(name)] + rest,
                        (_, None) => rest,
                    },
                },
            ),
            ConfigReplyView::RingKey(name) => ConfigProgressView::Going(
                ConfigRunView {
                    config: ManagerConfigView { ring: Some(name), ..self.config },
                    todo: rest,
                },
            ),
            ConfigReplyView::Group(group) => ConfigProgressView::Going(
                ConfigRunView {
                    config: ManagerConfigView { eventsrv_group: Some(group), ..self.config },
                    todo: rest,
                },
            ),
        }
    }
}

/// The lines that warn whoever names a Supervisor.
pub open spec fn caution() -> Seq<&'static str> {
    seq![
        "",
        "CAUTION: Running more than one Habitat Supervisor is not recommended for most",
        "CAUTION: users in most use cases. Using one Supervisor per host for multiple",
        "CAUTION: services in one ring will yield much better performance.",
        "",
        "CAUTION: If you know what you're doing, carry on!",
        "",
    ]
}

/// The lines that warn whoever names a Supervisor.
pub fn caution_lines() -> (lines: [&'static str; 7])
    ensures
        lines@ == seq![
            "",
            "CAUTION: Running more than one Habitat Supervisor is not recommended for most",
            "CAUTION: users in most use cases. Using one Supervisor per host for multiple",
            "CAUTION: services in one ring will yield much better performance.",
            "",
            "CAUTION: If you know what you're doing, carry on!",
            "",
        ],
        lines@ == caution(),
{
    [
        "",
        "CAUTION: Running more than one Habitat Supervisor is not recommended for most",
        "CAUTION: users in most use cases. Using one Supervisor per host for multiple",
        "CAUTION: services in one ring will yield much better performance.",
        "",
        "CAUTION: If you know what you're doing, carry on!",
        "",
    ]
}

/// The address to look a peer up by.
pub fn peer_address(peer: &str, port: u16) -> (addr: String)
    ensures
        addr@ == peer_addr(peer@, port),
{
    if text::contains_char(peer, ':') {
        peer.to_string()
    } else {
        peer.to_string().concat(":").concat(text::decimal(port as i128).as_str())
    }
}

fn push_step(todo: &mut Vec<ConfigStep>, step: ConfigStep)
    ensures
        config_steps(final(todo)@) == config_steps(old(todo)@) + seq![step@],
{
    todo.push(step);
    proof {
        assert(config_steps(todo@) =~= config_steps(old(todo)@) + seq![step@]);
    }
}

/// The steps that the command line asks for. `port` is the default port of the gossip system.
pub fn config_todo(m: &ArgMatches, port: u16) -> (todo: Vec<ConfigStep>)
    ensures
        config_steps(todo@) == config_plan(m@, port),
{
    let mut todo: Vec<ConfigStep> = Vec::new();
    proof {
        assert(config_steps(todo@) =~= Seq::empty());
    }
    if let Some(s) = m.value_of(Arg::ListenGossip) {
        push_step(&mut todo, ConfigStep::ParseGossipListen(s));
    }
    if let Some(s) = m.value_of(Arg::ListenHttp) {
        push_step(&mut todo, ConfigStep::ParseHttpListen(s));
    }
    if let Some(s) = m.value_of(Arg::ListenCtl) {
        push_step(&mut todo, ConfigStep::ParseCtlListen(s));
    }
    if let Some(_) = m.value_of(Arg::Name) {
        push_step(&mut todo, ConfigStep::PrintCaution);
    }
    let ghost before = config_steps(todo@);
    let ghost peers = args::values(m@, Arg::Peer);
    proof {
        assert(peer_steps(peers.take(0), port) =~= Seq::empty());
    }
    if let Some(list) = m.values_of(Arg::Peer) {
        for i in 0..list.len()
            invariant
                peers == text::texts(list@),
                config_steps(todo@) == before + peer_steps(peers.take(i as int), port),
        {
            push_step(&mut todo, ConfigStep::ResolvePeer(peer_address(list[i].as_str(), port)));
            proof {
                assert(peer_steps(peers.take(i + 1), port) =~= peer_steps(
                    peers.take(i as int),
                    port,
                ) + seq![ConfigStepView::ResolvePeer(peer_addr(peers[i as int], port))]);
                assert(config_steps(todo@) =~= before + peer_steps(peers.take(i + 1), port));
            }
        }
    }
    proof {
        assert(peers.take(peers.len() as int) =~= peers);
    }
    match m.value_of(Arg::Ring) {
        Some(name) => push_step(&mut todo, ConfigStep::LatestRingKey(name)),
        None => push_step(&mut todo, ConfigStep::ReadVar(RingVar::Key)),
    }
    if let Some(s) = m.value_of(Arg::Events) {
        push_step(&mut todo, ConfigStep::ParseEventsGroup(s));
    }
    proof {
        assert(config_steps(todo@) =~= config_plan(m@, port));
    }
    todo
}

/// Begins the configuration that the command line asks for. `port` is the default port of the
/// gossip system.
pub fn mgrcfg_from_matches<D: Domain>(m: &ArgMatches, around: &Surroundings, port: u16) -> (run:
    ConfigRun<D>)
    ensures
        run@.config == config_base::<D>(m@, around@),
        run@.todo == config_plan(m@, port),
{
    ConfigRun {
        config: ManagerConfig {
            auto_update: m.is_present(Arg::AutoUpdate),
            update_url: settings::bldr_url(m, around),
            update_channel: settings::channel(m, around),
            gossip_listen: None,
            http_listen: None,
            ctl_listen: None,
            name: m.value_of(Arg::Name),
            organization: m.value_of(Arg::Organization),
            gossip_permanent: m.is_present(Arg::PermanentPeer),
            gossip_peers: Vec::new(),
            watch_peer_file: m.value_of(Arg::PeerWatchFile),
            ring: None,
            eventsrv_group: None,
        },
        todo: config_todo(m, port),
    }
}

impl<D: Domain> ConfigRun<D> {
    /// The next step, if one is left.
    pub fn next_step(&self) -> (step: Option<&ConfigStep>)
        ensures
            match step {
                Some(s) => self@.todo.len() > 0 && s@ == self@.todo[0],
                None => self@.todo.len() == 0,
            },
    {
        if self.todo.len() > 0 {
            Some(&self.todo[0])
        } else {
            None
        }
    }

    /// The configuration, once no step is left.
    pub fn into_config(self) -> (config: ManagerConfig<D>)
        requires
            self@.todo.len() == 0,
        ensures
            config@ == self@.config,
    {
        self.config
    }

    /// Takes in the reply to the first step.
    pub fn answer(self, reply: ConfigReply<D>) -> (progress: ConfigProgress<D>)
        requires
            self@.todo.len() > 0,
            config_reply_fits(self@.todo[0], reply@),
        ensures
            progress@ == self@.answered(reply@),
    {
        let mut config = self.config;
        let mut todo = self.todo;
        let step = todo.remove(0);
        let ghost rest = self@.todo.drop_first();
        proof {
            assert(config_steps(todo@) =~= rest);
        }
        match reply {
            ConfigReply::Failed(error) => {
                let report = match step {
                    ConfigStep::ResolvePeer(peer) => Some(
                        "Failed to resolve peer: ".to_string().concat(peer.as_str()),
                    ),
                    _ => None,
                };
                return ConfigProgress::Failed { error, report };
            },
            ConfigReply::Printed => {},
            ConfigReply::GossipAddr(addr) => {
                config.gossip_listen = Some(addr);
            },
            ConfigReply::HttpAddr(addr) => {
                config.http_listen = Some(addr);
            },
            ConfigReply::CtlAddr(parsed, fallback) => {
                config.ctl_listen = match parsed {
                    Some(addr) => Some(addr),
                    None => Some(fallback),
                };
            },
            ConfigReply::PeerAddrs(list) => {
                let mut list = list;
                config.gossip_peers.push(list.swap_remove(0));
            },
            ConfigReply::Var(held) => {
                let follow = match (step, held) {
                    (ConfigStep::ReadVar(RingVar::Key), Some(key)) => Some(
                        ConfigStep::StoreRingKey(key),
                    ),
                    (ConfigStep::ReadVar(RingVar::Key), None) => Some(
                        ConfigStep::ReadVar(RingVar::Name),
                    ),
                    (_, Some(name)) => Some(ConfigStep::LatestRingKey(name)),
                    (_, None) => None,
                };
                if let Some(next) = follow {
                    todo.insert(0, next);
                    proof {
                        assert(config_steps(todo@) =~= seq![next@] + rest);
                    }
                }
            },
            ConfigReply::RingKey(name) => {
                config.ring = Some(name);
            },
            ConfigReply::Group(group) => {
                config.eventsrv_group = Some(group);
            },
        }
        ConfigProgress::Going(ConfigRun { config, todo })
    }
}

} // verus!
