//! What holds of a configuration from its first step to its last.

use crate::args;
use crate::args::Arg;
use crate::config;
use crate::config::ConfigProgressView;
use crate::config::ConfigReplyView;
use crate::config::ConfigRunView;
use crate::config::ConfigStepView;
use crate::config::ManagerConfigView;
use crate::config::RingVar;
use crate::domain::Domain;
use crate::settings;
use crate::text;
use vstd::prelude::*;

verus! {

/// What the steps of one run come to, each as a function of the text that it is handed. Each of
/// them is taken at most once, peers apart, which are numbered in the order of the command line.
pub struct ConfigOutcomes<D: Domain> {
    pub gossip: spec_fn(Seq<char>) -> Result<D::GossipAddr, D::Error>,
    pub http: spec_fn(Seq<char>) -> Result<D::HttpAddr, D::Error>,
    pub ctl: spec_fn(Seq<char>) -> Option<D::SocketAddr>,
    pub ctl_default: D::SocketAddr,
    pub peers: spec_fn(int, Seq<char>) -> Result<Seq<D::SocketAddr>, D::Error>,
    /// What an environment variable holds.
    pub vars: spec_fn(Seq<char>) -> Option<Seq<char>>,
    pub latest_key: spec_fn(Seq<char>) -> Result<Seq<char>, D::Error>,
    pub stored_key: spec_fn(Seq<char>) -> Result<Seq<char>, D::Error>,
    pub group: spec_fn(Seq<char>) -> Option<D::ServiceGroup>,
}

impl<D: Domain> ConfigOutcomes<D> {
    /// Whether each of `n` peers that resolves has an address.
    pub open spec fn covers(self, n: nat) -> bool {
        forall|i: int, addr: Seq<char>|
            0 <= i < n ==> ((#[trigger] (self.peers)(i, addr)) matches Ok(list) ==> list.len() > 0)
    }

    /// What looking up the addresses of `addrs` one after another comes to.
    pub open spec fn lookups(self, addrs: Seq<Seq<char>>) -> Seq<
        Result<Seq<D::SocketAddr>, D::Error>,
    > {
        Seq::new(addrs.len(), |i: int| (self.peers)(i, addrs[i]))
    }

    /// The reply to `step` once `resolved` peers are resolved.
    pub open spec fn reply(self, step: ConfigStepView, resolved: nat) -> ConfigReplyView<D> {
        match step {
            ConfigStepView::ParseGossipListen(s) => match (self.gossip)(s) {
                Ok(addr) => ConfigReplyView::GossipAddr(addr),
                Err(e) => ConfigReplyView::Failed(e),
            },
            ConfigStepView::ParseHttpListen(s) => match (self.http)(s) {
                Ok(addr) => ConfigReplyView::HttpAddr(addr),
                Err(e) => ConfigReplyView::Failed(e),
            },
            ConfigStepView::ParseCtlListen(s) => ConfigReplyView::CtlAddr(
                (self.ctl)(s),
                self.ctl_default,
            ),
            ConfigStepView::PrintCaution => ConfigReplyView::Printed,
            ConfigStepView::ResolvePeer(addr) => match (self.peers)(resolved as int, addr) {
                Ok(list) => ConfigReplyView::PeerAddrs(list),
                Err(e) => ConfigReplyView::Failed(e),
            },
            ConfigStepView::ReadVar(RingVar::Key) => ConfigReplyView::Var(
                (self.vars)("HAB_RING_KEY"@),
            ),
            ConfigStepView::ReadVar(RingVar::Name) => ConfigReplyView::Var(
                (self.vars)("HAB_RING"@),
            ),
            ConfigStepView::LatestRingKey(s) => match (self.latest_key)(s) {
                Ok(name) => ConfigReplyView::RingKey(name),
                Err(e) => ConfigReplyView::Failed(e),
            },
            ConfigStepView::StoreRingKey(s) => match (self.stored_key)(s) {
                Ok(name) => ConfigReplyView::RingKey(name),
                Err(e) => ConfigReplyView::Failed(e),
            },
            ConfigStepView::ParseEventsGroup(s) => ConfigReplyView::Group((self.group)(s)),
        }
    }
}

/// How many steps a step may still lead to, itself included.
pub open spec fn step_work(step: ConfigStepView) -> nat {
    match step {
        ConfigStepView::ReadVar(RingVar::Key) => 3,
        ConfigStepView::ReadVar(RingVar::Name) => 2,
        _ => 1,
    }
}

/// A bound on the steps that `todo` leads to.
pub open spec fn work(todo: Seq<ConfigStepView>) -> nat
    decreases todo.len(),
{
    if todo.len() == 0 {
        0
    } else {
        step_work(todo[0]) + work(todo.drop_first())
    }
}

proof fn lemma_work_head(step: ConfigStepView, rest: Seq<ConfigStepView>)
    ensures
        work(seq![step] + rest) == step_work(step) + work(rest),
{
    assert((seq![step] + rest).drop_first() =~= rest);
}

/// Every reply brings a run closer to its end: the bound on what is left gets smaller.
pub proof fn law_steps_end<D: Domain>(run: ConfigRunView<D>, reply: ConfigReplyView<D>)
    requires
        run.todo.len() > 0,
        reply is Var ==> run.todo[0] is ReadVar,
    ensures
        run.answered(reply) matches ConfigProgressView::Going(next) ==> work(next.todo) < work(
            run.todo,
        ),
{
    let rest = run.todo.drop_first();
    if let ConfigReplyView::Var(held) = reply {
        match (run.todo[0], held) {
            (ConfigStepView::ReadVar(RingVar::Key), Some(key)) => {
                lemma_work_head(ConfigStepView::StoreRingKey(key), rest);
            },
            (ConfigStepView::ReadVar(RingVar::Key), None) => {
                lemma_work_head(ConfigStepView::ReadVar(RingVar::Name), rest);
            },
            (_, Some(name)) => {
                lemma_work_head(ConfigStepView::LatestRingKey(name), rest);
            },
            (_, None) => {},
        }
    }
}

/// What a run comes to when its steps come to `outcomes`: a configuration, or the error that it
/// is given up with.
#[verifier::opaque]
pub open spec fn settled<D: Domain>(run: ConfigRunView<D>, outcomes: ConfigOutcomes<D>) -> Result<
    ManagerConfigView<D>,
    D::Error,
>
    decreases work(run.todo),
{
    if run.todo.len() == 0 {
        Ok(run.config)
    } else {
        proof {
            law_steps_end(run, outcomes.reply(run.todo[0], run.config.gossip_peers.len()));
        }
        match run.answered(outcomes.reply(run.todo[0], run.config.gossip_peers.len())) {
            ConfigProgressView::Going(next) => settled(next, outcomes),
            ConfigProgressView::Failed { error, report } => Err(error),
        }
    }
}

/// The address of each peer, or the error of the first that does not resolve.
pub open spec fn resolved<D: Domain>(
    peers: Seq<Result<Seq<D::SocketAddr>, D::Error>>,
) -> Result<Seq<D::SocketAddr>, D::Error>
    decreases peers.len(),
{
    if peers.len() == 0 {
        Ok(Seq::empty())
    } else {
        match peers[0] {
            Err(e) => Err(e),
            Ok(list) => match resolved::<D>(peers.drop_first()) {
                Err(e) => Err(e),
                Ok(rest) => Ok(seq![list[0]] + rest),
            },
        }
    }
}

/// What a key that was looked for comes to.
pub open spec fn as_ring<E>(key: Result<Seq<char>, E>) -> Result<Option<Seq<char>>, E> {
    match key {
        Ok(name) => Ok(Some(name)),
        Err(e) => Err(e),
    }
}

/// The ring: by name from the command line; failing that, the key that `HAB_RING_KEY` holds;
/// failing that, by name from `HAB_RING`; failing that, none.
pub open spec fn ring_found<D: Domain>(given: args::Given, outcomes: ConfigOutcomes<D>) -> Result<
    Option<Seq<char>>,
    D::Error,
> {
    match (
        args::value(given, Arg::Ring),
        (outcomes.vars)("HAB_RING_KEY"@),
        (outcomes.vars)("HAB_RING"@),
    ) {
        (Some(name), _, _) => as_ring((outcomes.latest_key)(name)),
        (None, Some(key), _) => as_ring((outcomes.stored_key)(key)),
        (None, None, Some(name)) => as_ring((outcomes.latest_key)(name)),
        (None, None, None) => Ok(None),
    }
}

/// The addresses that the peers on the command line are looked up by.
pub open spec fn peer_addrs(given: args::Given, port: u16) -> Seq<Seq<char>> {
    Seq::new(
        args::values(given, Arg::Peer).len(),
        |i: int| config::peer_addr(args::values(given, Arg::Peer)[i], port),
    )
}

/// What parsing an optional setting comes to: nothing where it was not given.
pub open spec fn if_given<V, E>(
    value: Option<Seq<char>>,
    parse: spec_fn(Seq<char>) -> Result<V, E>,
) -> Result<Option<V>, E> {
    match value {
        Some(s) => match parse(s) {
            Ok(v) => Ok(Some(v)),
            Err(e) => Err(e),
        },
        None => Ok(None),
    }
}

/// The configuration that a command line stands for when its steps come to `outcomes`, or the
/// first error among those that end it.
pub open spec fn config_meant<D: Domain>(
    given: args::Given,
    around: settings::SurroundingsView,
    port: u16,
    outcomes: ConfigOutcomes<D>,
) -> Result<ManagerConfigView<D>, D::Error> {
    match (
        if_given(args::value(given, Arg::ListenGossip), outcomes.gossip),
        if_given(args::value(given, Arg::ListenHttp), outcomes.http),
        resolved::<D>(outcomes.lookups(peer_addrs(given, port))),
        ring_found(given, outcomes),
    ) {
        (Err(e), _, _, _) => Err(e),
        (Ok(_), Err(e), _, _) => Err(e),
        (Ok(_), Ok(_), Err(e), _) => Err(e),
        (Ok(_), Ok(_), Ok(_), Err(e)) => Err(e),
        (Ok(gossip), Ok(http), Ok(peers), Ok(ring)) => Ok(
            ManagerConfigView {
                auto_update: given.contains_key(Arg::AutoUpdate),
                update_url: settings::chosen_bldr_url(given, around),
                update_channel: settings::chosen_channel(given, around),
                gossip_listen: gossip,
                http_listen: http,
                ctl_listen: match args::value(given, Arg::ListenCtl) {
                    Some(s) => match (outcomes.ctl)(s) {
                        Some(addr) => Some(addr),
                        None => Some(outcomes.ctl_default),
                    },
                    None => None,
                },
                name: args::value(given, Arg::Name),
                organization: args::value(given, Arg::Organization),
                gossip_permanent: given.contains_key(Arg::PermanentPeer),
                gossip_peers: peers,
                watch_peer_file: args::value(given, Arg::PeerWatchFile),
                ring,
                eventsrv_group: match args::value(given, Arg::Events) {
                    Some(s) => Some((outcomes.group)(s)),
                    None => None,
                },
            },
        ),
    }
}

proof fn lemma_first<D: Domain>(
    config: ManagerConfigView<D>,
    step: ConfigStepView,
    rest: Seq<ConfigStepView>,
    outcomes: ConfigOutcomes<D>,
)
    ensures
        settled(ConfigRunView { config, todo: seq![step] + rest }, outcomes) == (
        match (ConfigRunView { config, todo: seq![step] + rest }).answered(
            outcomes.reply(step, config.gossip_peers.len()),
        ) {
            ConfigProgressView::Going(next) => settled(next, outcomes),
            ConfigProgressView::Failed { error, report } => Err(error),
        }),
        (seq![step] + rest).drop_first() == rest,
{
    reveal(settled);
    assert((seq![step] + rest).drop_first() =~= rest);
}

proof fn lemma_none_left<D: Domain>(config: ManagerConfigView<D>, outcomes: ConfigOutcomes<D>)
    ensures
        settled(ConfigRunView { config, todo: Seq::empty() }, outcomes) == Ok::<
            ManagerConfigView<D>,
            D::Error,
        >(config),
{
    reveal(settled);
}

/// The steps for the ring and what follows them.
proof fn lemma_ring<D: Domain>(
    config: ManagerConfigView<D>,
    given: args::Given,
    rest: Seq<ConfigStepView>,
    outcomes: ConfigOutcomes<D>,
)
    requires
        config.ring is None,
    ensures
        settled(ConfigRunView { config, todo: seq![config::ring_step(given)] + rest }, outcomes)
            == (match ring_found(given, outcomes) {
            Err(e) => Err(e),
            Ok(ring) => settled(
                ConfigRunView { config: ManagerConfigView { ring, ..config }, todo: rest },
                outcomes,
            ),
        }),
{
    let step = config::ring_step(given);
    lemma_first(config, step, rest, outcomes);
    match args::value(given, Arg::Ring) {
        Some(_) => {},
        None => match (outcomes.vars)("HAB_RING_KEY"@) {
            Some(key) => {
                lemma_first(config, ConfigStepView::StoreRingKey(key), rest, outcomes);
            },
            None => {
                lemma_first(config, ConfigStepView::ReadVar(RingVar::Name), rest, outcomes);
                match (outcomes.vars)("HAB_RING"@) {
                    Some(name) => {
                        lemma_first(config, ConfigStepView::LatestRingKey(name), rest, outcomes);
                    },
                    None => {},
                }
            },
        },
    }
}

/// The steps for the peers from number `k` on, and what follows them.
proof fn lemma_peers<D: Domain>(
    config: ManagerConfigView<D>,
    peers: Seq<Seq<char>>,
    port: u16,
    addrs: Seq<Seq<char>>,
    k: nat,
    rest: Seq<ConfigStepView>,
    outcomes: ConfigOutcomes<D>,
)
    requires
        k <= peers.len(),
        config.gossip_peers.len() == k,
        addrs.len() == peers.len(),
        forall|i: int|
            0 <= i < peers.len() ==> #[trigger] addrs[i] == config::peer_addr(peers[i], port),
    ensures
        settled(
            ConfigRunView { config, todo: config::peer_steps(peers.skip(k as int), port) + rest },
            outcomes,
        ) == (match resolved::<D>(outcomes.lookups(addrs).skip(k as int)) {
            Err(e) => Err(e),
            Ok(found) => settled(
                ConfigRunView {
                    config: ManagerConfigView {
                        gossip_peers: config.gossip_peers + found,
                        ..config
                    },
                    todo: rest,
                },
                outcomes,
            ),
        }),
    decreases peers.len() - k,
{
    let steps = config::peer_steps(peers.skip(k as int), port);
    let results = outcomes.lookups(addrs);
    let tail = results.skip(k as int);
    if k == peers.len() {
        assert(steps + rest =~= rest);
        assert(config.gossip_peers + Seq::<D::SocketAddr>::empty() =~= config.gossip_peers);
    } else {
        let later = config::peer_steps(peers.skip(k as int + 1), port);
        let step = steps[0];
        assert(addrs[k as int] == config::peer_addr(peers[k as int], port));
        assert(step == ConfigStepView::ResolvePeer(addrs[k as int]));
        assert(steps + rest =~= seq![step] + (later + rest));
        lemma_first(config, step, later + rest, outcomes);
        assert(tail.drop_first() =~= results.skip(k as int + 1));
        assert(tail[0] == (outcomes.peers)(k as int, addrs[k as int]));
        if let Ok(list) = tail[0] {
            let next = ManagerConfigView {
                gossip_peers: config.gossip_peers.push(list[0]),
                ..config
            };
            lemma_peers(next, peers, port, addrs, k + 1, rest, outcomes);
            if let Ok(found) = resolved::<D>(tail.drop_first()) {
                assert(next.gossip_peers + found =~= config.gossip_peers + (seq![list[0]] + found));
            }
        }
    }
}

/// A step for an optional setting, where it was given, and what follows it.
proof fn lemma_optional<D: Domain>(
    config: ManagerConfigView<D>,
    value: Option<Seq<char>>,
    make: spec_fn(Seq<char>) -> ConfigStepView,
    rest: Seq<ConfigStepView>,
    outcomes: ConfigOutcomes<D>,
)
    ensures
        settled(ConfigRunView { config, todo: config::step_for(value, make) + rest }, outcomes) == (
        match value {
            None => settled(ConfigRunView { config, todo: rest }, outcomes),
            Some(s) => match (ConfigRunView { config, todo: seq![make(s)] + rest }).answered(
                outcomes.reply(make(s), config.gossip_peers.len()),
            ) {
                ConfigProgressView::Going(next) => settled(next, outcomes),
                ConfigProgressView::Failed { error, report } => Err(error),
            },
        }),
        value matches Some(s) ==> (seq![make(s)] + rest).drop_first() == rest,
{
    match value {
        None => {
            assert(config::step_for(value, make) + rest =~= rest);
        },
        Some(s) => {
            lemma_first(config, make(s), rest, outcomes);
        },
    }
}

/// The steps before the peers.
spec fn opening(given: args::Given, rest: Seq<ConfigStepView>) -> Seq<ConfigStepView> {
    config::step_for(
        args::value(given, Arg::ListenGossip),
        |s: Seq<char>| ConfigStepView::ParseGossipListen(s),
    ) + (config::step_for(
        args::value(given, Arg::ListenHttp),
        |s: Seq<char>| ConfigStepView::ParseHttpListen(s),
    ) + (config::step_for(
        args::value(given, Arg::ListenCtl),
        |s: Seq<char>| ConfigStepView::ParseCtlListen(s),
    ) + (config::step_for(
        args::value(given, Arg::Name),
        |s: Seq<char>| ConfigStepView::PrintCaution,
    ) + rest)))
}

/// The steps from the peers on.
spec fn closing(given: args::Given, port: u16) -> Seq<ConfigStepView> {
    config::peer_steps(args::values(given, Arg::Peer), port) + (seq![config::ring_step(given)]
        + config::step_for(
        args::value(given, Arg::Events),
        |s: Seq<char>| ConfigStepView::ParseEventsGroup(s),
    ))
}

proof fn lemma_plan(given: args::Given, port: u16)
    ensures
        config::config_plan(given, port) == opening(given, closing(given, port)),
{
    assert(config::config_plan(given, port) =~= opening(given, closing(given, port)));
}

/// The listen addresses, where they were given.
spec fn with_listeners<D: Domain>(
    config: ManagerConfigView<D>,
    given: args::Given,
    outcomes: ConfigOutcomes<D>,
) -> ManagerConfigView<D> {
    ManagerConfigView {
        gossip_listen: match args::value(given, Arg::ListenGossip) {
            Some(s) => Some((outcomes.gossip)(s)->Ok_0),
            None => config.gossip_listen,
        },
        http_listen: match args::value(given, Arg::ListenHttp) {
            Some(s) => Some((outcomes.http)(s)->Ok_0),
            None => config.http_listen,
        },
        ctl_listen: match args::value(given, Arg::ListenCtl) {
            Some(s) => match (outcomes.ctl)(s) {
                Some(addr) => Some(addr),
                None => Some(outcomes.ctl_default),
            },
            None => config.ctl_listen,
        },
        ..config
    }
}

proof fn lemma_opening<D: Domain>(
    base: ManagerConfigView<D>,
    given: args::Given,
    rest: Seq<ConfigStepView>,
    outcomes: ConfigOutcomes<D>,
)
    ensures
        settled(ConfigRunView { config: base, todo: opening(given, rest) }, outcomes) == (match (
            if_given(args::value(given, Arg::ListenGossip), outcomes.gossip),
            if_given(args::value(given, Arg::ListenHttp), outcomes.http),
        ) {
            (Err(e), _) => Err(e),
            (Ok(_), Err(e)) => Err(e),
            (Ok(_), Ok(_)) => settled(
                ConfigRunView { config: with_listeners(base, given, outcomes), todo: rest },
                outcomes,
            ),
        }),
{
    let gossip = args::value(given, Arg::ListenGossip);
    let http = args::value(given, Arg::ListenHttp);
    let ctl = args::value(given, Arg::ListenCtl);
    let name = args::value(given, Arg::Name);
    let make_gossip = |s: Seq<char>| ConfigStepView::ParseGossipListen(s);
    let make_http = |s: Seq<char>| ConfigStepView::ParseHttpListen(s);
    let make_ctl = |s: Seq<char>| ConfigStepView::ParseCtlListen(s);
    let make_name = |s: Seq<char>| ConfigStepView::PrintCaution;
    let after_ctl = config::step_for(name, make_name) + rest;
    let after_http = config::step_for(ctl, make_ctl) + after_ctl;
    let after_gossip = config::step_for(http, make_http) + after_http;
    lemma_optional(base, gossip, make_gossip, after_gossip, outcomes);
    if if_given(gossip, outcomes.gossip) is Ok {
        let c1 = match gossip {
            Some(s) => ManagerConfigView {
                gossip_listen: Some((outcomes.gossip)(s)->Ok_0),
                ..base
            },
            None => base,
        };
        lemma_optional(c1, http, make_http, after_http, outcomes);
        if if_given(http, outcomes.http) is Ok {
            let c2 = match http {
                Some(s) => ManagerConfigView {
                    http_listen: Some((outcomes.http)(s)->Ok_0),
                    ..c1
                },
                None => c1,
            };
            lemma_optional(c2, ctl, make_ctl, after_ctl, outcomes);
            lemma_optional(
                with_listeners(base, given, outcomes),
                name,
                make_name,
                rest,
                outcomes,
            );
        }
    }
}

proof fn lemma_closing<D: Domain>(
    config: ManagerConfigView<D>,
    given: args::Given,
    port: u16,
    outcomes: ConfigOutcomes<D>,
)
    requires
        config.gossip_peers == Seq::<D::SocketAddr>::empty(),
        config.ring is None,
        config.eventsrv_group is None,
    ensures
        settled(ConfigRunView { config, todo: closing(given, port) }, outcomes) == (match (
            resolved::<D>(outcomes.lookups(peer_addrs(given, port))),
            ring_found(given, outcomes),
        ) {
            (Err(e), _) => Err(e),
            (Ok(_), Err(e)) => Err(e),
            (Ok(peers), Ok(ring)) => Ok(
                ManagerConfigView {
                    gossip_peers: peers,
                    ring,
                    eventsrv_group: match args::value(given, Arg::Events) {
                        Some(s) => Some((outcomes.group)(s)),
                        None => None,
                    },
                    ..config
                },
            ),
        }),
{
    let peers = args::values(given, Arg::Peer);
    let addrs = peer_addrs(given, port);
    let events = args::value(given, Arg::Events);
    let make_events = |s: Seq<char>| ConfigStepView::ParseEventsGroup(s);
    let after_ring = config::step_for(events, make_events);
    let after_peers = seq![config::ring_step(given)] + after_ring;
    assert(peers.skip(0) =~= peers);
    assert(outcomes.lookups(addrs).skip(0) =~= outcomes.lookups(addrs));
    lemma_peers(config, peers, port, addrs, 0, after_peers, outcomes);
    if let Ok(found) = resolved::<D>(outcomes.lookups(addrs)) {
        assert(config.gossip_peers + found =~= found);
        let c1 = ManagerConfigView { gossip_peers: found, ..config };
        lemma_ring(c1, given, after_ring, outcomes);
        if let Ok(ring) = ring_found(given, outcomes) {
            let c2 = ManagerConfigView { ring, ..c1 };
            assert(after_ring + Seq::<ConfigStepView>::empty() =~= after_ring);
            lemma_optional(c2, events, make_events, Seq::empty(), outcomes);
            let c3 = match events {
                Some(s) => ManagerConfigView { eventsrv_group: Some((outcomes.group)(s)), ..c2 },
                None => c2,
            };
            lemma_none_left(c3, outcomes);
        }
    }
}

/// Taken from the first step to the last, a configuration comes to what the command line stands
/// for: the settings of the command line and of the outcomes of its steps, or the first error.
pub proof fn law_config<D: Domain>(
    given: args::Given,
    around: settings::SurroundingsView,
    port: u16,
    outcomes: ConfigOutcomes<D>,
)
    requires
        outcomes.covers(args::values(given, Arg::Peer).len()),
    ensures
        settled(
            ConfigRunView {
                config: config::config_base::<D>(given, around),
                todo: config::config_plan(given, port),
            },
            outcomes,
        ) == config_meant(given, around, port, outcomes),
{
    let base = config::config_base::<D>(given, around);
    lemma_plan(given, port);
    lemma_opening(base, given, closing(given, port), outcomes);
    lemma_closing(with_listeners(base, given, outcomes), given, port, outcomes);
}

/// The one value of an argument, read off the command line: `None` where the argument is not
/// there, or is there without a value.
pub open spec fn only<V>(given: args::Given, arg: Arg, make: spec_fn(Seq<char>) -> V) -> Option<V> {
    if given.contains_key(arg) && given[arg].len() > 0 {
        Some(make(given[arg][0]))
    } else {
        None
    }
}

/// Every setting of a finished configuration comes from the one argument that names it, whatever
/// else the command line carries.
pub proof fn law_config_fields<D: Domain>(
    given: args::Given,
    around: settings::SurroundingsView,
    port: u16,
    outcomes: ConfigOutcomes<D>,
)
    requires
        outcomes.covers(args::values(given, Arg::Peer).len()),
    ensures
        settled(
            ConfigRunView {
                config: config::config_base::<D>(given, around),
                todo: config::config_plan(given, port),
            },
            outcomes,
        ) matches Ok(c) ==> {
            &&& c.auto_update <==> given.contains_key(Arg::AutoUpdate)
            &&& c.gossip_permanent <==> given.contains_key(Arg::PermanentPeer)
            &&& c.name == only(given, Arg::Name, |s: Seq<char>| s)
            &&& c.organization == only(given, Arg::Organization, |s: Seq<char>| s)
            &&& c.watch_peer_file == only(given, Arg::PeerWatchFile, |s: Seq<char>| s)
            &&& c.gossip_listen == only(
                given,
                Arg::ListenGossip,
                |s: Seq<char>| (outcomes.gossip)(s)->Ok_0,
            )
            &&& c.http_listen == only(
                given,
                Arg::ListenHttp,
                |s: Seq<char>| (outcomes.http)(s)->Ok_0,
            )
            &&& c.ctl_listen == only(
                given,
                Arg::ListenCtl,
                |s: Seq<char>|
                    match (outcomes.ctl)(s) {
                        Some(addr) => addr,
                        None => outcomes.ctl_default,
                    },
            )
            &&& c.eventsrv_group == only(given, Arg::Events, |s: Seq<char>| (outcomes.group)(s))
            &&& c.update_url == (if given.contains_key(Arg::BldrUrl) && given[Arg::BldrUrl].len()
                > 0 {
                given[Arg::BldrUrl][0]
            } else if around.bldr_url_from_env is Some {
                around.bldr_url_from_env->0
            } else {
                around.default_bldr_url
            })
            &&& c.update_channel == (if given.contains_key(Arg::Channel)
                && given[Arg::Channel].len() > 0 {
                given[Arg::Channel][0]
            } else {
                around.default_channel
            })
        },
{
    law_config(given, around, port, outcomes);
}

proof fn lemma_resolved<D: Domain>(results: Seq<Result<Seq<D::SocketAddr>, D::Error>>)
    ensures
        resolved::<D>(results) matches Ok(found) ==> found.len() == results.len() && forall|i: int|
            0 <= i < results.len() ==> (#[trigger] results[i]) is Ok && found[i] == results[i]->Ok_0[0],
        resolved::<D>(results) matches Err(e) ==> exists|i: int|
            0 <= i < results.len() && #[trigger] results[i] == Err::<Seq<D::SocketAddr>, D::Error>(e)
                && forall|j: int| 0 <= j < i ==> (#[trigger] results[j]) is Ok,
    decreases results.len(),
{
    if results.len() > 0 {
        let rest = results.drop_first();
        lemma_resolved::<D>(rest);
        if let Ok(list) = results[0] {
            match resolved::<D>(rest) {
                Ok(found) => {
                    assert forall|i: int| 0 <= i < results.len() implies (#[trigger] results[i]) is Ok
                        && (seq![list[0]] + found)[i] == results[i]->Ok_0[0] by {
                        if i > 0 {
                            assert(results[i] == rest[i - 1]);
                        }
                    }
                },
                Err(e) => {
                    let i = choose|i: int|
                        0 <= i < rest.len() && #[trigger] rest[i] == Err::<
                            Seq<D::SocketAddr>,
                            D::Error,
                        >(e) && forall|j: int| 0 <= j < i ==> (#[trigger] rest[j]) is Ok;
                    assert(results[i + 1] == rest[i]);
                    assert forall|j: int| 0 <= j < i + 1 implies (#[trigger] results[j]) is Ok by {
                        if j > 0 {
                            assert(rest[j - 1] is Ok);
                        }
                    }
                },
            }
        } else {
            assert(results[0] == Err::<Seq<D::SocketAddr>, D::Error>(results[0]->Err_0));
        }
    }
}

/// The initial peers of a finished configuration are the peers of the command line, all of them
/// and in their order: each is the first address that its text comes to.
pub proof fn law_config_peers<D: Domain>(
    given: args::Given,
    around: settings::SurroundingsView,
    port: u16,
    outcomes: ConfigOutcomes<D>,
)
    requires
        outcomes.covers(args::values(given, Arg::Peer).len()),
    ensures
        settled(
            ConfigRunView {
                config: config::config_base::<D>(given, around),
                todo: config::config_plan(given, port),
            },
            outcomes,
        ) matches Ok(c) ==> {
            &&& c.gossip_peers.len() == (if given.contains_key(Arg::Peer) {
                given[Arg::Peer].len()
            } else {
                0
            })
            &&& forall|i: int|
                #![trigger given[Arg::Peer][i]]
                0 <= i < c.gossip_peers.len() ==> {
                    let found = (outcomes.peers)(i, config::peer_addr(given[Arg::Peer][i], port));
                    found is Ok && c.gossip_peers[i] == found->Ok_0[0]
                }
        },
{
    law_config(given, around, port, outcomes);
    let results = outcomes.lookups(peer_addrs(given, port));
    lemma_resolved::<D>(results);
    if let Ok(c) = config_meant(given, around, port, outcomes) {
        assert forall|i: int|
            #![trigger given[Arg::Peer][i]]
            0 <= i < c.gossip_peers.len() implies {
            let found = (outcomes.peers)(i, config::peer_addr(given[Arg::Peer][i], port));
            found is Ok && c.gossip_peers[i] == found->Ok_0[0]
        } by {
            assert(results[i] is Ok);
        }
    }
}

/// The ring of a finished configuration is that of the command line before that of the
/// environment, and there a key before a name.
pub proof fn law_config_ring<D: Domain>(
    given: args::Given,
    around: settings::SurroundingsView,
    port: u16,
    outcomes: ConfigOutcomes<D>,
)
    requires
        outcomes.covers(args::values(given, Arg::Peer).len()),
    ensures
        settled(
            ConfigRunView {
                config: config::config_base::<D>(given, around),
                todo: config::config_plan(given, port),
            },
            outcomes,
        ) matches Ok(c) ==> (if given.contains_key(Arg::Ring) && given[Arg::Ring].len() > 0 {
            c.ring is Some && (outcomes.latest_key)(given[Arg::Ring][0]) == Ok::<
                Seq<char>,
                D::Error,
            >(c.ring->0)
        } else if (outcomes.vars)("HAB_RING_KEY"@) is Some {
            c.ring is Some && (outcomes.stored_key)((outcomes.vars)("HAB_RING_KEY"@)->0) == Ok::<
                Seq<char>,
                D::Error,
            >(c.ring->0)
        } else if (outcomes.vars)("HAB_RING"@) is Some {
            c.ring is Some && (outcomes.latest_key)((outcomes.vars)("HAB_RING"@)->0) == Ok::<
                Seq<char>,
                D::Error,
            >(c.ring->0)
        } else {
            c.ring is None
        }),
{
    law_config(given, around, port, outcomes);
}

/// A configuration fails exactly where one of its steps does: an address for the gossip system or
/// the HTTP gateway that was given and is none, a peer that does not resolve, a ring key that is
/// not found. A control address or a group for events that is none is no reason to fail.
pub proof fn law_config_fails<D: Domain>(
    given: args::Given,
    around: settings::SurroundingsView,
    port: u16,
    outcomes: ConfigOutcomes<D>,
)
    requires
        outcomes.covers(args::values(given, Arg::Peer).len()),
    ensures
        settled(
            ConfigRunView {
                config: config::config_base::<D>(given, around),
                todo: config::config_plan(given, port),
            },
            outcomes,
        ) is Err <==> {
            ||| given.contains_key(Arg::ListenGossip) && given[Arg::ListenGossip].len() > 0
                && (outcomes.gossip)(given[Arg::ListenGossip][0]) is Err
            ||| given.contains_key(Arg::ListenHttp) && given[Arg::ListenHttp].len() > 0 && (
            outcomes.http)(given[Arg::ListenHttp][0]) is Err
            ||| exists|i: int|
                0 <= i < args::values(given, Arg::Peer).len() && (outcomes.peers)(
                    i,
                    config::peer_addr(#[trigger] args::values(given, Arg::Peer)[i], port),
                ) is Err
            ||| ring_found(given, outcomes) is Err
        },
{
    law_config(given, around, port, outcomes);
    let results = outcomes.lookups(peer_addrs(given, port));
    let peers = args::values(given, Arg::Peer);
    lemma_resolved::<D>(results);
    assert forall|i: int| 0 <= i < peers.len() implies results[i] == (outcomes.peers)(
        i,
        config::peer_addr(#[trigger] peers[i], port),
    ) by {}
    if let Err(e) = resolved::<D>(results) {
        let i = choose|i: int|
            0 <= i < results.len() && #[trigger] results[i] == Err::<Seq<D::SocketAddr>, D::Error>(
                e,
            ) && forall|j: int| 0 <= j < i ==> (#[trigger] results[j]) is Ok;
        assert((outcomes.peers)(i, config::peer_addr(peers[i], port)) is Err);
    }
}

/// Every step can be answered with whatever it comes to.
pub proof fn law_config_replies<D: Domain>(
    step: ConfigStepView,
    n: nat,
    outcomes: ConfigOutcomes<D>,
)
    requires
        outcomes.covers(n + 1),
    ensures
        config::config_reply_fits(step, outcomes.reply(step, n)),
{
}

/// One, or none.
pub open spec fn count(b: bool) -> int {
    if b {
        1
    } else {
        0
    }
}

/// Whether an argument was given with a value.
pub open spec fn valued(given: args::Given, arg: Arg) -> bool {
    given.contains_key(arg) && given[arg].len() > 0
}

/// The steps of a configuration, one by one: what is parsed, that the caution is printed exactly
/// where a name is given, what is looked up, where the ring comes from, and in which order.
pub proof fn law_config_steps(given: args::Given, port: u16)
    ensures
        ({
            let plan = config::config_plan(given, port);
            let http = count(valued(given, Arg::ListenGossip));
            let ctl = http + count(valued(given, Arg::ListenHttp));
            let name = ctl + count(valued(given, Arg::ListenCtl));
            let peers = name + count(valued(given, Arg::Name));
            let n = if given.contains_key(Arg::Peer) {
                given[Arg::Peer].len()
            } else {
                0
            };
            let ring = peers + n;
            &&& valued(given, Arg::ListenGossip) ==> plan[0] == ConfigStepView::ParseGossipListen(
                given[Arg::ListenGossip][0],
            )
            &&& valued(given, Arg::ListenHttp) ==> plan[http] == ConfigStepView::ParseHttpListen(
                given[Arg::ListenHttp][0],
            )
            &&& valued(given, Arg::ListenCtl) ==> plan[ctl] == ConfigStepView::ParseCtlListen(
                given[Arg::ListenCtl][0],
            )
            &&& valued(given, Arg::Name) ==> plan[name] == ConfigStepView::PrintCaution
            &&& forall|i: int|
                0 <= i < n ==> #[trigger] plan[peers + i] == ConfigStepView::ResolvePeer(
                    config::peer_addr(given[Arg::Peer][i], port),
                )
            &&& plan[ring] == (if valued(given, Arg::Ring) {
                ConfigStepView::LatestRingKey(given[Arg::Ring][0])
            } else {
                ConfigStepView::ReadVar(RingVar::Key)
            })
            &&& valued(given, Arg::Events) ==> plan[ring + 1] == ConfigStepView::ParseEventsGroup(
                given[Arg::Events][0],
            )
            &&& plan.len() == ring + 1 + count(valued(given, Arg::Events))
        }),
{
}

/// A peer that has a colon is looked up as it is, and one that has none with the default port put
/// behind it.
pub proof fn law_peer_addr(peer: Seq<char>, port: u16)
    ensures
        peer.contains(':') ==> config::peer_addr(peer, port) == peer,
        !peer.contains(':') ==> config::peer_addr(peer, port) == peer + seq![':']
            + text::decimal_text(port as int),
{
    reveal_strlit(":");
    assert(":"@ =~= seq![':']);
}

/// A step that fails gives the whole configuration up with that very error; a peer that does not
/// resolve is named in a line before that, and nothing else is.
pub proof fn law_config_report<D: Domain>(run: ConfigRunView<D>, error: D::Error)
    requires
        run.todo.len() > 0,
    ensures
        ({
            let end = run.answered(ConfigReplyView::Failed(error));
            &&& end is Failed && end->error == error
            &&& run.todo[0] matches ConfigStepView::ResolvePeer(addr) ==> end->report == Some(
                "Failed to resolve peer: "@ + addr,
            )
            &&& !(run.todo[0] is ResolvePeer) ==> end->report is None
        }),
{
}

/// Whoever names a Supervisor is told why not to, in three lines and one more, between empty ones.
pub proof fn law_caution()
    ensures
        config::caution().len() == 7,
        config::caution()[0] == "" && config::caution()[4] == "" && config::caution()[6] == "",
        config::caution()[1] == "CAUTION: Running more than one Habitat Supervisor is not recommended for most",
        config::caution()[2] == "CAUTION: users in most use cases. Using one Supervisor per host for multiple",
        config::caution()[3] == "CAUTION: services in one ring will yield much better performance.",
        config::caution()[5] == "CAUTION: If you know what you're doing, carry on!",
{
}

/// The environment variables that are asked for a ring.
pub proof fn law_ring_vars()
    ensures
        RingVar::Key.spec_name() == "HAB_RING_KEY",
        RingVar::Name.spec_name() == "HAB_RING",
{
}

/// Every peer is looked up with a port: its own or the default one.
pub proof fn law_peer_has_port(peer: Seq<char>, port: u16)
    ensures
        config::peer_addr(peer, port).contains(':'),
{
    if !peer.contains(':') {
        reveal_strlit(":");
        assert(config::peer_addr(peer, port)[peer.len() as int] == ':');
    }
}

/// Whether a step turns to the environment for the ring.
pub open spec fn turns_to_environment(step: ConfigStepView) -> bool {
    step is ReadVar || step is StoreRingKey
}

/// Whether no step of `todo` turns to the environment.
pub open spec fn keeps_to_command_line(todo: Seq<ConfigStepView>) -> bool {
    forall|i: int| 0 <= i < todo.len() ==> !turns_to_environment(#[trigger] todo[i])
}

/// The steps that a run takes when they come to `outcomes`, in their order.
pub open spec fn steps_taken<D: Domain>(
    run: ConfigRunView<D>,
    outcomes: ConfigOutcomes<D>,
) -> Seq<ConfigStepView>
    decreases work(run.todo),
{
    if run.todo.len() == 0 {
        Seq::empty()
    } else {
        proof {
            law_steps_end(run, outcomes.reply(run.todo[0], run.config.gossip_peers.len()));
        }
        seq![run.todo[0]] + match run.answered(
            outcomes.reply(run.todo[0], run.config.gossip_peers.len()),
        ) {
            ConfigProgressView::Going(next) => steps_taken(next, outcomes),
            ConfigProgressView::Failed { error, report } => Seq::empty(),
        }
    }
}

/// A run with no step left that turns to the environment takes none.
proof fn lemma_keeps<D: Domain>(run: ConfigRunView<D>, outcomes: ConfigOutcomes<D>)
    requires
        keeps_to_command_line(run.todo),
    ensures
        keeps_to_command_line(steps_taken(run, outcomes)),
    decreases work(run.todo),
{
    if run.todo.len() > 0 {
        let reply = outcomes.reply(run.todo[0], run.config.gossip_peers.len());
        assert(!turns_to_environment(run.todo[0]));
        if let ConfigProgressView::Going(next) = run.answered(reply) {
            assert(next.todo == run.todo.drop_first());
            assert forall|i: int| 0 <= i < next.todo.len() implies !turns_to_environment(
                #[trigger] next.todo[i],
            ) by {
                assert(!turns_to_environment(run.todo[i + 1]));
            }
            law_steps_end(run, reply);
            lemma_keeps(next, outcomes);
        }
    }
}

/// Where the command line names the ring, no step of the configuration turns to the environment,
/// from the first to the last.
pub proof fn law_named_ring_is_final<D: Domain>(
    given: args::Given,
    around: settings::SurroundingsView,
    port: u16,
    outcomes: ConfigOutcomes<D>,
)
    requires
        args::value(given, Arg::Ring) is Some,
    ensures
        keeps_to_command_line(
            steps_taken(
                ConfigRunView {
                    config: config::config_base::<D>(given, around),
                    todo: config::config_plan(given, port),
                },
                outcomes,
            ),
        ),
{
    let run = ConfigRunView {
        config: config::config_base::<D>(given, around),
        todo: config::config_plan(given, port),
    };
    assert(keeps_to_command_line(run.todo));
    lemma_keeps(run, outcomes);
}

} // verus!
