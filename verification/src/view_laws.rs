//! What the contents of each type stand for in contracts: every value by itself, under its own
//! name, and every list in its order.

use crate::boot;
use crate::boot::Boot;
use crate::boot::BootView;
use crate::boot::ExitStatus;
use crate::cli;
use crate::cli::AppSpec;
use crate::cli::CommandSpec;
use crate::config;
use crate::config::ConfigProgress;
use crate::config::ConfigProgressView;
use crate::config::ConfigReply;
use crate::config::ConfigReplyView;
use crate::config::ConfigRun;
use crate::config::ConfigStep;
use crate::config::ConfigStepView;
use crate::config::ManagerConfig;
use crate::config::RingVar;
use crate::control;
use crate::control::Call;
use crate::control::CtlStep;
use crate::control::CtlStepReply;
use crate::control::CtlStepReplyView;
use crate::control::CtlStepView;
use crate::control::Request;
use crate::control::RequestView;
use crate::domain::Domain;
use crate::run;
use crate::run::Launch;
use crate::run::LaunchProgress;
use crate::run::LaunchProgressView;
use crate::run::RunReply;
use crate::run::RunReplyView;
use crate::run::RunStep;
use crate::run::RunStepView;
use crate::settings::Surroundings;
use crate::svc_load;
use crate::svc_load::LoadReply;
use crate::svc_load::LoadReplyView;
use crate::svc_load::LoadStep;
use crate::svc_load::LoadStepView;
use crate::svc_load::SvcLoad;
use crate::text;
use vstd::prelude::*;

verus! {

/// A string stands for its characters, and a list of strings for theirs in its order.
pub proof fn law_texts(list: Seq<String>, held: Seq<Option<String>>, s: String, i: int)
    ensures
        text::opt_text(Some(s)) == Some(s@),
        text::opt_text(None) is None,
        text::texts(list).len() == list.len(),
        0 <= i < list.len() ==> text::texts(list)[i] == list[i]@,
        boot::opt_texts(held).len() == held.len(),
        0 <= i < held.len() ==> boot::opt_texts(held)[i] is Some == held[i] is Some,
        0 <= i < held.len() && held[i] is Some ==> boot::opt_texts(held)[i] == Some(held[i]->0@),
{
}

/// A list of steps stands for its steps in its order.
pub proof fn law_step_lists<D: Domain>(
    config_list: Seq<ConfigStep>,
    load_list: Seq<LoadStep>,
    ctl_list: Seq<CtlStep>,
    run_list: Seq<RunStep>,
    commands: Seq<CommandSpec>,
    svc: SvcLoad<D>,
    i: int,
)
    ensures
        config::config_steps(config_list).len() == config_list.len(),
        0 <= i < config_list.len() ==> config::config_steps(config_list)[i] == config_list[i]@,
        svc_load::load_steps(load_list).len() == load_list.len(),
        0 <= i < load_list.len() ==> svc_load::load_steps(load_list)[i] == load_list[i]@,
        control::ctl_steps(ctl_list).len() == ctl_list.len(),
        0 <= i < ctl_list.len() ==> control::ctl_steps(ctl_list)[i] == ctl_list[i]@,
        run::run_steps(run_list).len() == run_list.len(),
        0 <= i < run_list.len() ==> run::run_steps(run_list)[i] == run_list[i]@,
        cli::command_specs(commands).len() == commands.len(),
        0 <= i < commands.len() ==> cli::command_specs(commands)[i] == commands[i]@,
        run::opt_load(Some(svc)) == Some(svc@),
        run::opt_load::<D>(None) is None,
{
}

/// The surroundings stand for their parts.
pub proof fn law_view_surroundings(v: Surroundings)
    ensures
        v@.bldr_url_from_env is Some == v.bldr_url_from_env is Some,
        v.bldr_url_from_env matches Some(s) ==> v@.bldr_url_from_env == Some(s@),
        v@.default_bldr_url == v.default_bldr_url@,
        v@.default_channel == v.default_channel@,
{
}

/// A configuration stands for its settings.
pub proof fn law_view_config<D: Domain>(v: ManagerConfig<D>)
    ensures
        v@.auto_update == v.auto_update,
        v@.update_url == v.update_url@,
        v@.update_channel == v.update_channel@,
        v@.gossip_listen == v.gossip_listen,
        v@.http_listen == v.http_listen,
        v@.ctl_listen == v.ctl_listen,
        v@.name is Some == v.name is Some,
        v.name matches Some(s) ==> v@.name == Some(s@),
        v@.organization is Some == v.organization is Some,
        v.organization matches Some(s) ==> v@.organization == Some(s@),
        v@.gossip_permanent == v.gossip_permanent,
        v@.gossip_peers == v.gossip_peers@,
        v@.watch_peer_file is Some == v.watch_peer_file is Some,
        v.watch_peer_file matches Some(s) ==> v@.watch_peer_file == Some(s@),
        v@.ring is Some == v.ring is Some,
        v.ring matches Some(s) ==> v@.ring == Some(s@),
        v@.eventsrv_group == v.eventsrv_group,
{
}

/// A request to load a service stands for its fields.
pub proof fn law_view_load<D: Domain>(v: SvcLoad<D>)
    ensures
        v@.ident == v.ident,
        v@.bldr_url == v.bldr_url@,
        v@.bldr_channel == v.bldr_channel@,
        v@.application_environment == v.application_environment,
        v@.binds == v.binds@,
        v@.specified_binds == v.specified_binds,
        v@.config_from is Some == v.config_from is Some,
        v.config_from matches Some(s) ==> v@.config_from == Some(s@),
        v@.force == v.force,
        v@.group is Some == v.group is Some,
        v.group matches Some(s) ==> v@.group == Some(s@),
        v@.svc_encrypted_password is Some == v.svc_encrypted_password is Some,
        v.svc_encrypted_password matches Some(s) ==> v@.svc_encrypted_password == Some(s@),
        v@.topology == v.topology,
        v@.update_strategy == v.update_strategy,
{
}

/// A call stands for its parts.
pub proof fn law_view_call<D: Domain>(v: Call<D>)
    ensures
        v@.address == v.address,
        v@.secret_key == v.secret_key@,
        v@.request == v.request@,
{
}

/// A command stands for its parts.
pub proof fn law_view_command(v: CommandSpec)
    ensures
        v@.command == v.command,
        v@.about == v.about,
        v@.aliases == v.aliases@,
        v@.args == v.args@,
{
}

/// The program stands for its parts.
pub proof fn law_view_app(v: AppSpec)
    ensures
        v@.name == v.name,
        v@.about == v.about,
        v@.author == v.author,
        v@.versionless_subcommands == v.versionless_subcommands,
        v@.subcommand_required_else_help == v.subcommand_required_else_help,
        v@.args == v.args@,
        v@.commands == cli::command_specs(v.commands@),
{
}

/// A step of a configuration stands for itself, with its text.
pub proof fn law_view_config_step(s: String, var: RingVar)
    ensures
        ConfigStep::ParseGossipListen(s)@ == (ConfigStepView::ParseGossipListen(s@)),
        ConfigStep::ParseHttpListen(s)@ == (ConfigStepView::ParseHttpListen(s@)),
        ConfigStep::ParseCtlListen(s)@ == (ConfigStepView::ParseCtlListen(s@)),
        ConfigStep::ResolvePeer(s)@ == (ConfigStepView::ResolvePeer(s@)),
        ConfigStep::LatestRingKey(s)@ == (ConfigStepView::LatestRingKey(s@)),
        ConfigStep::StoreRingKey(s)@ == (ConfigStepView::StoreRingKey(s@)),
        ConfigStep::ParseEventsGroup(s)@ == (ConfigStepView::ParseEventsGroup(s@)),
        ConfigStep::PrintCaution@ == (ConfigStepView::PrintCaution),
        ConfigStep::ReadVar(var)@ == (ConfigStepView::ReadVar(var)),
{
}

/// A reply to a step of a configuration stands for itself.
pub proof fn law_view_config_reply<D: Domain>(s: String, gossip: D::GossipAddr, http: D::HttpAddr, ctl: Option<D::SocketAddr>, addr: D::SocketAddr, peers: Vec<D::SocketAddr>, group: Option<D::ServiceGroup>, e: D::Error)
    ensures
        ConfigReply::<D>::Printed@ == (ConfigReplyView::<D>::Printed),
        ConfigReply::<D>::GossipAddr(gossip)@ == (ConfigReplyView::<D>::GossipAddr(gossip)),
        ConfigReply::<D>::HttpAddr(http)@ == (ConfigReplyView::<D>::HttpAddr(http)),
        ConfigReply::<D>::CtlAddr(ctl, addr)@ == (ConfigReplyView::<D>::CtlAddr(ctl, addr)),
        ConfigReply::<D>::PeerAddrs(peers)@ == (ConfigReplyView::<D>::PeerAddrs(peers@)),
        ConfigReply::<D>::Var(Some(s))@ == (ConfigReplyView::<D>::Var(Some(s@))),
        ConfigReply::<D>::Var(None)@ == (ConfigReplyView::<D>::Var(None)),
        ConfigReply::<D>::RingKey(s)@ == (ConfigReplyView::<D>::RingKey(s@)),
        ConfigReply::<D>::Group(group)@ == (ConfigReplyView::<D>::Group(group)),
        ConfigReply::<D>::Failed(e)@ == (ConfigReplyView::<D>::Failed(e)),
{
}

/// How a configuration stands is told as it is.
pub proof fn law_view_config_progress<D: Domain>(run: ConfigRun<D>, error: D::Error, s: String)
    ensures
        ConfigProgress::<D>::Going(run)@ == (ConfigProgressView::<D>::Going(run@)),
        (ConfigProgress::<D>::Failed { error, report: Some(s) })@ == (ConfigProgressView::<D>::Failed { error, report: Some(s@) }),
        (ConfigProgress::<D>::Failed { error, report: None })@ == (ConfigProgressView::<D>::Failed { error, report: None }),
{
}

/// A step of a request stands for itself, with its text.
pub proof fn law_view_load_step(s: String, t: String)
    ensures
        LoadStep::NewAppEnv(s, t)@ == (LoadStepView::NewAppEnv(s@, t@)),
        LoadStep::ParseBind(s)@ == (LoadStepView::ParseBind(s@)),
        LoadStep::EncryptPassword(s)@ == (LoadStepView::EncryptPassword(s@)),
        LoadStep::ParseTopology(s)@ == (LoadStepView::ParseTopology(s@)),
        LoadStep::ParseStrategy(s)@ == (LoadStepView::ParseStrategy(s@)),
        LoadStep::PrintConfigWarning@ == (LoadStepView::PrintConfigWarning),
{
}

/// A reply to a step of a request stands for itself.
pub proof fn law_view_load_reply<D: Domain>(s: String, app_env: D::AppEnv, bind: D::Bind, topology: Option<D::Topology>, strategy: Option<D::Strategy>, e: D::Error)
    ensures
        LoadReply::<D>::Printed@ == (LoadReplyView::<D>::Printed),
        LoadReply::<D>::AppEnv(app_env)@ == (LoadReplyView::<D>::AppEnv(app_env)),
        LoadReply::<D>::Bind(bind)@ == (LoadReplyView::<D>::Bind(bind)),
        LoadReply::<D>::Encrypted(s)@ == (LoadReplyView::<D>::Encrypted(s@)),
        LoadReply::<D>::Topology(topology)@ == (LoadReplyView::<D>::Topology(topology)),
        LoadReply::<D>::Strategy(strategy)@ == (LoadReplyView::<D>::Strategy(strategy)),
        LoadReply::<D>::Failed(e)@ == (LoadReplyView::<D>::Failed(e)),
{
}

/// A request stands for itself.
pub proof fn law_view_request<D: Domain>(ident: Option<D::Ident>, msg: SvcLoad<D>)
    ensures
        Request::<D>::SvcGetDefaultCfg(ident)@ == (RequestView::<D>::SvcGetDefaultCfg(ident)),
        Request::<D>::SvcUnload(ident)@ == (RequestView::<D>::SvcUnload(ident)),
        Request::<D>::SvcStart(ident)@ == (RequestView::<D>::SvcStart(ident)),
        Request::<D>::SvcStatus(ident)@ == (RequestView::<D>::SvcStatus(ident)),
        Request::<D>::SvcStop(ident)@ == (RequestView::<D>::SvcStop(ident)),
        Request::<D>::SvcLoad(msg)@ == (RequestView::<D>::SvcLoad(msg@)),
{
}

/// A step of a command stands for itself, with its text.
pub proof fn law_view_ctl_step(s: String)
    ensures
        CtlStep::SetVerbose@ == (CtlStepView::SetVerbose),
        CtlStep::SetNoColor@ == (CtlStepView::SetNoColor),
        CtlStep::BuildConfig@ == (CtlStepView::BuildConfig),
        CtlStep::FillLoad@ == (CtlStepView::FillLoad),
        CtlStep::ReadSecretKey@ == (CtlStepView::ReadSecretKey),
        CtlStep::Call@ == (CtlStepView::Call),
        CtlStep::ParseIdent(s)@ == (CtlStepView::ParseIdent(s@)),
{
}

/// A reply to a step of a command stands for itself.
pub proof fn law_view_ctl_reply<D: Domain>(addr: D::SocketAddr, ident: D::Ident, msg: SvcLoad<D>, found: bool, key: String, e: D::Error)
    ensures
        CtlStepReply::<D>::Done@ == (CtlStepReplyView::<D>::Done),
        CtlStepReply::<D>::Config(addr)@ == (CtlStepReplyView::<D>::Config(addr)),
        CtlStepReply::<D>::Ident(ident)@ == (CtlStepReplyView::<D>::Ident(ident)),
        CtlStepReply::<D>::Load(msg)@ == (CtlStepReplyView::<D>::Load(msg@)),
        (CtlStepReply::<D>::SecretKey { found, key })@ == (CtlStepReplyView::<D>::SecretKey { found, key: key@ }),
        CtlStepReply::<D>::Failed(e)@ == (CtlStepReplyView::<D>::Failed(e)),
{
}

/// A step of a start stands for itself, with its texts.
pub proof fn law_view_run_step(s: String, source: String, bldr_url: String, channel: String)
    ensures
        RunStep::SetVerbose@ == (RunStepView::SetVerbose),
        RunStep::SetNoColor@ == (RunStepView::SetNoColor),
        RunStep::BuildConfig@ == (RunStepView::BuildConfig),
        RunStep::CheckRunning@ == (RunStepView::CheckRunning),
        RunStep::LoadManager@ == (RunStepView::LoadManager),
        RunStep::FillLoad@ == (RunStepView::FillLoad),
        RunStep::RunManager@ == (RunStepView::RunManager),
        RunStep::ParseSource(s)@ == (RunStepView::ParseSource(s@)),
        (RunStep::InstallArchive { source, bldr_url, channel })@ == (RunStepView::InstallArchive { source: source@, bldr_url: bldr_url@, channel: channel@ }),
{
}

/// A reply to a step of a start stands for itself.
pub proof fn law_view_run_reply<D: Domain>(running: bool, msg: SvcLoad<D>, ident: D::Ident, e: D::Error)
    ensures
        RunReply::<D>::Done@ == (RunReplyView::<D>::Done),
        RunReply::<D>::Archive@ == (RunReplyView::<D>::Archive),
        RunReply::<D>::Running(running)@ == (RunReplyView::<D>::Running(running)),
        RunReply::<D>::Load(msg)@ == (RunReplyView::<D>::Load(msg@)),
        RunReply::<D>::Ident(ident)@ == (RunReplyView::<D>::Ident(ident)),
        RunReply::<D>::Failed(e)@ == (RunReplyView::<D>::Failed(e)),
{
}

/// How a start stands is told as it is.
pub proof fn law_view_launch_progress<D: Domain>(launch: Launch<D>, e: D::Error, status: ExitStatus)
    ensures
        LaunchProgress::<D>::Going(launch)@ == (LaunchProgressView::<D>::Going(launch@)),
        LaunchProgress::<D>::Failed(e)@ == (LaunchProgressView::<D>::Failed(e)),
        LaunchProgress::<D>::Exit(status)@ == (LaunchProgressView::<D>::Exit(status)),
{
}

/// A step on the way up stands for itself.
pub proof fn law_view_boot(s: String, connected: bool, line: String, status: ExitStatus)
    ensures
        Boot::InitLogger@ == (BootView::InitLogger),
        Boot::EnableFeatures@ == (BootView::EnableFeatures),
        Boot::InitCrypto@ == (BootView::InitCrypto),
        Boot::FindPipe@ == (BootView::FindPipe),
        Boot::Connect(s)@ == (BootView::Connect(s@)),
        (Boot::Up { connected })@ == (BootView::Up { connected }),
        (Boot::Exit { line, status })@ == (BootView::Exit { line: line@, status }),
{
}

} // verus!
