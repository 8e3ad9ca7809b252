//! The command line that the program understands.

use crate::args::Arg;
use crate::domain::Platform;
use crate::text;
use vstd::prelude::*;

verus! {

/// The commands of the program.
#[derive(Clone, Copy, Debug, PartialEq, Eq, Structural)]
pub enum Subcommand {
    Bash,
    Config,
    Load,
    Run,
    Sh,
    Start,
    Status,
    Stop,
    Term,
    Unload,
}

impl Subcommand {
    pub open spec fn spec_name(self) -> &'static str {
        match self {
            Subcommand::Bash => "bash",
            Subcommand::Config => "config",
            Subcommand::Load => "load",
            Subcommand::Run => "run",
            Subcommand::Sh => "sh",
            Subcommand::Start => "start",
            Subcommand::Status => "status",
            Subcommand::Stop => "stop",
            Subcommand::Term => "term",
            Subcommand::Unload => "unload",
        }
    }

    /// The name of the command.
    pub fn name(self) -> (name: &'static str)
        ensures
            name == self.spec_name(),
    {
        match self {
            Subcommand::Bash => "bash",
            Subcommand::Config => "config",
            Subcommand::Load => "load",
            Subcommand::Run => "run",
            Subcommand::Sh => "sh",
            Subcommand::Start => "start",
            Subcommand::Status => "status",
            Subcommand::Stop => "stop",
            Subcommand::Term => "term",
            Subcommand::Unload => "unload",
        }
    }

    /// The command with this name.
    pub fn from_name(name: &str) -> (r: Option<Subcommand>)
        ensures
            match r {
                Some(command) => command.spec_name()@ == name@,
                None => forall|command: Subcommand| (#[trigger] command.spec_name())@ != name@,
            },
    {
        if text::same(name, "bash") {
            Some(Subcommand::Bash)
        } else if text::same(name, "config") {
            Some(Subcommand::Config)
        } else if text::same(name, "load") {
            Some(Subcommand::Load)
        } else if text::same(name, "run") {
            Some(Subcommand::Run)
        } else if text::same(name, "sh") {
            Some(Subcommand::Sh)
        } else if text::same(name, "start") {
            Some(Subcommand::Start)
        } else if text::same(name, "status") {
            Some(Subcommand::Status)
        } else if text::same(name, "stop") {
            Some(Subcommand::Stop)
        } else if text::same(name, "term") {
            Some(Subcommand::Term)
        } else if text::same(name, "unload") {
            Some(Subcommand::Unload)
        } else {
            None
        }
    }
}

impl Arg {
    pub open spec fn spec_name(self) -> &'static str {
        match self {
            Arg::Application => "APPLICATION",
            Arg::AutoUpdate => "AUTO_UPDATE",
            Arg::Bind => "BIND",
            Arg::BldrUrl => "BLDR_URL",
            Arg::Channel => "CHANNEL",
            Arg::ConfigDir => "CONFIG_DIR",
            Arg::Environment => "ENVIRONMENT",
            Arg::Events => "EVENTS",
            Arg::Force => "FORCE",
            Arg::Group => "GROUP",
            Arg::ListenCtl => "LISTEN_CTL",
            Arg::ListenGossip => "LISTEN_GOSSIP",
            Arg::ListenHttp => "LISTEN_HTTP",
            Arg::Name => "NAME",
            Arg::NoColor => "NO_COLOR",
            Arg::Organization => "ORGANIZATION",
            Arg::Password => "PASSWORD",
            Arg::Peer => "PEER",
            Arg::PeerWatchFile => "PEER_WATCH_FILE",
            Arg::PermanentPeer => "PERMANENT_PEER",
            Arg::PkgIdent => "PKG_IDENT",
            Arg::PkgIdentOrArtifact => "PKG_IDENT_OR_ARTIFACT",
            Arg::Ring => "RING",
            Arg::Strategy => "STRATEGY",
            Arg::Topology => "TOPOLOGY",
            Arg::Verbose => "VERBOSE",
        }
    }

    /// The name that the argument goes by.
    pub fn name(self) -> (name: &'static str)
        ensures
            name == self.spec_name(),
    {
        match self {
            Arg::Application => "APPLICATION",
            Arg::AutoUpdate => "AUTO_UPDATE",
            Arg::Bind => "BIND",
            Arg::BldrUrl => "BLDR_URL",
            Arg::Channel => "CHANNEL",
            Arg::ConfigDir => "CONFIG_DIR",
            Arg::Environment => "ENVIRONMENT",
            Arg::Events => "EVENTS",
            Arg::Force => "FORCE",
            Arg::Group => "GROUP",
            Arg::ListenCtl => "LISTEN_CTL",
            Arg::ListenGossip => "LISTEN_GOSSIP",
            Arg::ListenHttp => "LISTEN_HTTP",
            Arg::Name => "NAME",
            Arg::NoColor => "NO_COLOR",
            Arg::Organization => "ORGANIZATION",
            Arg::Password => "PASSWORD",
            Arg::Peer => "PEER",
            Arg::PeerWatchFile => "PEER_WATCH_FILE",
            Arg::PermanentPeer => "PERMANENT_PEER",
            Arg::PkgIdent => "PKG_IDENT",
            Arg::PkgIdentOrArtifact => "PKG_IDENT_OR_ARTIFACT",
            Arg::Ring => "RING",
            Arg::Strategy => "STRATEGY",
            Arg::Topology => "TOPOLOGY",
            Arg::Verbose => "VERBOSE",
        }
    }
}

/// The checks that the value of an argument can be put to.
#[derive(Clone, Copy, Debug, PartialEq, Eq, Structural)]
pub enum Validator {
    /// `validate::valid_listen_gossip`.
    ListenGossip,
    /// `validate::valid_listen_http`.
    ListenHttp,
    /// `validate::valid_service_group`.
    ServiceGroup,
    /// `validate::valid_topology`.
    Topology,
    /// `validate::valid_update_strategy`.
    UpdateStrategy,
    /// `validate::valid_url`.
    Url,
}

/// One argument of a command.
#[derive(Clone, Copy, Debug)]
pub struct ArgSpec {
    pub arg: Arg,
    pub short: Option<&'static str>,
    pub long: Option<&'static str>,
    pub help: &'static str,
    pub takes_value: bool,
    pub required: bool,
    /// Whether it can be given more than once.
    pub multiple: bool,
    /// Whether it can be given to every command.
    pub global: bool,
    /// An argument that must be given with it.
    pub needs: Option<Arg>,
    /// The name of an argument that must not be given with it.
    pub conflicts_with: Option<&'static str>,
    pub validator: Option<Validator>,
}

/// One command.
#[derive(Debug)]
pub struct CommandSpec {
    pub command: Subcommand,
    pub about: &'static str,
    pub aliases: Vec<&'static str>,
    pub args: Vec<ArgSpec>,
}

/// What a `CommandSpec` holds.
#[verifier::ext_equal]
pub struct CommandSpecView {
    pub command: Subcommand,
    pub about: &'static str,
    pub aliases: Seq<&'static str>,
    pub args: Seq<ArgSpec>,
}

impl View for CommandSpec {
    type V = CommandSpecView;

    open spec fn view(&self) -> CommandSpecView {
        CommandSpecView {
            command: self.command,
            about: self.about,
            aliases: self.aliases@,
            args: self.args@,
        }
    }
}

/// The whole program.
#[derive(Debug)]
pub struct AppSpec {
    pub name: &'static str,
    pub about: &'static str,
    pub author: &'static str,
    /// Whether commands have no version of their own.
    pub versionless_subcommands: bool,
    /// Whether the help is shown where no command is given.
    pub subcommand_required_else_help: bool,
    pub args: Vec<ArgSpec>,
    pub commands: Vec<CommandSpec>,
}

/// What an `AppSpec` holds.
#[verifier::ext_equal]
pub struct AppSpecView {
    pub name: &'static str,
    pub about: &'static str,
    pub author: &'static str,
    pub versionless_subcommands: bool,
    pub subcommand_required_else_help: bool,
    pub args: Seq<ArgSpec>,
    pub commands: Seq<CommandSpecView>,
}

/// What the commands of `list` hold.
pub open spec fn command_specs(list: Seq<CommandSpec>) -> Seq<CommandSpecView> {
    Seq::new(list.len(), |i: int| list[i]@)
}

impl View for AppSpec {
    type V = AppSpecView;

    open spec fn view(&self) -> AppSpecView {
        AppSpecView {
            name: self.name,
            about: self.about,
            author: self.author,
            versionless_subcommands: self.versionless_subcommands,
            subcommand_required_else_help: self.subcommand_required_else_help,
            args: self.args@,
            commands: command_specs(self.commands@),
        }
    }
}

/// A switch, which is there or not.
#[verifier::allow_in_spec]
pub fn switch(
    arg: Arg,
    long: Option<&'static str>,
    short: Option<&'static str>,
    help: &'static str,
) -> ArgSpec
    returns
        (ArgSpec {
            arg,
            short,
            long,
            help,
            takes_value: false,
            required: false,
            multiple: false,
            global: false,
            needs: None,
            conflicts_with: None,
            validator: None,
        }),
{
    ArgSpec {
        arg,
        short,
        long,
        help,
        takes_value: false,
        required: false,
        multiple: false,
        global: false,
        needs: None,
        conflicts_with: None,
        validator: None,
    }
}

/// An option, which has a value.
#[verifier::allow_in_spec]
pub fn option(
    arg: Arg,
    long: Option<&'static str>,
    short: Option<&'static str>,
    help: &'static str,
) -> ArgSpec
    returns
        (ArgSpec { takes_value: true, ..switch(arg, long, short, help) }),
{
    ArgSpec { takes_value: true, ..switch(arg, long, short, help) }
}

/// A value that stands by its place alone and must be there.
#[verifier::allow_in_spec]
pub fn required(arg: Arg, help: &'static str) -> ArgSpec
    returns
        (ArgSpec { required: true, ..option(arg, None, None, help) }),
{
    ArgSpec { required: true, ..option(arg, None, None, help) }
}

pub const ABOUT_APP: &'static str = "The Habitat Supervisor";
pub const AUTHOR: &'static str = "\nAuthors: The Habitat Maintainers <humans@habitat.sh>\n";
pub const ABOUT_BASH: &'static str = "Start an interactive Bash-like shell";
pub const ABOUT_CONFIG: &'static str = "Displays the default configuration options for a service";
pub const ABOUT_LOAD: &'static str = "Load a service to be started and supervised by Habitat from a package identifier. If an installed package doesn't satisfy the given package identifier, a suitable package will be installed from Builder.";
pub const ABOUT_UNLOAD: &'static str = "Unload a service loaded by the Habitat Supervisor. If the service is running it will additionally be stopped.";
pub const ABOUT_RUN: &'static str = "Run the Habitat Supervisor";
pub const ABOUT_SH: &'static str = "Start an interactive Bourne-like shell";
pub const ABOUT_START: &'static str = "Start a loaded, but stopped, Habitat service.";
pub const ABOUT_STATUS: &'static str = "Query the status of Habitat services.";
pub const ABOUT_STOP: &'static str = "Stop a running Habitat service.";
pub const ABOUT_TERM: &'static str = "Gracefully terminate the Habitat Supervisor and all of its running services";
pub const HELP_VERBOSE: &'static str = "Verbose output; shows line numbers";
pub const HELP_NO_COLOR: &'static str = "Turn ANSI color off";
pub const HELP_CONFIG_IDENT: &'static str = "A package identifier (ex: core/redis)";
pub const HELP_CONFIG_IDENT_WINDOWS: &'static str = "A package identifier (ex: core/redis, core/busybox-static/1.42.2)";
pub const HELP_IDENT: &'static str = "A Habitat package identifier (ex: core/redis)";
pub const HELP_APPLICATION: &'static str = "Application name; [default: not set].";
pub const HELP_ENVIRONMENT: &'static str = "Environment name; [default: not set].";
pub const HELP_CHANNEL: &'static str = "Receive package updates from the specified release channel [default: stable]";
pub const HELP_GROUP: &'static str = "The service group; shared config and topology [default: default].";
pub const HELP_BLDR_URL: &'static str = "Receive package updates from Builder at the specified URL [default: https://bldr.habitat.sh]";
pub const HELP_TOPOLOGY: &'static str = "Service topology; [default: none]";
pub const HELP_STRATEGY: &'static str = "The update strategy; [default: none] [values: none, at-once, rolling]";
pub const HELP_BIND: &'static str = "One or more service groups to bind to a configuration";
pub const HELP_FORCE: &'static str = "Load or reload an already loaded service. If the service was previously loaded and running this operation will also restart the service";
pub const HELP_PASSWORD: &'static str = "Password of the service user";
pub const HELP_LISTEN_GOSSIP: &'static str = "The listen address for the gossip system [default: 0.0.0.0:9638]";
pub const HELP_LISTEN_HTTP: &'static str = "The listen address for the HTTP Gateway [default: 0.0.0.0:9631]";
pub const HELP_LISTEN_CTL: &'static str = "The listen address for the Control Gateway [default: 0.0.0.0:9632]";
pub const HELP_NAME: &'static str = "The name of the Supervisor if launching more than one [default: default]";
pub const HELP_ORGANIZATION: &'static str = "The organization that the Supervisor and its subsequent services are part of [default: default]";
pub const HELP_PEER: &'static str = "The listen address of an initial peer (IP[:PORT])";
pub const HELP_PERMANENT_PEER: &'static str = "If this Supervisor is a permanent peer";
pub const HELP_PEER_WATCH_FILE: &'static str = "Watch this file for connecting to the ring";
pub const HELP_RING: &'static str = "Ring key name";
pub const HELP_SUP_CHANNEL: &'static str = "Receive Supervisor updates from the specified release channel [default: stable]";
pub const HELP_SUP_BLDR_URL: &'static str = "Receive Supervisor updates from Builder at the specified URL [default: https://bldr.habitat.sh]";
pub const HELP_AUTO_UPDATE: &'static str = "Enable automatic updates for the Supervisor itself";
pub const HELP_EVENTS: &'static str = "Name of the service group running a Habitat EventSrv to forward Supervisor and service event data to";
pub const HELP_IDENT_OR_ARTIFACT: &'static str = "Load the given Habitat package as part of the Supervisor startup specified by a package identifier (ex: core/redis) or filepath to a Habitat Artifact (ex: /home/core-redis-3.0.7-21120102031201-x86_64-linux.hart).";
pub const HELP_TERM_NAME: &'static str = "The name of the Supervisor if more than one is running [default: default]";

/// The arguments that every command takes.
pub open spec fn global_arg_specs() -> Seq<ArgSpec> {
    seq![
        ArgSpec { global: true, ..switch(Arg::Verbose, None, Some("v"), HELP_VERBOSE) },
        ArgSpec { global: true, ..switch(Arg::NoColor, Some("no-color"), None, HELP_NO_COLOR) },
    ]
}

fn global_args() -> (args: Vec<ArgSpec>)
    ensures
        args@ == global_arg_specs(),
{
    vec![
        ArgSpec { global: true, ..switch(Arg::Verbose, None, Some("v"), HELP_VERBOSE) },
        ArgSpec { global: true, ..switch(Arg::NoColor, Some("no-color"), None, HELP_NO_COLOR) },
    ]
}

/// The arguments of `load`.
pub open spec fn load_arg_specs(platform: Platform) -> Seq<ArgSpec> {
    let shared = seq![
        required(Arg::PkgIdent, HELP_IDENT),
        ArgSpec { needs: Some(Arg::Environment), ..option(Arg::Application, Some("application"), Some("a"), HELP_APPLICATION) },
        ArgSpec { needs: Some(Arg::Application), ..option(Arg::Environment, Some("environment"), Some("e"), HELP_ENVIRONMENT) },
        option(Arg::Channel, Some("channel"), None, HELP_CHANNEL),
        option(Arg::Group, Some("group"), None, HELP_GROUP),
        ArgSpec { validator: Some(Validator::Url), ..option(Arg::BldrUrl, Some("url"), Some("u"), HELP_BLDR_URL) },
        ArgSpec { validator: Some(Validator::Topology), ..option(Arg::Topology, Some("topology"), Some("t"), HELP_TOPOLOGY) },
        ArgSpec { validator: Some(Validator::UpdateStrategy), ..option(Arg::Strategy, Some("strategy"), Some("s"), HELP_STRATEGY) },
        ArgSpec { multiple: true, ..option(Arg::Bind, Some("bind"), None, HELP_BIND) },
        switch(Arg::Force, Some("force"), Some("f"), HELP_FORCE),
    ];
    match platform {
        Platform::Unix => shared,
        Platform::Windows => shared.push(option(Arg::Password, Some("password"), None, HELP_PASSWORD)),
    }
}

fn load_args(platform: Platform) -> (args: Vec<ArgSpec>)
    ensures
        args@ == load_arg_specs(platform),
{
    let mut args = vec![
        required(Arg::PkgIdent, HELP_IDENT),
        ArgSpec { needs: Some(Arg::Environment), ..option(Arg::Application, Some("application"), Some("a"), HELP_APPLICATION) },
        ArgSpec { needs: Some(Arg::Application), ..option(Arg::Environment, Some("environment"), Some("e"), HELP_ENVIRONMENT) },
        option(Arg::Channel, Some("channel"), None, HELP_CHANNEL),
        option(Arg::Group, Some("group"), None, HELP_GROUP),
        ArgSpec { validator: Some(Validator::Url), ..option(Arg::BldrUrl, Some("url"), Some("u"), HELP_BLDR_URL) },
        ArgSpec { validator: Some(Validator::Topology), ..option(Arg::Topology, Some("topology"), Some("t"), HELP_TOPOLOGY) },
        ArgSpec { validator: Some(Validator::UpdateStrategy), ..option(Arg::Strategy, Some("strategy"), Some("s"), HELP_STRATEGY) },
        ArgSpec { multiple: true, ..option(Arg::Bind, Some("bind"), None, HELP_BIND) },
        switch(Arg::Force, Some("force"), Some("f"), HELP_FORCE),
    ];
    match platform {
        Platform::Unix => {},
        Platform::Windows => {
            args.push(option(Arg::Password, Some("password"), None, HELP_PASSWORD));
        },
    }
    args
}

/// The arguments of `run`.
pub open spec fn run_arg_specs(platform: Platform) -> Seq<ArgSpec> {
    let shared = seq![
        ArgSpec { validator: Some(Validator::ListenGossip), ..option(Arg::ListenGossip, Some("listen-gossip"), None, HELP_LISTEN_GOSSIP) },
        ArgSpec { validator: Some(Validator::ListenHttp), ..option(Arg::ListenHttp, Some("listen-http"), None, HELP_LISTEN_HTTP) },
        ArgSpec { validator: Some(Validator::ListenHttp), ..option(Arg::ListenCtl, Some("listen-ctl"), None, HELP_LISTEN_CTL) },
        option(Arg::Name, Some("override-name"), None, HELP_NAME),
        option(Arg::Organization, Some("org"), None, HELP_ORGANIZATION),
        ArgSpec { multiple: true, ..option(Arg::Peer, Some("peer"), None, HELP_PEER) },
        switch(Arg::PermanentPeer, Some("permanent-peer"), Some("I"), HELP_PERMANENT_PEER),
        ArgSpec { conflicts_with: Some("peer"), ..option(Arg::PeerWatchFile, Some("peer-watch-file"), None, HELP_PEER_WATCH_FILE) },
        option(Arg::Ring, Some("ring"), Some("r"), HELP_RING),
        option(Arg::Channel, Some("channel"), None, HELP_SUP_CHANNEL),
        ArgSpec { validator: Some(Validator::Url), ..option(Arg::BldrUrl, Some("url"), Some("u"), HELP_SUP_BLDR_URL) },
        switch(Arg::AutoUpdate, Some("auto-update"), Some("A"), HELP_AUTO_UPDATE),
        ArgSpec { validator: Some(Validator::ServiceGroup), ..option(Arg::Events, Some("events"), Some("n"), HELP_EVENTS) },
        option(Arg::PkgIdentOrArtifact, None, None, HELP_IDENT_OR_ARTIFACT),
        ArgSpec { needs: Some(Arg::Environment), ..option(Arg::Application, Some("application"), Some("a"), HELP_APPLICATION) },
        ArgSpec { needs: Some(Arg::Application), ..option(Arg::Environment, Some("environment"), Some("e"), HELP_ENVIRONMENT) },
        option(Arg::Group, Some("group"), None, HELP_GROUP),
        ArgSpec { validator: Some(Validator::Topology), ..option(Arg::Topology, Some("topology"), Some("t"), HELP_TOPOLOGY) },
        ArgSpec { validator: Some(Validator::UpdateStrategy), ..option(Arg::Strategy, Some("strategy"), Some("s"), HELP_STRATEGY) },
        ArgSpec { multiple: true, ..option(Arg::Bind, Some("bind"), None, HELP_BIND) },
        switch(Arg::Force, Some("force"), Some("f"), HELP_FORCE),
    ];
    match platform {
        Platform::Unix => shared,
        Platform::Windows => shared.push(option(Arg::Password, Some("password"), None, HELP_PASSWORD)),
    }
}

fn run_args(platform: Platform) -> (args: Vec<ArgSpec>)
    ensures
        args@ == run_arg_specs(platform),
{
    let mut args = vec![
        ArgSpec { validator: Some(Validator::ListenGossip), ..option(Arg::ListenGossip, Some("listen-gossip"), None, HELP_LISTEN_GOSSIP) },
        ArgSpec { validator: Some(Validator::ListenHttp), ..option(Arg::ListenHttp, Some("listen-http"), None, HELP_LISTEN_HTTP) },
        ArgSpec { validator: Some(Validator::ListenHttp), ..option(Arg::ListenCtl, Some("listen-ctl"), None, HELP_LISTEN_CTL) },
        option(Arg::Name, Some("override-name"), None, HELP_NAME),
        option(Arg::Organization, Some("org"), None, HELP_ORGANIZATION),
        ArgSpec { multiple: true, ..option(Arg::Peer, Some("peer"), None, HELP_PEER) },
        switch(Arg::PermanentPeer, Some("permanent-peer"), Some("I"), HELP_PERMANENT_PEER),
        ArgSpec { conflicts_with: Some("peer"), ..option(Arg::PeerWatchFile, Some("peer-watch-file"), None, HELP_PEER_WATCH_FILE) },
        option(Arg::Ring, Some("ring"), Some("r"), HELP_RING),
        option(Arg::Channel, Some("channel"), None, HELP_SUP_CHANNEL),
        ArgSpec { validator: Some(Validator::Url), ..option(Arg::BldrUrl, Some("url"), Some("u"), HELP_SUP_BLDR_URL) },
        switch(Arg::AutoUpdate, Some("auto-update"), Some("A"), HELP_AUTO_UPDATE),
        ArgSpec { validator: Some(Validator::ServiceGroup), ..option(Arg::Events, Some("events"), Some("n"), HELP_EVENTS) },
        option(Arg::PkgIdentOrArtifact, None, None, HELP_IDENT_OR_ARTIFACT),
        ArgSpec { needs: Some(Arg::Environment), ..option(Arg::Application, Some("application"), Some("a"), HELP_APPLICATION) },
        ArgSpec { needs: Some(Arg::Application), ..option(Arg::Environment, Some("environment"), Some("e"), HELP_ENVIRONMENT) },
        option(Arg::Group, Some("group"), None, HELP_GROUP),
        ArgSpec { validator: Some(Validator::Topology), ..option(Arg::Topology, Some("topology"), Some("t"), HELP_TOPOLOGY) },
        ArgSpec { validator: Some(Validator::UpdateStrategy), ..option(Arg::Strategy, Some("strategy"), Some("s"), HELP_STRATEGY) },
        ArgSpec { multiple: true, ..option(Arg::Bind, Some("bind"), None, HELP_BIND) },
        switch(Arg::Force, Some("force"), Some("f"), HELP_FORCE),
    ];
    match platform {
        Platform::Unix => {},
        Platform::Windows => {
            args.push(option(Arg::Password, Some("password"), None, HELP_PASSWORD));
        },
    }
    args
}

/// The help on the identifier that `config` takes.
#[verifier::allow_in_spec]
pub fn config_ident_help(platform: Platform) -> &'static str
    returns
        (match platform {
            Platform::Unix => HELP_CONFIG_IDENT,
            Platform::Windows => HELP_CONFIG_IDENT_WINDOWS,
        }),
{
    match platform {
        Platform::Unix => HELP_CONFIG_IDENT,
        Platform::Windows => HELP_CONFIG_IDENT_WINDOWS,
    }
}

/// The command that ends a Supervisor.
pub open spec fn term_spec() -> CommandSpecView {
    CommandSpecView {
            command: Subcommand::Term,
            about: ABOUT_TERM,
            aliases: Seq::empty(),
            args: seq![option(Arg::Name, Some("override-name"), None, HELP_TERM_NAME)],
        }
}

/// The commands, in their order. Only on Unix can a Supervisor be ended by one.
pub open spec fn cli_commands(platform: Platform) -> Seq<CommandSpecView> {
    let shared = seq![
        CommandSpecView {
            command: Subcommand::Bash,
            about: ABOUT_BASH,
            aliases: seq!["b", "ba", "bas"],
            args: Seq::empty(),
        },
        CommandSpecView {
            command: Subcommand::Config,
            about: ABOUT_CONFIG,
            aliases: seq!["c", "co", "con", "conf", "confi"],
            args: seq![required(Arg::PkgIdent, config_ident_help(platform))],
        },
        CommandSpecView {
            command: Subcommand::Load,
            about: ABOUT_LOAD,
            aliases: seq!["lo", "loa"],
            args: load_arg_specs(platform),
        },
        CommandSpecView {
            command: Subcommand::Unload,
            about: ABOUT_UNLOAD,
            aliases: seq!["un", "unl", "unlo", "unloa"],
            args: seq![required(Arg::PkgIdent, HELP_IDENT)],
        },
        CommandSpecView {
            command: Subcommand::Run,
            about: ABOUT_RUN,
            aliases: seq!["r", "ru"],
            args: run_arg_specs(platform),
        },
        CommandSpecView {
            command: Subcommand::Sh,
            about: ABOUT_SH,
            aliases: Seq::empty(),
            args: Seq::empty(),
        },
        CommandSpecView {
            command: Subcommand::Start,
            about: ABOUT_START,
            aliases: seq!["sta", "star"],
            args: seq![required(Arg::PkgIdent, HELP_IDENT)],
        },
        CommandSpecView {
            command: Subcommand::Status,
            about: ABOUT_STATUS,
            aliases: seq!["stat", "statu", "status"],
            args: seq![option(Arg::PkgIdent, None, None, HELP_IDENT)],
        },
        CommandSpecView {
            command: Subcommand::Stop,
            about: ABOUT_STOP,
            aliases: seq!["sto"],
            args: seq![required(Arg::PkgIdent, HELP_IDENT)],
        },
    ];
    match platform {
        Platform::Unix => shared.push(term_spec()),
        Platform::Windows => shared,
    }
}

/// The command line that the program understands.
pub open spec fn cli_spec(platform: Platform) -> AppSpecView {
    AppSpecView {
        name: "hab-sup",
        about: ABOUT_APP,
        author: AUTHOR,
        versionless_subcommands: true,
        subcommand_required_else_help: true,
        args: global_arg_specs(),
        commands: cli_commands(platform),
    }
}

fn commands(platform: Platform) -> (list: Vec<CommandSpec>)
    ensures
        command_specs(list@) == cli_commands(platform),
{
    let mut list = vec![
        CommandSpec {
            command: Subcommand::Bash,
            about: ABOUT_BASH,
            aliases: vec!["b", "ba", "bas"],
            args: Vec::new(),
        },
        CommandSpec {
            command: Subcommand::Config,
            about: ABOUT_CONFIG,
            aliases: vec!["c", "co", "con", "conf", "confi"],
            args: vec![required(Arg::PkgIdent, config_ident_help(platform))],
        },
        CommandSpec {
            command: Subcommand::Load,
            about: ABOUT_LOAD,
            aliases: vec!["lo", "loa"],
            args: load_args(platform),
        },
        CommandSpec {
            command: Subcommand::Unload,
            about: ABOUT_UNLOAD,
            aliases: vec!["un", "unl", "unlo", "unloa"],
            args: vec![required(Arg::PkgIdent, HELP_IDENT)],
        },
        CommandSpec {
            command: Subcommand::Run,
            about: ABOUT_RUN,
            aliases: vec!["r", "ru"],
            args: run_args(platform),
        },
        CommandSpec {
            command: Subcommand::Sh,
            about: ABOUT_SH,
            aliases: Vec::new(),
            args: Vec::new(),
        },
        CommandSpec {
            command: Subcommand::Start,
            about: ABOUT_START,
            aliases: vec!["sta", "star"],
            args: vec![required(Arg::PkgIdent, HELP_IDENT)],
        },
        CommandSpec {
            command: Subcommand::Status,
            about: ABOUT_STATUS,
            aliases: vec!["stat", "statu", "status"],
            args: vec![option(Arg::PkgIdent, None, None, HELP_IDENT)],
        },
        CommandSpec {
            command: Subcommand::Stop,
            about: ABOUT_STOP,
            aliases: vec!["sto"],
            args: vec![required(Arg::PkgIdent, HELP_IDENT)],
        },
    ];
    match platform {
        Platform::Unix => {
            list.push(
                CommandSpec {
            command: Subcommand::Term,
            about: ABOUT_TERM,
            aliases: Vec::new(),
            args: vec![option(Arg::Name, Some("override-name"), None, HELP_TERM_NAME)],
        },
            );
        },
        Platform::Windows => {},
    }
    proof {
        assert(command_specs(list@) =~~= cli_commands(platform));
    }
    list
}

/// The command line that the program understands on a platform.
pub fn cli(platform: Platform) -> (app: AppSpec)
    ensures
        app@ == cli_spec(platform),
{
    AppSpec {
        name: "hab-sup",
        about: ABOUT_APP,
        author: AUTHOR,
        versionless_subcommands: true,
        subcommand_required_else_help: true,
        args: global_args(),
        commands: commands(platform),
    }
}

} // verus!
