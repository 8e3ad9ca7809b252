//! Settings that are read straight from the command line, with what they fall back to.

use crate::args;
use crate::args::Arg;
use crate::args::ArgMatches;
use crate::domain::Platform;
use crate::text;
use vstd::prelude::*;

verus! {

/// What the program finds around it before it looks at the command line.
#[derive(Debug)]
pub struct Surroundings {
    /// The Builder URL that the environment names.
    pub bldr_url_from_env: Option<String>,
    /// The Builder URL to use where nothing names one.
    pub default_bldr_url: String,
    /// The release channel to use where nothing names one.
    pub default_channel: String,
}

/// What `Surroundings` holds.
pub struct SurroundingsView {
    pub bldr_url_from_env: Option<Seq<char>>,
    pub default_bldr_url: Seq<char>,
    pub default_channel: Seq<char>,
}

impl View for Surroundings {
    type V = SurroundingsView;

    open spec fn view(&self) -> SurroundingsView {
        SurroundingsView {
            bldr_url_from_env: text::opt_text(self.bldr_url_from_env),
            default_bldr_url: self.default_bldr_url@,
            default_channel: self.default_channel@,
        }
    }
}

/// The Builder URL that the user named: on the command line or, failing that, in the
/// environment.
pub open spec fn named_bldr_url(given: args::Given, from_env: Option<Seq<char>>) -> Option<
    Seq<char>,
> {
    match args::value(given, Arg::BldrUrl) {
        Some(url) => Some(url),
        None => from_env,
    }
}

/// The Builder URL to use: the one that the user named or, failing that, the default.
pub open spec fn chosen_bldr_url(given: args::Given, around: SurroundingsView) -> Seq<char> {
    match named_bldr_url(given, around.bldr_url_from_env) {
        Some(url) => url,
        None => around.default_bldr_url,
    }
}

/// The channel to use: the one on the command line or, failing that, the default.
pub open spec fn chosen_channel(given: args::Given, around: SurroundingsView) -> Seq<char> {
    match args::value(given, Arg::Channel) {
        Some(channel) => channel,
        None => around.default_channel,
    }
}

/// The application and environment names, where both were given.
pub open spec fn named_app_env(given: args::Given) -> Option<(Seq<char>, Seq<char>)> {
    match (args::value(given, Arg::Application), args::value(given, Arg::Environment)) {
        (Some(app), Some(env)) => Some((app, env)),
        _ => None,
    }
}

/// The password to encrypt: services run under a user with a password on Windows only.
pub open spec fn named_password(given: args::Given, platform: Platform) -> Option<Seq<char>> {
    match platform {
        Platform::Windows => args::value(given, Arg::Password),
        Platform::Unix => None,
    }
}

/// Resolves a Builder URL. Taken from the command line, the environment, or (failing those) a
/// default value.
pub fn bldr_url(m: &ArgMatches, around: &Surroundings) -> (url: String)
    ensures
        url@ == chosen_bldr_url(m@, around@),
{
    match bldr_url_from_input(m, around.bldr_url_from_env.clone()) {
        Some(url) => url,
        None => around.default_bldr_url.clone(),
    }
}

/// A Builder URL, but only if the user named it on the command line or in the environment.
pub fn bldr_url_from_input(m: &ArgMatches, from_env: Option<String>) -> (url: Option<String>)
    ensures
        text::opt_text(url) == named_bldr_url(m@, text::opt_text(from_env)),
{
    match m.value_of(Arg::BldrUrl) {
        Some(url) => Some(url),
        None => from_env,
    }
}

/// Resolves a channel. Taken from the command line, or (failing that) a default value.
pub fn channel(m: &ArgMatches, around: &Surroundings) -> (channel: String)
    ensures
        channel@ == chosen_channel(m@, around@),
{
    match channel_from_input(m) {
        Some(channel) => channel,
        None => around.default_channel.clone(),
    }
}

/// A channel name, but only if the user gave one on the command line.
pub fn channel_from_input(m: &ArgMatches) -> (channel: Option<String>)
    ensures
        text::opt_text(channel) == args::value(m@, Arg::Channel),
{
    m.value_of(Arg::Channel)
}

/// The service group that the user named.
pub fn get_group_from_input(m: &ArgMatches) -> (group: Option<String>)
    ensures
        text::opt_text(group) == args::value(m@, Arg::Group),
{
    m.value_of(Arg::Group)
}

/// The application and the environment, if the user provides both.
pub fn get_app_env_from_input(m: &ArgMatches) -> (names: Option<(String, String)>)
    ensures
        match names {
            Some((app, env)) => named_app_env(m@) == Some((app@, env@)),
            None => named_app_env(m@) is None,
        },
{
    match (m.value_of(Arg::Application), m.value_of(Arg::Environment)) {
        (Some(app), Some(env)) => Some((app, env)),
        _ => None,
    }
}

/// The text that names the topology.
pub fn get_topology_from_input(m: &ArgMatches) -> (name: Option<String>)
    ensures
        text::opt_text(name) == args::value(m@, Arg::Topology),
{
    m.value_of(Arg::Topology)
}

/// The text that names the update strategy.
pub fn get_strategy_from_input(m: &ArgMatches) -> (name: Option<String>)
    ensures
        text::opt_text(name) == args::value(m@, Arg::Strategy),
{
    m.value_of(Arg::Strategy)
}

/// The texts that describe the bindings, in their order.
pub fn get_binds_from_input(m: &ArgMatches) -> (binds: Vec<String>)
    ensures
        text::texts(binds@) == args::values(m@, Arg::Bind),
{
    match m.values_of(Arg::Bind) {
        Some(list) => text::copy(list),
        None => Vec::new(),
    }
}

/// The directory to take configuration from.
pub fn get_config_from_input(m: &ArgMatches) -> (dir: Option<String>)
    ensures
        text::opt_text(dir) == args::value(m@, Arg::ConfigDir),
{
    m.value_of(Arg::ConfigDir)
}

/// The password to encrypt for the service's user.
pub fn get_password_from_input(m: &ArgMatches, platform: Platform) -> (password: Option<String>)
    ensures
        text::opt_text(password) == named_password(m@, platform),
{
    match platform {
        Platform::Windows => m.value_of(Arg::Password),
        Platform::Unix => None,
    }
}

/// Whether the command turns verbose output on.
pub fn toggle_verbosity(m: &ArgMatches) -> (on: bool)
    ensures
        on == m@.contains_key(Arg::Verbose),
{
    m.is_present(Arg::Verbose)
}

/// Whether the command turns colored output off.
pub fn toggle_color(m: &ArgMatches) -> (off: bool)
    ensures
        off == m@.contains_key(Arg::NoColor),
{
    m.is_present(Arg::NoColor)
}

} // verus!
