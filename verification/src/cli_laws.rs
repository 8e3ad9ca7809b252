//! What holds of the command line that the program understands.

use crate::args;
use crate::args::Arg;
use crate::cli;
use crate::cli::AppSpecView;
use crate::cli::ArgSpec;
use crate::cli::CommandSpecView;
use crate::cli::Subcommand;
use crate::cli::Validator;
use crate::domain::Domain;
use crate::domain::Platform;
use crate::settings;
use crate::svc_load;
use vstd::prelude::*;

verus! {

/// Whether `word` names a command, by its name or by one of its aliases.
pub open spec fn named_by(command: CommandSpecView, word: Seq<char>) -> bool {
    word == command.command.spec_name()@ || exists|k: int|
        0 <= k < command.aliases.len() && (#[trigger] command.aliases[k])@ == word
}

/// The command that a word would belong to, by its first letters.
spec fn owner(word: Seq<char>) -> Subcommand {
    if word[0] == 'b' {
        Subcommand::Bash
    } else if word[0] == 'c' {
        Subcommand::Config
    } else if word[0] == 'l' {
        Subcommand::Load
    } else if word[0] == 'r' {
        Subcommand::Run
    } else if word[0] == 't' {
        Subcommand::Term
    } else if word[0] == 'u' {
        Subcommand::Unload
    } else if word[1] == 'h' {
        Subcommand::Sh
    } else if word[2] == 'o' {
        Subcommand::Stop
    } else if word.len() == 3 || word[3] == 'r' {
        Subcommand::Start
    } else {
        Subcommand::Status
    }
}

proof fn lemma_names()
    ensures
        forall|c: Subcommand| owner((#[trigger] c.spec_name())@) == c,
{
    reveal_strlit("bash");
    reveal_strlit("config");
    reveal_strlit("load");
    reveal_strlit("run");
    reveal_strlit("sh");
    reveal_strlit("start");
    reveal_strlit("status");
    reveal_strlit("stop");
    reveal_strlit("term");
    reveal_strlit("unload");
    assert forall|c: Subcommand| owner((#[trigger] c.spec_name())@) == c by {
        match c {
            Subcommand::Bash => {},
            Subcommand::Config => {},
            Subcommand::Load => {},
            Subcommand::Run => {},
            Subcommand::Sh => {},
            Subcommand::Start => {},
            Subcommand::Status => {},
            Subcommand::Stop => {},
            Subcommand::Term => {},
            Subcommand::Unload => {},
        }
    }
}

/// No two commands have the same name.
pub proof fn law_names_distinct(a: Subcommand, b: Subcommand)
    requires
        a.spec_name()@ == b.spec_name()@,
    ensures
        a == b,
{
    lemma_names();
}

proof fn lemma_aliases(platform: Platform, i: int)
    requires
        0 <= i < cli::cli_commands(platform).len(),
    ensures
        forall|k: int|
            0 <= k < cli::cli_commands(platform)[i].aliases.len() ==> owner(
                (#[trigger] cli::cli_commands(platform)[i].aliases[k])@,
            ) == cli::cli_commands(platform)[i].command,
{
    reveal_strlit("b");
    reveal_strlit("ba");
    reveal_strlit("bas");
    reveal_strlit("c");
    reveal_strlit("co");
    reveal_strlit("con");
    reveal_strlit("conf");
    reveal_strlit("confi");
    reveal_strlit("lo");
    reveal_strlit("loa");
    reveal_strlit("un");
    reveal_strlit("unl");
    reveal_strlit("unlo");
    reveal_strlit("unloa");
    reveal_strlit("r");
    reveal_strlit("ru");
    reveal_strlit("sta");
    reveal_strlit("star");
    reveal_strlit("stat");
    reveal_strlit("statu");
    reveal_strlit("status");
    reveal_strlit("sto");
}

/// Where a command stands in the list.
spec fn place(command: Subcommand) -> int {
    match command {
        Subcommand::Bash => 0,
        Subcommand::Config => 1,
        Subcommand::Load => 2,
        Subcommand::Unload => 3,
        Subcommand::Run => 4,
        Subcommand::Sh => 5,
        Subcommand::Start => 6,
        Subcommand::Status => 7,
        Subcommand::Stop => 8,
        Subcommand::Term => 9,
    }
}

proof fn lemma_places(platform: Platform, i: int)
    requires
        0 <= i < cli::cli_commands(platform).len(),
    ensures
        place(cli::cli_commands(platform)[i].command) == i,
{
}

/// No word names two commands.
pub proof fn law_words_unambiguous(platform: Platform, i: int, j: int, word: Seq<char>)
    requires
        0 <= i < cli::cli_commands(platform).len(),
        0 <= j < cli::cli_commands(platform).len(),
        named_by(cli::cli_commands(platform)[i], word),
        named_by(cli::cli_commands(platform)[j], word),
    ensures
        i == j,
{
    lemma_names();
    lemma_aliases(platform, i);
    lemma_aliases(platform, j);
    lemma_places(platform, i);
    lemma_places(platform, j);
    assert(owner(word) == cli::cli_commands(platform)[i].command);
    assert(owner(word) == cli::cli_commands(platform)[j].command);
}

/// Which command a word names, by its place in the list.
pub open spec fn command_at(platform: Platform, word: Seq<char>) -> Option<int> {
    if exists|i: int|
        0 <= i < cli::cli_commands(platform).len() && named_by(
            #[trigger] cli::cli_commands(platform)[i],
            word,
        ) {
        Some(
            choose|i: int|
                0 <= i < cli::cli_commands(platform).len() && named_by(
                    #[trigger] cli::cli_commands(platform)[i],
                    word,
                ),
        )
    } else {
        None
    }
}

/// The command that a word names, if it names one.
pub open spec fn command_named(platform: Platform, word: Seq<char>) -> Option<Subcommand> {
    match command_at(platform, word) {
        Some(i) => Some(cli::cli_commands(platform)[i].command),
        None => None,
    }
}

/// What a command line stands for whose first word is `word` and that carries `given` after it:
/// a command and its arguments, or `None` where it is refused.
pub open spec fn understood(
    platform: Platform,
    word: Seq<char>,
    given: args::Given,
    checks: Checks,
) -> Option<(Subcommand, args::Given)> {
    match command_at(platform, word) {
        Some(i) => if acceptable(
            cli::cli_spec(platform),
            cli::cli_commands(platform)[i],
            given,
            checks,
        ) {
            Some((cli::cli_commands(platform)[i].command, given))
        } else {
            None
        },
        None => None,
    }
}

/// A command goes by its name and by each of its aliases alike: either names that command, and
/// whatever follows, the command line stands for the same.
pub proof fn law_alias_is_name(
    platform: Platform,
    i: int,
    k: int,
    given: args::Given,
    checks: Checks,
)
    requires
        0 <= i < cli::cli_commands(platform).len(),
        0 <= k < cli::cli_commands(platform)[i].aliases.len(),
    ensures
        ({
            let command = cli::cli_commands(platform)[i];
            let name = command.command.spec_name()@;
            let alias = command.aliases[k]@;
            &&& command_named(platform, name) == Some(command.command)
            &&& command_named(platform, alias) == Some(command.command)
            &&& understood(platform, alias, given, checks) == understood(
                platform,
                name,
                given,
                checks,
            )
        }),
{
    let command = cli::cli_commands(platform)[i];
    let name = command.command.spec_name()@;
    let alias = command.aliases[k]@;
    assert(named_by(command, name));
    assert(named_by(command, alias));
    let by_name = command_at(platform, name)->0;
    let by_alias = command_at(platform, alias)->0;
    law_words_unambiguous(platform, i, by_name, name);
    law_words_unambiguous(platform, i, by_alias, alias);
}

/// Whether `list` declares `arg`.
pub open spec fn declares(list: Seq<ArgSpec>, arg: Arg) -> bool {
    exists|k: int| 0 <= k < list.len() && (#[trigger] list[k]).arg == arg
}

/// A check of values: which text passes which validator.
pub type Checks = spec_fn(Validator, Seq<char>) -> bool;

/// Whether every value of an argument passes its check, where it has one.
pub open spec fn passes(spec: ArgSpec, given: args::Given, checks: Checks) -> bool {
    spec.validator matches Some(validator) ==> forall|j: int|
        0 <= j < args::values(given, spec.arg).len() ==> checks(
            validator,
            #[trigger] args::values(given, spec.arg)[j],
        )
}

/// Whether what a command line carries is what `spec` lets it carry.
pub open spec fn respects(spec: ArgSpec, given: args::Given, checks: Checks) -> bool {
    &&& passes(spec, given, checks)
    &&& spec.required ==> given.contains_key(spec.arg)
    &&& given.contains_key(spec.arg) && spec.takes_value ==> given[spec.arg].len() > 0
    &&& given.contains_key(spec.arg) && !spec.takes_value ==> given[spec.arg].len() == 0
    &&& given.contains_key(spec.arg) && !spec.multiple ==> given[spec.arg].len() <= 1
    &&& given.contains_key(spec.arg) ==> (spec.conflicts_with matches Some(name) ==> forall|a: Arg|
        #[trigger] given.contains_key(a) ==> a.spec_name()@ != name@)
    &&& given.contains_key(spec.arg) ==> (spec.needs matches Some(other) ==> given.contains_key(
        other,
    ))
}

/// Whether a command line with this command may carry what it carries: nothing but declared
/// arguments, all that are required, values where they belong, more than one only where that is
/// allowed, none that fails its check, and with each argument those that it needs and none that it
/// conflicts with.
pub open spec fn acceptable(
    app: AppSpecView,
    command: CommandSpecView,
    given: args::Given,
    checks: Checks,
) -> bool {
    &&& forall|a: Arg| #[trigger]
        given.contains_key(a) ==> declares(command.args, a) || declares(app.args, a)
    &&& forall|k: int| 0 <= k < app.args.len() ==> respects(#[trigger] app.args[k], given, checks)
    &&& forall|k: int| 0 <= k < command.args.len() ==> respects(
        #[trigger] command.args[k],
        given,
        checks,
    )
}

/// Every command that is about one package is given one.
pub proof fn law_package_given(
    platform: Platform,
    i: int,
    given: args::Given,
    checks: Checks,
)
    requires
        0 <= i < cli::cli_spec(platform).commands.len(),
        acceptable(cli::cli_spec(platform), cli::cli_spec(platform).commands[i], given, checks),
    ensures
        ({
            let command = cli::cli_spec(platform).commands[i].command;
            command == Subcommand::Config || command == Subcommand::Load || command
                == Subcommand::Unload || command == Subcommand::Start || command
                == Subcommand::Stop ==> args::value(given, Arg::PkgIdent) is Some
        }),
{
    let spec = cli::cli_spec(platform).commands[i];
    lemma_places(platform, i);
    if i == 1 || i == 2 || i == 3 || i == 6 || i == 8 {
        assert(spec.args[0].arg == Arg::PkgIdent && spec.args[0].required
            && spec.args[0].takes_value);
        assert(respects(spec.args[0], given, checks));
    }
}

/// An application and an environment are given together or not at all.
pub proof fn law_app_env_together(
    platform: Platform,
    i: int,
    given: args::Given,
    checks: Checks,
)
    requires
        0 <= i < cli::cli_spec(platform).commands.len(),
        acceptable(cli::cli_spec(platform), cli::cli_spec(platform).commands[i], given, checks),
    ensures
        given.contains_key(Arg::Application) == given.contains_key(Arg::Environment),
        settings::named_app_env(given) is Some == given.contains_key(Arg::Application),
{
    let app = cli::cli_spec(platform);
    let spec = app.commands[i];
    lemma_places(platform, i);
    if given.contains_key(Arg::Application) || given.contains_key(Arg::Environment) {
        assert(!declares(app.args, Arg::Application) && !declares(app.args, Arg::Environment));
        assert(i == 2 || i == 4);
        if i == 2 {
            assert(spec.args == cli::load_arg_specs(platform));
            assert(respects(spec.args[1], given, checks));
            assert(respects(spec.args[2], given, checks));
        } else {
            assert(spec.args == cli::run_arg_specs(platform));
            assert(respects(spec.args[14], given, checks));
            assert(respects(spec.args[15], given, checks));
        }
    }
}

/// No command takes its configuration from a directory: no warning about that is printed, and
/// the request to load a service names none.
pub proof fn law_no_config_dir<D: Domain>(
    platform: Platform,
    i: int,
    given: args::Given,
    checks: Checks,
    around: settings::SurroundingsView,
)
    requires
        0 <= i < cli::cli_spec(platform).commands.len(),
        acceptable(cli::cli_spec(platform), cli::cli_spec(platform).commands[i], given, checks),
    ensures
        svc_load::load_base(given, around, svc_load::empty_load::<D>()).config_from is None,
        !svc_load::load_plan(given, platform).contains(
            svc_load::LoadStepView::PrintConfigWarning,
        ),
{
    let app = cli::cli_spec(platform);
    let spec = app.commands[i];
    assert(!declares(app.args, Arg::ConfigDir));
    assert(!declares(spec.args, Arg::ConfigDir));
    assert(!given.contains_key(Arg::ConfigDir));
}

/// A password is asked for on Windows alone, so nowhere else is one encrypted.
pub proof fn law_password_on_windows(i: int, given: args::Given, checks: Checks)
    requires
        0 <= i < cli::cli_spec(Platform::Unix).commands.len(),
        acceptable(
            cli::cli_spec(Platform::Unix),
            cli::cli_spec(Platform::Unix).commands[i],
            given,
            checks,
        ),
    ensures
        !given.contains_key(Arg::Password),
{
    let app = cli::cli_spec(Platform::Unix);
    let spec = app.commands[i];
    assert(!declares(app.args, Arg::Password));
    assert(!declares(spec.args, Arg::Password));
}

/// No command declares an argument twice, nor one that every command takes.
pub proof fn law_args_distinct(platform: Platform, i: int, k: int, l: int)
    requires
        0 <= i < cli::cli_spec(platform).commands.len(),
        0 <= k < cli::cli_spec(platform).commands[i].args.len(),
        0 <= l < cli::cli_spec(platform).commands[i].args.len(),
        cli::cli_spec(platform).commands[i].args[k].arg == cli::cli_spec(
            platform,
        ).commands[i].args[l].arg,
    ensures
        k == l,
        !declares(
            cli::cli_spec(platform).args,
            cli::cli_spec(platform).commands[i].args[k].arg,
        ),
{
    let spec = cli::cli_spec(platform).commands[i];
    lemma_places(platform, i);
    if i == 2 {
        assert(spec.args == cli::load_arg_specs(platform));
    } else if i == 4 {
        assert(spec.args == cli::run_arg_specs(platform));
    }
}

/// The check that the values of an argument are put to, by whichever command takes it.
pub open spec fn check_of(arg: Arg) -> Option<Validator> {
    match arg {
        Arg::BldrUrl => Some(Validator::Url),
        Arg::Topology => Some(Validator::Topology),
        Arg::Strategy => Some(Validator::UpdateStrategy),
        Arg::ListenGossip => Some(Validator::ListenGossip),
        Arg::ListenHttp => Some(Validator::ListenHttp),
        Arg::ListenCtl => Some(Validator::ListenHttp),
        Arg::Events => Some(Validator::ServiceGroup),
        _ => None,
    }
}

proof fn lemma_checks(platform: Platform, i: int, k: int)
    requires
        0 <= i < cli::cli_spec(platform).commands.len(),
        0 <= k < cli::cli_spec(platform).commands[i].args.len(),
    ensures
        cli::cli_spec(platform).commands[i].args[k].validator == check_of(
            cli::cli_spec(platform).commands[i].args[k].arg,
        ),
{
    let spec = cli::cli_spec(platform).commands[i];
    lemma_places(platform, i);
    if i == 2 {
        assert(spec.args == cli::load_arg_specs(platform));
    } else if i == 4 {
        assert(spec.args == cli::run_arg_specs(platform));
    }
}

/// Every value on a command line that is accepted passes the check of its argument: one value
/// that fails its check is enough to refuse the command line.
pub proof fn law_values_checked(
    platform: Platform,
    i: int,
    given: args::Given,
    checks: Checks,
    arg: Arg,
    j: int,
)
    requires
        0 <= i < cli::cli_spec(platform).commands.len(),
        acceptable(cli::cli_spec(platform), cli::cli_spec(platform).commands[i], given, checks),
        given.contains_key(arg),
        0 <= j < given[arg].len(),
    ensures
        check_of(arg) matches Some(validator) ==> checks(validator, given[arg][j]),
{
    let app = cli::cli_spec(platform);
    let spec = app.commands[i];
    if check_of(arg) is Some {
        assert(!declares(app.args, arg));
        let k = choose|k: int| 0 <= k < spec.args.len() && (#[trigger] spec.args[k]).arg == arg;
        lemma_checks(platform, i, k);
        assert(respects(spec.args[k], given, checks));
        assert(args::values(given, spec.args[k].arg)[j] == given[arg][j]);
    }
}

/// The long flag of an argument, if it has one.
pub open spec fn long_of(arg: Arg) -> Option<&'static str> {
    match arg {
        Arg::Application => Some("application"),
        Arg::AutoUpdate => Some("auto-update"),
        Arg::Bind => Some("bind"),
        Arg::BldrUrl => Some("url"),
        Arg::Channel => Some("channel"),
        Arg::Environment => Some("environment"),
        Arg::Events => Some("events"),
        Arg::Force => Some("force"),
        Arg::Group => Some("group"),
        Arg::ListenCtl => Some("listen-ctl"),
        Arg::ListenGossip => Some("listen-gossip"),
        Arg::ListenHttp => Some("listen-http"),
        Arg::Name => Some("override-name"),
        Arg::NoColor => Some("no-color"),
        Arg::Organization => Some("org"),
        Arg::Password => Some("password"),
        Arg::Peer => Some("peer"),
        Arg::PeerWatchFile => Some("peer-watch-file"),
        Arg::PermanentPeer => Some("permanent-peer"),
        Arg::Ring => Some("ring"),
        Arg::Strategy => Some("strategy"),
        Arg::Topology => Some("topology"),
        _ => None,
    }
}

/// The short flag of an argument, if it has one.
pub open spec fn short_of(arg: Arg) -> Option<&'static str> {
    match arg {
        Arg::Application => Some("a"),
        Arg::AutoUpdate => Some("A"),
        Arg::BldrUrl => Some("u"),
        Arg::Environment => Some("e"),
        Arg::Events => Some("n"),
        Arg::Force => Some("f"),
        Arg::PermanentPeer => Some("I"),
        Arg::Ring => Some("r"),
        Arg::Strategy => Some("s"),
        Arg::Topology => Some("t"),
        Arg::Verbose => Some("v"),
        _ => None,
    }
}

/// The argument that a long flag stands for, by whichever command takes it.
pub open spec fn long_flag(word: Seq<char>) -> Option<Arg> {
    if word == "application"@ {
        Some(Arg::Application)
    } else if word == "auto-update"@ {
        Some(Arg::AutoUpdate)
    } else if word == "bind"@ {
        Some(Arg::Bind)
    } else if word == "channel"@ {
        Some(Arg::Channel)
    } else if word == "environment"@ {
        Some(Arg::Environment)
    } else if word == "events"@ {
        Some(Arg::Events)
    } else if word == "force"@ {
        Some(Arg::Force)
    } else if word == "group"@ {
        Some(Arg::Group)
    } else if word == "listen-ctl"@ {
        Some(Arg::ListenCtl)
    } else if word == "listen-gossip"@ {
        Some(Arg::ListenGossip)
    } else if word == "listen-http"@ {
        Some(Arg::ListenHttp)
    } else if word == "no-color"@ {
        Some(Arg::NoColor)
    } else if word == "org"@ {
        Some(Arg::Organization)
    } else if word == "override-name"@ {
        Some(Arg::Name)
    } else if word == "password"@ {
        Some(Arg::Password)
    } else if word == "peer"@ {
        Some(Arg::Peer)
    } else if word == "peer-watch-file"@ {
        Some(Arg::PeerWatchFile)
    } else if word == "permanent-peer"@ {
        Some(Arg::PermanentPeer)
    } else if word == "ring"@ {
        Some(Arg::Ring)
    } else if word == "strategy"@ {
        Some(Arg::Strategy)
    } else if word == "topology"@ {
        Some(Arg::Topology)
    } else if word == "url"@ {
        Some(Arg::BldrUrl)
    } else {
        None
    }
}

/// The argument that a short flag stands for, by whichever command takes it.
pub open spec fn short_flag(word: Seq<char>) -> Option<Arg> {
    if word == "A"@ {
        Some(Arg::AutoUpdate)
    } else if word == "I"@ {
        Some(Arg::PermanentPeer)
    } else if word == "a"@ {
        Some(Arg::Application)
    } else if word == "e"@ {
        Some(Arg::Environment)
    } else if word == "f"@ {
        Some(Arg::Force)
    } else if word == "n"@ {
        Some(Arg::Events)
    } else if word == "r"@ {
        Some(Arg::Ring)
    } else if word == "s"@ {
        Some(Arg::Strategy)
    } else if word == "t"@ {
        Some(Arg::Topology)
    } else if word == "u"@ {
        Some(Arg::BldrUrl)
    } else if word == "v"@ {
        Some(Arg::Verbose)
    } else {
        None
    }
}

proof fn lemma_long_flags(arg: Arg)
    ensures
        long_of(arg) matches Some(flag) ==> long_flag(flag@) == Some(arg),
{
    reveal_strlit("application");
    reveal_strlit("auto-update");
    reveal_strlit("bind");
    reveal_strlit("channel");
    reveal_strlit("environment");
    reveal_strlit("events");
    reveal_strlit("force");
    reveal_strlit("group");
    reveal_strlit("listen-ctl");
    reveal_strlit("listen-gossip");
    reveal_strlit("listen-http");
    reveal_strlit("no-color");
    reveal_strlit("org");
    reveal_strlit("override-name");
    reveal_strlit("password");
    reveal_strlit("peer");
    reveal_strlit("peer-watch-file");
    reveal_strlit("permanent-peer");
    reveal_strlit("ring");
    reveal_strlit("strategy");
    reveal_strlit("topology");
    reveal_strlit("url");
    assert("application"@.len() == 11);
    assert("auto-update"@.len() == 11);
    assert("bind"@.len() == 4);
    assert("channel"@.len() == 7);
    assert("environment"@.len() == 11);
    assert("events"@.len() == 6);
    assert("force"@.len() == 5);
    assert("group"@.len() == 5);
    assert("listen-ctl"@.len() == 10);
    assert("listen-gossip"@.len() == 13);
    assert("listen-http"@.len() == 11);
    assert("no-color"@.len() == 8);
    assert("org"@.len() == 3);
    assert("override-name"@.len() == 13);
    assert("password"@.len() == 8);
    assert("peer"@.len() == 4);
    assert("peer-watch-file"@.len() == 15);
    assert("permanent-peer"@.len() == 14);
    assert("ring"@.len() == 4);
    assert("strategy"@.len() == 8);
    assert("topology"@.len() == 8);
    assert("url"@.len() == 3);
    assert("application"@[1] == 'p');
    assert("auto-update"@[1] == 'u');
    assert("application"@[0] == 'a');
    assert("environment"@[0] == 'e');
    assert("listen-http"@[0] == 'l');
    assert("auto-update"@[0] == 'a');
    assert("bind"@[0] == 'b');
    assert("peer"@[0] == 'p');
    assert("ring"@[0] == 'r');
    assert("force"@[0] == 'f');
    assert("group"@[0] == 'g');
    assert("listen-gossip"@[0] == 'l');
    assert("override-name"@[0] == 'o');
    assert("no-color"@[0] == 'n');
    assert("password"@[0] == 'p');
    assert("strategy"@[0] == 's');
    assert("topology"@[0] == 't');
    assert("org"@[0] == 'o');
    assert("url"@[0] == 'u');
}

proof fn lemma_short_flags(arg: Arg)
    ensures
        short_of(arg) matches Some(flag) ==> short_flag(flag@) == Some(arg),
{
    reveal_strlit("A");
    reveal_strlit("I");
    reveal_strlit("a");
    reveal_strlit("e");
    reveal_strlit("f");
    reveal_strlit("n");
    reveal_strlit("r");
    reveal_strlit("s");
    reveal_strlit("t");
    reveal_strlit("u");
    reveal_strlit("v");
    assert("A"@[0] == 'A');
    assert("I"@[0] == 'I');
    assert("a"@[0] == 'a');
    assert("e"@[0] == 'e');
    assert("f"@[0] == 'f');
    assert("n"@[0] == 'n');
    assert("r"@[0] == 'r');
    assert("s"@[0] == 's');
    assert("t"@[0] == 't');
    assert("u"@[0] == 'u');
    assert("v"@[0] == 'v');
}

/// Whether a command takes an argument, apart from those that every command takes.
pub open spec fn takes(command: Subcommand, platform: Platform, arg: Arg) -> bool {
    match command {
        Subcommand::Bash | Subcommand::Sh => false,
        Subcommand::Config | Subcommand::Unload | Subcommand::Start | Subcommand::Status
        | Subcommand::Stop => arg == Arg::PkgIdent,
        Subcommand::Term => arg == Arg::Name,
        Subcommand::Load => match arg {
            Arg::PkgIdent | Arg::Application | Arg::Environment | Arg::Channel | Arg::Group | Arg::BldrUrl | Arg::Topology | Arg::Strategy | Arg::Bind | Arg::Force => true,
            Arg::Password => platform == Platform::Windows,
            _ => false,
        },
        Subcommand::Run => match arg {
            Arg::ListenGossip | Arg::ListenHttp | Arg::ListenCtl | Arg::Name | Arg::Organization | Arg::Peer | Arg::PermanentPeer | Arg::PeerWatchFile | Arg::Ring | Arg::Channel | Arg::BldrUrl | Arg::AutoUpdate | Arg::Events | Arg::PkgIdentOrArtifact | Arg::Application | Arg::Environment | Arg::Group | Arg::Topology | Arg::Strategy | Arg::Bind | Arg::Force => true,
            Arg::Password => platform == Platform::Windows,
            _ => false,
        },
    }
}

/// The words that a command goes by beside its name.
pub open spec fn aliases_of(command: Subcommand) -> Seq<&'static str> {
    match command {
        Subcommand::Bash => seq!["b", "ba", "bas"],
        Subcommand::Config => seq!["c", "co", "con", "conf", "confi"],
        Subcommand::Load => seq!["lo", "loa"],
        Subcommand::Unload => seq!["un", "unl", "unlo", "unloa"],
        Subcommand::Run => seq!["r", "ru"],
        Subcommand::Start => seq!["sta", "star"],
        Subcommand::Status => seq!["stat", "statu", "status"],
        Subcommand::Stop => seq!["sto"],
        Subcommand::Sh | Subcommand::Term => Seq::empty(),
    }
}

/// What a command is for, as its help says it.
pub open spec fn about_of(command: Subcommand) -> &'static str {
    match command {
        Subcommand::Bash => "Start an interactive Bash-like shell",
        Subcommand::Config => "Displays the default configuration options for a service",
        Subcommand::Load => "Load a service to be started and supervised by Habitat from a package identifier. If an installed package doesn't satisfy the given package identifier, a suitable package will be installed from Builder.",
        Subcommand::Unload => "Unload a service loaded by the Habitat Supervisor. If the service is running it will additionally be stopped.",
        Subcommand::Run => "Run the Habitat Supervisor",
        Subcommand::Sh => "Start an interactive Bourne-like shell",
        Subcommand::Start => "Start a loaded, but stopped, Habitat service.",
        Subcommand::Status => "Query the status of Habitat services.",
        Subcommand::Stop => "Stop a running Habitat service.",
        Subcommand::Term => "Gracefully terminate the Habitat Supervisor and all of its running services",
    }
}

/// What an argument of a command is for, as its help says it.
pub open spec fn help_of(command: Subcommand, platform: Platform, arg: Arg) -> &'static str {
    match (command, arg) {
        (Subcommand::Config, Arg::PkgIdent) => match platform {
            Platform::Unix => "A package identifier (ex: core/redis)",
            Platform::Windows => "A package identifier (ex: core/redis, core/busybox-static/1.42.2)",
        },
        (_, Arg::PkgIdent) => "A Habitat package identifier (ex: core/redis)",
        (Subcommand::Term, Arg::Name) => "The name of the Supervisor if more than one is running [default: default]",
        (_, Arg::Application) => "Application name; [default: not set].",
        (_, Arg::Environment) => "Environment name; [default: not set].",
        (Subcommand::Load, Arg::Channel) => "Receive package updates from the specified release channel [default: stable]",
        (_, Arg::Group) => "The service group; shared config and topology [default: default].",
        (Subcommand::Load, Arg::BldrUrl) => "Receive package updates from Builder at the specified URL [default: https://bldr.habitat.sh]",
        (_, Arg::Topology) => "Service topology; [default: none]",
        (_, Arg::Strategy) => "The update strategy; [default: none] [values: none, at-once, rolling]",
        (_, Arg::Bind) => "One or more service groups to bind to a configuration",
        (_, Arg::Force) => "Load or reload an already loaded service. If the service was previously loaded and running this operation will also restart the service",
        (_, Arg::Password) => "Password of the service user",
        (_, Arg::ListenGossip) => "The listen address for the gossip system [default: 0.0.0.0:9638]",
        (_, Arg::ListenHttp) => "The listen address for the HTTP Gateway [default: 0.0.0.0:9631]",
        (_, Arg::ListenCtl) => "The listen address for the Control Gateway [default: 0.0.0.0:9632]",
        (_, Arg::Name) => "The name of the Supervisor if launching more than one [default: default]",
        (_, Arg::Organization) => "The organization that the Supervisor and its subsequent services are part of [default: default]",
        (_, Arg::Peer) => "The listen address of an initial peer (IP[:PORT])",
        (_, Arg::PermanentPeer) => "If this Supervisor is a permanent peer",
        (_, Arg::PeerWatchFile) => "Watch this file for connecting to the ring",
        (_, Arg::Ring) => "Ring key name",
        (Subcommand::Run, Arg::Channel) => "Receive Supervisor updates from the specified release channel [default: stable]",
        (Subcommand::Run, Arg::BldrUrl) => "Receive Supervisor updates from Builder at the specified URL [default: https://bldr.habitat.sh]",
        (_, Arg::AutoUpdate) => "Enable automatic updates for the Supervisor itself",
        (_, Arg::Events) => "Name of the service group running a Habitat EventSrv to forward Supervisor and service event data to",
        (_, Arg::PkgIdentOrArtifact) => "Load the given Habitat package as part of the Supervisor startup specified by a package identifier (ex: core/redis) or filepath to a Habitat Artifact (ex: /home/core-redis-3.0.7-21120102031201-x86_64-linux.hart).",
        (_, Arg::Verbose) => "Verbose output; shows line numbers",
        (_, Arg::NoColor) => "Turn ANSI color off",
        _ => "",
    }
}


/// Every flag stands for the argument that it is documented for, whichever command takes it.
pub proof fn law_flags(platform: Platform, i: int, k: int)
    requires
        0 <= i < cli::cli_spec(platform).commands.len(),
        0 <= k < cli::cli_spec(platform).commands[i].args.len(),
    ensures
        ({
            let spec = cli::cli_spec(platform).commands[i].args[k];
            &&& spec.long == long_of(spec.arg)
            &&& spec.short == short_of(spec.arg)
            &&& spec.long matches Some(flag) ==> long_flag(flag@) == Some(spec.arg)
            &&& spec.short matches Some(flag) ==> short_flag(flag@) == Some(spec.arg)
        }),
{
    let command = cli::cli_spec(platform).commands[i];
    let spec = command.args[k];
    lemma_places(platform, i);
    if i == 2 {
        assert(command.args == cli::load_arg_specs(platform));
    } else if i == 4 {
        assert(command.args == cli::run_arg_specs(platform));
    }
    lemma_long_flags(spec.arg);
    lemma_short_flags(spec.arg);
}

/// The flags that every command takes are `-v` for verbose output and `--no-color`, and neither is
/// a flag of anything else.
pub proof fn law_global_flags(platform: Platform, i: int, k: int)
    requires
        0 <= i < cli::cli_spec(platform).commands.len(),
        0 <= k < cli::cli_spec(platform).commands[i].args.len(),
    ensures
        ({
            let app = cli::cli_spec(platform);
            let spec = app.commands[i].args[k];
            &&& app.args.len() == 2
            &&& app.args[0].arg == Arg::Verbose && app.args[0].short == Some("v")
                && app.args[0].long is None
            &&& app.args[1].arg == Arg::NoColor && app.args[1].long == Some("no-color")
                && app.args[1].short is None
            &&& app.args[0].global && !app.args[0].takes_value && !app.args[0].required
                && app.args[0].needs is None && app.args[0].validator is None
                && app.args[0].conflicts_with is None
            &&& app.args[1].global && !app.args[1].takes_value && !app.args[1].required
                && app.args[1].needs is None && app.args[1].validator is None
                && app.args[1].conflicts_with is None
            &&& spec.short matches Some(flag) ==> flag@ != "v"@
            &&& spec.long matches Some(flag) ==> flag@ != "no-color"@
        }),
{
    let spec = cli::cli_spec(platform).commands[i].args[k];
    law_flags(platform, i, k);
    law_args_distinct(platform, i, k, k);
    lemma_short_flags(Arg::Verbose);
    lemma_long_flags(Arg::NoColor);
    assert(declares(cli::cli_spec(platform).args, Arg::Verbose)) by {
        assert(cli::cli_spec(platform).args[0].arg == Arg::Verbose);
    }
    assert(declares(cli::cli_spec(platform).args, Arg::NoColor)) by {
        assert(cli::cli_spec(platform).args[1].arg == Arg::NoColor);
    }
}

/// No flag of a command stands for two of its arguments.
pub proof fn law_flags_unambiguous(platform: Platform, i: int, k: int, l: int)
    requires
        0 <= i < cli::cli_spec(platform).commands.len(),
        0 <= k < cli::cli_spec(platform).commands[i].args.len(),
        0 <= l < cli::cli_spec(platform).commands[i].args.len(),
    ensures
        ({
            let one = cli::cli_spec(platform).commands[i].args[k];
            let other = cli::cli_spec(platform).commands[i].args[l];
            &&& one.long is Some && other.long is Some && one.long->0@ == other.long->0@ ==> k == l
            &&& one.short is Some && other.short is Some && one.short->0@ == other.short->0@ ==> k
                == l
        }),
{
    let one = cli::cli_spec(platform).commands[i].args[k];
    let other = cli::cli_spec(platform).commands[i].args[l];
    law_flags(platform, i, k);
    law_flags(platform, i, l);
    if one.arg == other.arg {
        law_args_distinct(platform, i, k, l);
    }
}

/// A command takes the arguments that are documented for it, and no others: so every flag of such
/// an argument is one of its flags.
pub proof fn law_arguments(platform: Platform, i: int, arg: Arg)
    requires
        0 <= i < cli::cli_spec(platform).commands.len(),
    ensures
        declares(cli::cli_spec(platform).commands[i].args, arg) <==> takes(
            cli::cli_spec(platform).commands[i].command,
            platform,
            arg,
        ),
{
    let spec = cli::cli_spec(platform).commands[i];
    lemma_places(platform, i);
    if i == 2 {
        assert(spec.args == cli::load_arg_specs(platform));
        lemma_load_declares(platform, arg);
    } else if i == 4 {
        assert(spec.args == cli::run_arg_specs(platform));
        lemma_run_declares(platform, arg);
    } else if takes(spec.command, platform, arg) {
        assert(spec.args[0].arg == arg);
    }
}

proof fn lemma_load_declares(platform: Platform, arg: Arg)
    ensures
        declares(cli::load_arg_specs(platform), arg) <==> takes(Subcommand::Load, platform, arg),
{
    let args = cli::load_arg_specs(platform);
    assert(args[0].arg == Arg::PkgIdent);
    assert(args[1].arg == Arg::Application);
    assert(args[2].arg == Arg::Environment);
    assert(args[3].arg == Arg::Channel);
    assert(args[4].arg == Arg::Group);
    assert(args[5].arg == Arg::BldrUrl);
    assert(args[6].arg == Arg::Topology);
    assert(args[7].arg == Arg::Strategy);
    assert(args[8].arg == Arg::Bind);
    assert(args[9].arg == Arg::Force);
    if platform == Platform::Windows {
        assert(args[10].arg == Arg::Password);
    }
}

proof fn lemma_run_declares(platform: Platform, arg: Arg)
    ensures
        declares(cli::run_arg_specs(platform), arg) <==> takes(Subcommand::Run, platform, arg),
{
    let args = cli::run_arg_specs(platform);
    assert(args[0].arg == Arg::ListenGossip);
    assert(args[1].arg == Arg::ListenHttp);
    assert(args[2].arg == Arg::ListenCtl);
    assert(args[3].arg == Arg::Name);
    assert(args[4].arg == Arg::Organization);
    assert(args[5].arg == Arg::Peer);
    assert(args[6].arg == Arg::PermanentPeer);
    assert(args[7].arg == Arg::PeerWatchFile);
    assert(args[8].arg == Arg::Ring);
    assert(args[9].arg == Arg::Channel);
    assert(args[10].arg == Arg::BldrUrl);
    assert(args[11].arg == Arg::AutoUpdate);
    assert(args[12].arg == Arg::Events);
    assert(args[13].arg == Arg::PkgIdentOrArtifact);
    assert(args[14].arg == Arg::Application);
    assert(args[15].arg == Arg::Environment);
    assert(args[16].arg == Arg::Group);
    assert(args[17].arg == Arg::Topology);
    assert(args[18].arg == Arg::Strategy);
    assert(args[19].arg == Arg::Bind);
    assert(args[20].arg == Arg::Force);
    if platform == Platform::Windows {
        assert(args[21].arg == Arg::Password);
    }
}

/// An argument has a value unless it is a switch. A package must be given to every command but
/// `status` that takes one. Peers and bindings can be given more than once, and nothing else can.
/// An application and an environment need one another, and nothing else needs anything.
pub proof fn law_argument_shape(platform: Platform, i: int, k: int)
    requires
        0 <= i < cli::cli_spec(platform).commands.len(),
        0 <= k < cli::cli_spec(platform).commands[i].args.len(),
    ensures
        ({
            let command = cli::cli_spec(platform).commands[i].command;
            let spec = cli::cli_spec(platform).commands[i].args[k];
            &&& spec.takes_value <==> !(spec.arg == Arg::Force || spec.arg == Arg::AutoUpdate
                || spec.arg == Arg::PermanentPeer)
            &&& spec.required <==> spec.arg == Arg::PkgIdent && command != Subcommand::Status
            &&& spec.multiple <==> spec.arg == Arg::Peer || spec.arg == Arg::Bind
            &&& !spec.global
            &&& spec.needs == (match spec.arg {
                Arg::Application => Some(Arg::Environment),
                Arg::Environment => Some(Arg::Application),
                _ => None,
            })
            &&& spec.conflicts_with == (if spec.arg == Arg::PeerWatchFile {
                Some("peer")
            } else {
                None
            })
            &&& spec.validator == check_of(spec.arg)
        }),
{
    let command = cli::cli_spec(platform).commands[i];
    lemma_places(platform, i);
    lemma_checks(platform, i, k);
    if i == 2 {
        assert(command.args == cli::load_arg_specs(platform));
    } else if i == 4 {
        assert(command.args == cli::run_arg_specs(platform));
    }
}

/// Every command is there on every system, apart from `term`, which is there on Unix alone.
pub proof fn law_commands(platform: Platform, command: Subcommand)
    ensures
        (exists|i: int|
            0 <= i < cli::cli_spec(platform).commands.len() && (
            #[trigger] cli::cli_spec(platform).commands[i]).command == command) <==> command
            != Subcommand::Term || platform == Platform::Unix,
{
    let commands = cli::cli_spec(platform).commands;
    if command != Subcommand::Term || platform == Platform::Unix {
        assert(commands[place(command)].command == command);
    } else {
        assert forall|i: int| 0 <= i < commands.len() implies (#[trigger] commands[i]).command
            != command by {
            lemma_places(platform, i);
        }
    }
}

/// The names of the commands and the words that each goes by beside its name.
pub proof fn law_command_words(platform: Platform, i: int)
    requires
        0 <= i < cli::cli_spec(platform).commands.len(),
    ensures
        cli::cli_spec(platform).commands[i].aliases == aliases_of(
            cli::cli_spec(platform).commands[i].command,
        ),
        Subcommand::Bash.spec_name() == "bash",
        Subcommand::Config.spec_name() == "config",
        Subcommand::Load.spec_name() == "load",
        Subcommand::Run.spec_name() == "run",
        Subcommand::Sh.spec_name() == "sh",
        Subcommand::Start.spec_name() == "start",
        Subcommand::Status.spec_name() == "status",
        Subcommand::Stop.spec_name() == "stop",
        Subcommand::Term.spec_name() == "term",
        Subcommand::Unload.spec_name() == "unload",
{
    lemma_places(platform, i);
}

/// No two arguments go by the same name.
pub proof fn law_argument_names(a: Arg, b: Arg)
    requires
        a.spec_name()@ == b.spec_name()@,
    ensures
        a == b,
{
    lemma_argument_names(a);
    lemma_argument_names(b);
}

/// The help says of every command and of every argument what it is for.
pub proof fn law_help(platform: Platform, i: int, k: int)
    requires
        0 <= i < cli::cli_spec(platform).commands.len(),
    ensures
        ({
            let app = cli::cli_spec(platform);
            let command = app.commands[i];
            &&& app.name == "hab-sup"
            &&& app.about == "The Habitat Supervisor"
            &&& app.author == "\nAuthors: The Habitat Maintainers <humans@habitat.sh>\n"
            &&& app.versionless_subcommands && app.subcommand_required_else_help
            &&& app.args[0].help == "Verbose output; shows line numbers"
            &&& app.args[1].help == "Turn ANSI color off"
            &&& command.about == about_of(command.command)
            &&& 0 <= k < command.args.len() ==> command.args[k].help == help_of(
                command.command,
                platform,
                command.args[k].arg,
            )
        }),
{
    let command = cli::cli_spec(platform).commands[i];
    lemma_places(platform, i);
    if i == 2 {
        assert(command.args == cli::load_arg_specs(platform));
    } else if i == 4 {
        assert(command.args == cli::run_arg_specs(platform));
    }
}

/// The argument that a name would belong to.
spec fn named_arg(word: Seq<char>) -> Option<Arg> {
    if word == "APPLICATION"@ {
        Some(Arg::Application)
    } else if word == "AUTO_UPDATE"@ {
        Some(Arg::AutoUpdate)
    } else if word == "BIND"@ {
        Some(Arg::Bind)
    } else if word == "BLDR_URL"@ {
        Some(Arg::BldrUrl)
    } else if word == "CHANNEL"@ {
        Some(Arg::Channel)
    } else if word == "CONFIG_DIR"@ {
        Some(Arg::ConfigDir)
    } else if word == "ENVIRONMENT"@ {
        Some(Arg::Environment)
    } else if word == "EVENTS"@ {
        Some(Arg::Events)
    } else if word == "FORCE"@ {
        Some(Arg::Force)
    } else if word == "GROUP"@ {
        Some(Arg::Group)
    } else if word == "LISTEN_CTL"@ {
        Some(Arg::ListenCtl)
    } else if word == "LISTEN_GOSSIP"@ {
        Some(Arg::ListenGossip)
    } else if word == "LISTEN_HTTP"@ {
        Some(Arg::ListenHttp)
    } else if word == "NAME"@ {
        Some(Arg::Name)
    } else if word == "NO_COLOR"@ {
        Some(Arg::NoColor)
    } else if word == "ORGANIZATION"@ {
        Some(Arg::Organization)
    } else if word == "PASSWORD"@ {
        Some(Arg::Password)
    } else if word == "PEER"@ {
        Some(Arg::Peer)
    } else if word == "PEER_WATCH_FILE"@ {
        Some(Arg::PeerWatchFile)
    } else if word == "PERMANENT_PEER"@ {
        Some(Arg::PermanentPeer)
    } else if word == "PKG_IDENT"@ {
        Some(Arg::PkgIdent)
    } else if word == "PKG_IDENT_OR_ARTIFACT"@ {
        Some(Arg::PkgIdentOrArtifact)
    } else if word == "RING"@ {
        Some(Arg::Ring)
    } else if word == "STRATEGY"@ {
        Some(Arg::Strategy)
    } else if word == "TOPOLOGY"@ {
        Some(Arg::Topology)
    } else if word == "VERBOSE"@ {
        Some(Arg::Verbose)
    } else {
        None
    }
}

proof fn lemma_argument_names(arg: Arg)
    ensures
        named_arg(arg.spec_name()@) == Some(arg),
{
    reveal_strlit("APPLICATION");
    reveal_strlit("AUTO_UPDATE");
    reveal_strlit("BIND");
    reveal_strlit("BLDR_URL");
    reveal_strlit("CHANNEL");
    reveal_strlit("CONFIG_DIR");
    reveal_strlit("ENVIRONMENT");
    reveal_strlit("EVENTS");
    reveal_strlit("FORCE");
    reveal_strlit("GROUP");
    reveal_strlit("LISTEN_CTL");
    reveal_strlit("LISTEN_GOSSIP");
    reveal_strlit("LISTEN_HTTP");
    reveal_strlit("NAME");
    reveal_strlit("NO_COLOR");
    reveal_strlit("ORGANIZATION");
    reveal_strlit("PASSWORD");
    reveal_strlit("PEER");
    reveal_strlit("PEER_WATCH_FILE");
    reveal_strlit("PERMANENT_PEER");
    reveal_strlit("PKG_IDENT");
    reveal_strlit("PKG_IDENT_OR_ARTIFACT");
    reveal_strlit("RING");
    reveal_strlit("STRATEGY");
    reveal_strlit("TOPOLOGY");
    reveal_strlit("VERBOSE");
    assert("APPLICATION"@.len() == 11);
    assert("AUTO_UPDATE"@.len() == 11);
    assert("BIND"@.len() == 4);
    assert("BLDR_URL"@.len() == 8);
    assert("CHANNEL"@.len() == 7);
    assert("CONFIG_DIR"@.len() == 10);
    assert("ENVIRONMENT"@.len() == 11);
    assert("EVENTS"@.len() == 6);
    assert("FORCE"@.len() == 5);
    assert("GROUP"@.len() == 5);
    assert("LISTEN_CTL"@.len() == 10);
    assert("LISTEN_GOSSIP"@.len() == 13);
    assert("LISTEN_HTTP"@.len() == 11);
    assert("NAME"@.len() == 4);
    assert("NO_COLOR"@.len() == 8);
    assert("ORGANIZATION"@.len() == 12);
    assert("PASSWORD"@.len() == 8);
    assert("PEER"@.len() == 4);
    assert("PEER_WATCH_FILE"@.len() == 15);
    assert("PERMANENT_PEER"@.len() == 14);
    assert("PKG_IDENT"@.len() == 9);
    assert("PKG_IDENT_OR_ARTIFACT"@.len() == 21);
    assert("RING"@.len() == 4);
    assert("STRATEGY"@.len() == 8);
    assert("TOPOLOGY"@.len() == 8);
    assert("VERBOSE"@.len() == 7);
    assert("APPLICATION"@[1] == 'P');
    assert("AUTO_UPDATE"@[1] == 'U');
    assert("APPLICATION"@[0] == 'A');
    assert("ENVIRONMENT"@[0] == 'E');
    assert("LISTEN_HTTP"@[0] == 'L');
    assert("AUTO_UPDATE"@[0] == 'A');
    assert("BIND"@[0] == 'B');
    assert("NAME"@[0] == 'N');
    assert("PEER"@[0] == 'P');
    assert("RING"@[0] == 'R');
    assert("BLDR_URL"@[0] == 'B');
    assert("NO_COLOR"@[0] == 'N');
    assert("PASSWORD"@[0] == 'P');
    assert("STRATEGY"@[0] == 'S');
    assert("TOPOLOGY"@[0] == 'T');
    assert("CHANNEL"@[0] == 'C');
    assert("VERBOSE"@[0] == 'V');
    assert("CONFIG_DIR"@[0] == 'C');
    assert("LISTEN_CTL"@[0] == 'L');
    assert("FORCE"@[0] == 'F');
    assert("GROUP"@[0] == 'G');
}

} // verus!
