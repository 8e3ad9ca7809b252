//! What holds of a Supervisor on its way up, from its first step to its last.

use crate::args;
use crate::args::Arg;
use crate::boot::ExitStatus;
use crate::config_laws;
use crate::domain::Domain;
use crate::domain::Platform;
use crate::run;
use crate::run::LaunchProgressView;
use crate::run::LaunchView;
use crate::run::RunReplyView;
use crate::run::RunStepView;
use crate::settings;
use crate::svc_load;
use crate::svc_load::LoadRunView;
use crate::svc_load::SvcLoadView;
use crate::svc_load_laws;
use crate::svc_load_laws::LoadOutcomes;
use vstd::prelude::*;

verus! {

/// What the steps of one start come to.
pub struct RunOutcomes<D: Domain> {
    pub config: Result<(), D::Error>,
    pub running: Result<bool, D::Error>,
    pub manager: Result<(), D::Error>,
    pub load: Result<SvcLoadView<D>, D::Error>,
    /// The package identifier that a text is, or `None` where it is the path of an artifact.
    pub source: spec_fn(Seq<char>) -> Result<Option<D::Ident>, D::Error>,
    /// The package identifier found in an artifact that is installed with the help of Builder at
    /// a URL, from a channel.
    pub installed: spec_fn(Seq<char>, Seq<char>, Seq<char>) -> Result<D::Ident, D::Error>,
}

impl<D: Domain> RunOutcomes<D> {
    /// The reply to `step`.
    pub open spec fn reply(self, step: RunStepView) -> RunReplyView<D> {
        match step {
            RunStepView::SetVerbose => RunReplyView::Done,
            RunStepView::SetNoColor => RunReplyView::Done,
            RunStepView::BuildConfig => match self.config {
                Ok(()) => RunReplyView::Done,
                Err(e) => RunReplyView::Failed(e),
            },
            RunStepView::CheckRunning => match self.running {
                Ok(already) => RunReplyView::Running(already),
                Err(e) => RunReplyView::Failed(e),
            },
            RunStepView::LoadManager => match self.manager {
                Ok(()) => RunReplyView::Done,
                Err(e) => RunReplyView::Failed(e),
            },
            RunStepView::FillLoad => match self.load {
                Ok(msg) => RunReplyView::Load(msg),
                Err(e) => RunReplyView::Failed(e),
            },
            RunStepView::ParseSource(pkg) => match (self.source)(pkg) {
                Ok(Some(ident)) => RunReplyView::Ident(ident),
                Ok(None) => RunReplyView::Archive,
                Err(e) => RunReplyView::Failed(e),
            },
            RunStepView::InstallArchive { source, bldr_url, channel } => match (self.installed)(
                source,
                bldr_url,
                channel,
            ) {
                Ok(ident) => RunReplyView::Ident(ident),
                Err(e) => RunReplyView::Failed(e),
            },
            RunStepView::RunManager => RunReplyView::Done,
        }
    }

    /// The package of the initial service `pkg`: the one that is named, or the very one found in
    /// the artifact that is named, installed from the Builder URL and the channel of the request.
    pub open spec fn package(
        self,
        pkg: Seq<char>,
        bldr_url: Seq<char>,
        channel: Seq<char>,
    ) -> Result<D::Ident, D::Error> {
        match (self.source)(pkg) {
            Ok(Some(ident)) => Ok(ident),
            Ok(None) => (self.installed)(pkg, bldr_url, channel),
            Err(e) => Err(e),
        }
    }
}

/// How a start ends.
#[verifier::ext_equal]
pub enum Launched<D: Domain> {
    /// The Supervisor runs, with this request for an initial service.
    Runs(Option<SvcLoadView<D>>),
    /// It is given up with the error.
    Failed(D::Error),
    /// The program exits with the status.
    Exits(ExitStatus),
}

/// A bound on the steps that `todo` leads to: a source may have to be installed.
pub open spec fn work(todo: Seq<RunStepView>) -> nat
    decreases todo.len(),
{
    if todo.len() == 0 {
        0
    } else if todo[0] is ParseSource {
        2 + work(todo.drop_first())
    } else {
        1 + work(todo.drop_first())
    }
}

/// Every reply brings a start closer to its end: the bound on what is left gets smaller.
pub proof fn law_steps_end<D: Domain>(launch: LaunchView<D>, reply: RunReplyView<D>)
    requires
        launch.todo.len() > 0,
        reply is Archive ==> launch.todo[0] is ParseSource,
    ensures
        launch.answered(reply) matches LaunchProgressView::Going(next) ==> work(next.todo) < work(
            launch.todo,
        ),
{
    if let LaunchProgressView::Going(next) = launch.answered(reply) {
        if reply is Archive {
            assert(next.todo.drop_first() =~= launch.todo.drop_first());
        }
    }
}

/// How a start ends when its steps come to `outcomes`.
pub open spec fn launched<D: Domain>(launch: LaunchView<D>, outcomes: RunOutcomes<D>) -> Launched<D>
    decreases work(launch.todo),
{
    if launch.todo.len() == 0 || launch.todo[0] is RunManager {
        Launched::Runs(launch.svc)
    } else {
        proof {
            law_steps_end(launch, outcomes.reply(launch.todo[0]));
        }
        match launch.answered(outcomes.reply(launch.todo[0])) {
            LaunchProgressView::Going(next) => launched(next, outcomes),
            LaunchProgressView::Failed(e) => Launched::Failed(e),
            LaunchProgressView::Exit(status) => Launched::Exits(status),
        }
    }
}

proof fn lemma_first<D: Domain>(
    launch: LaunchView<D>,
    step: RunStepView,
    rest: Seq<RunStepView>,
    outcomes: RunOutcomes<D>,
)
    requires
        launch.todo == seq![step] + rest,
        !(step is RunManager),
    ensures
        launched(launch, outcomes) == (match launch.answered(outcomes.reply(step)) {
            LaunchProgressView::Going(next) => launched(next, outcomes),
            LaunchProgressView::Failed(e) => Launched::Failed(e),
            LaunchProgressView::Exit(status) => Launched::Exits(status),
        }),
        launch.todo.drop_first() == rest,
{
    assert(launch.todo.drop_first() =~= rest);
}

/// How the program talks makes no difference to how a start ends.
proof fn lemma_toggles<D: Domain>(
    launch: LaunchView<D>,
    given: args::Given,
    rest: Seq<RunStepView>,
    outcomes: RunOutcomes<D>,
)
    requires
        launch.todo == run::run_toggles(given) + rest,
    ensures
        launched(launch, outcomes) == launched(LaunchView { todo: rest, ..launch }, outcomes),
{
    let color = given.contains_key(Arg::NoColor);
    let after_verbose = if color {
        seq![RunStepView::SetNoColor] + rest
    } else {
        rest
    };
    if given.contains_key(Arg::Verbose) {
        assert(launch.todo =~= seq![RunStepView::SetVerbose] + after_verbose);
        lemma_first(launch, RunStepView::SetVerbose, after_verbose, outcomes);
    } else {
        assert(launch.todo =~= after_verbose);
    }
    if color {
        lemma_first(
            LaunchView { todo: after_verbose, ..launch },
            RunStepView::SetNoColor,
            rest,
            outcomes,
        );
    }
}

/// How `run` ends with `pkg` as its initial service and `load` as the request for it.
pub open spec fn service_end<D: Domain>(
    outcomes: RunOutcomes<D>,
    pkg: Seq<char>,
    load: Result<SvcLoadView<D>, D::Error>,
) -> Launched<D> {
    match load {
        Err(e) => Launched::Failed(e),
        Ok(msg) => match outcomes.package(pkg, msg.bldr_url, msg.bldr_channel) {
            Err(e) => Launched::Failed(e),
            Ok(ident) => Launched::Runs(Some(SvcLoadView { ident: Some(ident), ..msg })),
        },
    }
}

/// The steps for the initial service.
proof fn lemma_service<D: Domain>(
    launch: LaunchView<D>,
    pkg: Seq<char>,
    outcomes: RunOutcomes<D>,
)
    requires
        launch.svc is Some,
        launch.todo == seq![
            RunStepView::FillLoad,
            RunStepView::ParseSource(pkg),
            RunStepView::RunManager,
        ],
    ensures
        launched(launch, outcomes) == service_end(outcomes, pkg, outcomes.load),
{
    let last = seq![RunStepView::RunManager];
    let parse = RunStepView::ParseSource(pkg);
    let after_fill = seq![parse] + last;
    assert(launch.todo =~= seq![RunStepView::FillLoad] + after_fill);
    lemma_first(launch, RunStepView::FillLoad, after_fill, outcomes);
    if let Ok(msg) = outcomes.load {
        let filled = LaunchView { svc: Some(msg), todo: after_fill };
        lemma_first(filled, parse, last, outcomes);
        if let Ok(None) = (outcomes.source)(pkg) {
            let install = RunStepView::InstallArchive {
                source: pkg,
                bldr_url: msg.bldr_url,
                channel: msg.bldr_channel,
            };
            lemma_first(
                LaunchView { svc: Some(msg), todo: seq![install] + last },
                install,
                last,
                outcomes,
            );
        }
    }
}

/// How `run` ends with `load` as the request for the initial service: the first error ends it.
pub open spec fn run_end<D: Domain>(
    given: args::Given,
    outcomes: RunOutcomes<D>,
    load: Result<SvcLoadView<D>, D::Error>,
) -> Launched<D> {
    match (outcomes.config, outcomes.running, outcomes.manager) {
        (Err(e), _, _) => Launched::Failed(e),
        (Ok(_), Err(e), _) => Launched::Failed(e),
        (Ok(_), Ok(true), _) => Launched::Exits(ExitStatus::OkNoRetry),
        (Ok(_), Ok(false), Err(e)) => Launched::Failed(e),
        (Ok(_), Ok(false), Ok(_)) => if args::value(given, Arg::PkgIdentOrArtifact) is None {
            Launched::Runs(None)
        } else {
            service_end(outcomes, given[Arg::PkgIdentOrArtifact][0], load)
        },
    }
}

/// Where a Supervisor runs already the program exits without loading another. Otherwise one
/// runs, with the service that the command line names, if it names one: its package is the one
/// named, or the one found in the artifact. The first error ends it.
pub proof fn law_run<D: Domain>(given: args::Given, outcomes: RunOutcomes<D>)
    ensures
        launched(
            LaunchView { svc: run::run_base::<D>(given), todo: run::run_plan(given) },
            outcomes,
        ) == run_end(given, outcomes, outcomes.load),
{
    let svc = run::run_base::<D>(given);
    let named = args::value(given, Arg::PkgIdentOrArtifact);
    let last = seq![RunStepView::RunManager];
    let service = match named {
        Some(pkg) => seq![
            RunStepView::FillLoad,
            RunStepView::ParseSource(pkg),
            RunStepView::RunManager,
        ],
        None => last,
    };
    let after_check = seq![RunStepView::LoadManager] + service;
    let after_config = seq![RunStepView::CheckRunning] + after_check;
    let all = seq![RunStepView::BuildConfig] + after_config;
    assert(run::run_plan(given) =~= run::run_toggles(given) + all);
    lemma_toggles(LaunchView { svc, todo: run::run_plan(given) }, given, all, outcomes);
    lemma_first(LaunchView { svc, todo: all }, RunStepView::BuildConfig, after_config, outcomes);
    lemma_first(
        LaunchView { svc, todo: after_config },
        RunStepView::CheckRunning,
        after_check,
        outcomes,
    );
    lemma_first(LaunchView { svc, todo: after_check }, RunStepView::LoadManager, service, outcomes);
    if let Some(pkg) = named {
        lemma_service(LaunchView { svc, todo: service }, pkg, outcomes);
    }
}

/// Where the request for the initial service is filled in from the command line of `run` itself,
/// starting from an empty one, the Supervisor runs with the request that the command line stands
/// for.
pub proof fn law_run_meant<D: Domain>(
    given: args::Given,
    around: settings::SurroundingsView,
    platform: Platform,
    filling: LoadOutcomes<D>,
    outcomes: RunOutcomes<D>,
)
    requires
        outcomes.load == svc_load_laws::filled(
            LoadRunView {
                msg: svc_load::load_base(given, around, svc_load::empty_load::<D>()),
                todo: svc_load::load_plan(given, platform),
            },
            filling,
        ),
    ensures
        launched(
            LaunchView { svc: run::run_base::<D>(given), todo: run::run_plan(given) },
            outcomes,
        ) == run_end(
            given,
            outcomes,
            svc_load_laws::load_meant(
                given,
                around,
                platform,
                svc_load::empty_load::<D>(),
                filling,
            ),
        ),
{
    svc_load_laws::law_load(given, around, platform, svc_load::empty_load::<D>(), filling);
    law_run(given, outcomes);
}

/// The steps that a start takes when they come to `outcomes`, in their order, up to the one that
/// ends it.
pub open spec fn starts_taken<D: Domain>(
    launch: LaunchView<D>,
    outcomes: RunOutcomes<D>,
) -> Seq<RunStepView>
    decreases work(launch.todo),
{
    if launch.todo.len() == 0 {
        Seq::empty()
    } else if launch.todo[0] is RunManager {
        seq![launch.todo[0]]
    } else {
        proof {
            law_steps_end(launch, outcomes.reply(launch.todo[0]));
        }
        seq![launch.todo[0]] + match launch.answered(outcomes.reply(launch.todo[0])) {
            LaunchProgressView::Going(next) => starts_taken(next, outcomes),
            _ => Seq::empty(),
        }
    }
}

/// Whether every artifact that `steps` install is `source`, with the help of Builder at `bldr_url`
/// and from `channel`.
pub open spec fn installs_only(
    steps: Seq<RunStepView>,
    source: Seq<char>,
    bldr_url: Seq<char>,
    channel: Seq<char>,
) -> bool {
    forall|i: int|
        0 <= i < steps.len() && (#[trigger] steps[i]) is InstallArchive ==> steps[i]
            == (RunStepView::InstallArchive { source, bldr_url, channel })
}

/// The steps of a start that are still to come install only `pkg`, and that as its request asks.
proof fn lemma_installs<D: Domain>(
    launch: LaunchView<D>,
    outcomes: RunOutcomes<D>,
    pkg: Seq<char>,
    msg: SvcLoadView<D>,
)
    requires
        outcomes.load == Ok::<SvcLoadView<D>, D::Error>(msg),
        launch.svc is Some,
        forall|i: int|
            0 <= i < launch.todo.len() && (#[trigger] launch.todo[i]) is ParseSource
                ==> launch.todo[i] == RunStepView::ParseSource(pkg),
        forall|i: int, j: int|
            0 <= i < j < launch.todo.len() ==> !((#[trigger] launch.todo[j]) is FillLoad
                && (#[trigger] launch.todo[i]) is ParseSource),
        (exists|i: int| 0 <= i < launch.todo.len() && (#[trigger] launch.todo[i]) is FillLoad) || (
        launch.svc->0.bldr_url == msg.bldr_url && launch.svc->0.bldr_channel == msg.bldr_channel),
        installs_only(launch.todo, pkg, msg.bldr_url, msg.bldr_channel),
    ensures
        installs_only(starts_taken(launch, outcomes), pkg, msg.bldr_url, msg.bldr_channel),
    decreases work(launch.todo),
{
    if launch.todo.len() > 0 && !(launch.todo[0] is RunManager) {
        let reply = outcomes.reply(launch.todo[0]);
        let rest = launch.todo.drop_first();
        law_steps_end(launch, reply);
        if let LaunchProgressView::Going(next) = launch.answered(reply) {
            assert(forall|i: int| 0 <= i < rest.len() ==> #[trigger] rest[i] == launch.todo[i + 1]);
            if launch.todo[0] is ParseSource {
                assert forall|i: int| 0 <= i < launch.todo.len() implies !((
                #[trigger] launch.todo[i]) is FillLoad) by {
                    if i > 0 {
                        assert(!(launch.todo[i] is FillLoad && launch.todo[0] is ParseSource));
                    }
                }
            }
            if exists|i: int| 0 <= i < launch.todo.len() && (#[trigger] launch.todo[i])
                is FillLoad {
                let i = choose|i: int|
                    0 <= i < launch.todo.len() && (#[trigger] launch.todo[i]) is FillLoad;
                if i > 0 {
                    assert(rest[i - 1] is FillLoad);
                    assert(next.todo == rest);
                    assert(next.todo[i - 1] is FillLoad);
                }
            }
            let shift: int = if reply is Archive {
                0
            } else {
                1
            };
            assert forall|i: int|
                0 <= i < next.todo.len() && !((#[trigger] next.todo[i]) is InstallArchive)
                    implies next.todo[i] == launch.todo[i + shift] by {}
            assert(installs_only(next.todo, pkg, msg.bldr_url, msg.bldr_channel)) by {
                assert forall|i: int|
                    0 <= i < next.todo.len() && (#[trigger] next.todo[i]) is InstallArchive
                        implies next.todo[i] == (RunStepView::InstallArchive {
                    source: pkg,
                    bldr_url: msg.bldr_url,
                    channel: msg.bldr_channel,
                }) by {
                    if !(reply is Archive && i == 0) {
                        assert(next.todo[i] == launch.todo[i + shift]);
                    }
                }
            }
            lemma_installs(next, outcomes, pkg, msg);
        }
    }
}

/// Whenever a start installs an artifact, that is the text on the command line, and Builder is
/// asked for it at the URL and in the channel that the command line chooses: those it names, and
/// failing that those of the environment and the defaults.
pub proof fn law_install_asked<D: Domain>(
    given: args::Given,
    around: settings::SurroundingsView,
    platform: Platform,
    filling: LoadOutcomes<D>,
    outcomes: RunOutcomes<D>,
    i: int,
)
    requires
        outcomes.load == svc_load_laws::filled(
            LoadRunView {
                msg: svc_load::load_base(given, around, svc_load::empty_load::<D>()),
                todo: svc_load::load_plan(given, platform),
            },
            filling,
        ),
        0 <= i < starts_taken(
            LaunchView { svc: run::run_base::<D>(given), todo: run::run_plan(given) },
            outcomes,
        ).len(),
    ensures
        starts_taken(
            LaunchView { svc: run::run_base::<D>(given), todo: run::run_plan(given) },
            outcomes,
        )[i] matches RunStepView::InstallArchive { source, bldr_url, channel } ==> {
            &&& given.contains_key(Arg::PkgIdentOrArtifact) && given[Arg::PkgIdentOrArtifact].len()
                > 0 && source == given[Arg::PkgIdentOrArtifact][0]
            &&& bldr_url == (if given.contains_key(Arg::BldrUrl) && given[Arg::BldrUrl].len() > 0 {
                given[Arg::BldrUrl][0]
            } else if around.bldr_url_from_env is Some {
                around.bldr_url_from_env->0
            } else {
                around.default_bldr_url
            })
            &&& channel == (if given.contains_key(Arg::Channel) && given[Arg::Channel].len() > 0 {
                given[Arg::Channel][0]
            } else {
                around.default_channel
            })
        },
{
    let launch = LaunchView { svc: run::run_base::<D>(given), todo: run::run_plan(given) };
    svc_load_laws::law_load_fields(given, around, platform, svc_load::empty_load::<D>(), filling);
    match args::value(given, Arg::PkgIdentOrArtifact) {
        Some(pkg) => {
            let n = launch.todo.len() as int;
            assert(launch.todo[n - 3] is FillLoad);
            match outcomes.load {
                Ok(msg) => {
                    lemma_installs(launch, outcomes, pkg, msg);
                },
                Err(e) => {
                    lemma_installs_none(launch, outcomes);
                },
            }
        },
        None => {
            lemma_installs_none(launch, outcomes);
        },
    }
}

/// A start that comes to no source before its request fails installs nothing.
proof fn lemma_installs_none<D: Domain>(launch: LaunchView<D>, outcomes: RunOutcomes<D>)
    requires
        forall|i: int|
            0 <= i < launch.todo.len() ==> !((#[trigger] launch.todo[i]) is InstallArchive),
        outcomes.load is Err ==> forall|i: int, j: int|
            0 <= i < j < launch.todo.len() ==> !((#[trigger] launch.todo[j]) is FillLoad
                && (#[trigger] launch.todo[i]) is ParseSource),
        outcomes.load is Ok ==> forall|i: int|
            0 <= i < launch.todo.len() ==> !((#[trigger] launch.todo[i]) is ParseSource),
        outcomes.load is Err ==> (exists|i: int|
            0 <= i < launch.todo.len() && (#[trigger] launch.todo[i]) is FillLoad) || forall|i: int|
            0 <= i < launch.todo.len() ==> !((#[trigger] launch.todo[i]) is ParseSource),
    ensures
        forall|i: int|
            0 <= i < starts_taken(launch, outcomes).len() ==> !((#[trigger] starts_taken(
                launch,
                outcomes,
            )[i]) is InstallArchive),
    decreases work(launch.todo),
{
    if launch.todo.len() > 0 && !(launch.todo[0] is RunManager) {
        let reply = outcomes.reply(launch.todo[0]);
        let rest = launch.todo.drop_first();
        law_steps_end(launch, reply);
        if let LaunchProgressView::Going(next) = launch.answered(reply) {
            assert(forall|i: int| 0 <= i < rest.len() ==> #[trigger] rest[i] == launch.todo[i + 1]);
            if launch.todo[0] is ParseSource {
                assert(outcomes.load is Err);
                let i = choose|i: int|
                    0 <= i < launch.todo.len() && (#[trigger] launch.todo[i]) is FillLoad;
                assert(!(launch.todo[i] is FillLoad && launch.todo[0] is ParseSource));
                assert(false);
            }
            assert(next.todo == rest);
            if exists|i: int| 0 <= i < launch.todo.len() && (#[trigger] launch.todo[i])
                is FillLoad {
                let i = choose|i: int|
                    0 <= i < launch.todo.len() && (#[trigger] launch.todo[i]) is FillLoad;
                if i > 0 {
                    assert(rest[i - 1] is FillLoad);
                }
            }
            lemma_installs_none(next, outcomes);
        }
    }
}

/// Every step but the last can be answered with whatever it comes to.
pub proof fn law_run_replies<D: Domain>(step: RunStepView, outcomes: RunOutcomes<D>)
    requires
        !(step is RunManager),
    ensures
        run::run_reply_fits(step, outcomes.reply(step)),
{
}

/// The steps of `run`, one by one and in their order.
pub proof fn law_run_steps(given: args::Given)
    ensures
        ({
            let plan = run::run_plan(given);
            let color = config_laws::count(given.contains_key(Arg::Verbose));
            let n = color + config_laws::count(given.contains_key(Arg::NoColor));
            let pkg = config_laws::valued(given, Arg::PkgIdentOrArtifact);
            &&& given.contains_key(Arg::Verbose) ==> plan[0] is SetVerbose
            &&& given.contains_key(Arg::NoColor) ==> plan[color] is SetNoColor
            &&& plan[n] is BuildConfig
            &&& plan[n + 1] is CheckRunning
            &&& plan[n + 2] is LoadManager
            &&& pkg ==> plan[n + 3] is FillLoad && plan[n + 4] == RunStepView::ParseSource(
                given[Arg::PkgIdentOrArtifact][0],
            )
            &&& plan.last() is RunManager
            &&& plan.len() == n + 4 + 2 * config_laws::count(pkg)
        }),
{
}

/// A Supervisor that comes up does so with an initial service exactly where the command line names
/// one: about the package that is named, or the one that the named artifact, installed from the
/// chosen Builder URL and channel, turns out to hold, and with the fields that the command line
/// gives.
pub proof fn law_run_service<D: Domain>(
    given: args::Given,
    around: settings::SurroundingsView,
    platform: Platform,
    filling: LoadOutcomes<D>,
    outcomes: RunOutcomes<D>,
)
    requires
        outcomes.load == svc_load_laws::filled(
            LoadRunView {
                msg: svc_load::load_base(given, around, svc_load::empty_load::<D>()),
                todo: svc_load::load_plan(given, platform),
            },
            filling,
        ),
    ensures
        launched(
            LaunchView { svc: run::run_base::<D>(given), todo: run::run_plan(given) },
            outcomes,
        ) matches Launched::Runs(svc) ==> {
            &&& outcomes.config is Ok && outcomes.running == Ok::<bool, D::Error>(false)
                && outcomes.manager is Ok
            &&& svc is Some <==> config_laws::valued(given, Arg::PkgIdentOrArtifact)
            &&& svc matches Some(r) ==> {
                let pkg = given[Arg::PkgIdentOrArtifact][0];
                let url = if config_laws::valued(given, Arg::BldrUrl) {
                    given[Arg::BldrUrl][0]
                } else if around.bldr_url_from_env is Some {
                    around.bldr_url_from_env->0
                } else {
                    around.default_bldr_url
                };
                let channel = if config_laws::valued(given, Arg::Channel) {
                    given[Arg::Channel][0]
                } else {
                    around.default_channel
                };
                &&& r.bldr_url == url && r.bldr_channel == channel
                &&& r.ident is Some
                &&& (outcomes.source)(pkg) == Ok::<Option<D::Ident>, D::Error>(r.ident) || ((
                outcomes.source)(pkg) == Ok::<Option<D::Ident>, D::Error>(None) && (
                outcomes.installed)(pkg, url, channel) == Ok::<D::Ident, D::Error>(r.ident->0))
                &&& r.group == svc_load_laws::given_or_kept(given, Arg::Group, None)
                &&& r.force <==> given.contains_key(Arg::Force)
                &&& r.specified_binds <==> given.contains_key(Arg::Bind)
            }
        },
{
    law_run_meant(given, around, platform, filling, outcomes);
    law_run(given, outcomes);
    svc_load_laws::law_load_fields(given, around, platform, svc_load::empty_load::<D>(), filling);
}

/// A Supervisor that runs already ends the start with the status that tells the Launcher all is
/// well, whatever the rest would have come to, and nothing else ends it so.
pub proof fn law_run_exits<D: Domain>(given: args::Given, outcomes: RunOutcomes<D>)
    ensures
        ({
            let end = launched(
                LaunchView { svc: run::run_base::<D>(given), todo: run::run_plan(given) },
                outcomes,
            );
            &&& end is Exits <==> outcomes.config is Ok && outcomes.running == Ok::<bool, D::Error>(
                true,
            )
            &&& end matches Launched::Exits(status) ==> status == ExitStatus::OkNoRetry
        }),
{
    law_run(given, outcomes);
}

/// Verbose output is turned on and color off exactly where the command line asks for it, and
/// before anything else is done.
pub proof fn law_output_first(given: args::Given)
    ensures
        run::run_plan(given).contains(RunStepView::SetVerbose) == given.contains_key(Arg::Verbose),
        run::run_plan(given).contains(RunStepView::SetNoColor) == given.contains_key(Arg::NoColor),
        forall|i: int, j: int|
            0 <= i < j < run::run_plan(given).len() && ((#[trigger] run::run_plan(given)[j])
                is SetVerbose || run::run_plan(given)[j] is SetNoColor) ==> (
            #[trigger] run::run_plan(given)[i]) is SetVerbose || run::run_plan(given)[i]
                is SetNoColor,
{
    let plan = run::run_plan(given);
    let verbose = given.contains_key(Arg::Verbose);
    if verbose {
        assert(plan[0] == RunStepView::SetVerbose);
    }
    if given.contains_key(Arg::NoColor) {
        let at: int = if verbose {
            1
        } else {
            0
        };
        assert(plan[at] == RunStepView::SetNoColor);
    }
}

} // verus!
