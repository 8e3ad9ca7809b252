//! What holds of a command to a running Supervisor from its first step to its last.

use crate::args;
use crate::args::Arg;
use crate::config;
use crate::config::ConfigRunView;
use crate::config::ManagerConfigView;
use crate::config_laws;
use crate::config_laws::ConfigOutcomes;
use crate::control;
use crate::control::CallView;
use crate::control::CtlError;
use crate::control::CtlRunView;
use crate::control::CtlStepReplyView;
use crate::control::CtlStepView;
use crate::control::RequestView;
use crate::domain::Domain;
use crate::domain::Platform;
use crate::settings;
use crate::svc_load;
use crate::svc_load::LoadRunView;
use crate::svc_load::SvcLoadView;
use crate::svc_load_laws;
use crate::svc_load_laws::LoadOutcomes;
use vstd::prelude::*;

verus! {

/// What the steps of one command come to.
pub struct CtlOutcomes<D: Domain> {
    /// The address of the control gateway.
    pub config: Result<D::SocketAddr, D::Error>,
    /// What the text of a package identifier parses as.
    pub ident: spec_fn(Seq<char>) -> Result<D::Ident, D::Error>,
    pub load: Result<SvcLoadView<D>, D::Error>,
    pub key_found: Result<bool, D::Error>,
    pub key: Seq<char>,
}

impl<D: Domain> CtlOutcomes<D> {
    /// The reply to `step`.
    pub open spec fn reply(self, step: CtlStepView) -> CtlStepReplyView<D> {
        match step {
            CtlStepView::SetVerbose => CtlStepReplyView::Done,
            CtlStepView::SetNoColor => CtlStepReplyView::Done,
            CtlStepView::ParseIdent(s) => match (self.ident)(s) {
                Ok(ident) => CtlStepReplyView::Ident(ident),
                Err(e) => CtlStepReplyView::Failed(e),
            },
            CtlStepView::BuildConfig => match self.config {
                Ok(address) => CtlStepReplyView::Config(address),
                Err(e) => CtlStepReplyView::Failed(e),
            },
            CtlStepView::FillLoad => match self.load {
                Ok(msg) => CtlStepReplyView::Load(msg),
                Err(e) => CtlStepReplyView::Failed(e),
            },
            CtlStepView::ReadSecretKey => match self.key_found {
                Ok(found) => CtlStepReplyView::SecretKey { found, key: self.key },
                Err(e) => CtlStepReplyView::Failed(e),
            },
            CtlStepView::Call => CtlStepReplyView::Done,
        }
    }

    /// The key for the control gateway.
    pub open spec fn secret_key(self) -> Result<Seq<char>, CtlError<D::Error>> {
        control::secret_key_of(self.key_found, self.key)
    }
}

/// What a command comes to when its steps come to `outcomes`: the call that it makes, or why it
/// makes none.
pub open spec fn called<D: Domain>(run: CtlRunView<D>, outcomes: CtlOutcomes<D>) -> Result<
    CallView<D>,
    CtlError<D::Error>,
>
    decreases run.todo.len(),
{
    if run.todo.len() == 0 || run.todo[0] is Call {
        Ok(
            CallView {
                address: run.address->0,
                secret_key: run.secret_key->0,
                request: run.request,
            },
        )
    } else {
        match run.answered(outcomes.reply(run.todo[0])) {
            Ok(next) => called(next, outcomes),
            Err(e) => Err(e),
        }
    }
}

proof fn lemma_first<D: Domain>(
    run: CtlRunView<D>,
    step: CtlStepView,
    rest: Seq<CtlStepView>,
    outcomes: CtlOutcomes<D>,
)
    requires
        run.todo == seq![step] + rest,
        !(step is Call),
    ensures
        called(run, outcomes) == (match run.answered(outcomes.reply(step)) {
            Ok(next) => called(next, outcomes),
            Err(e) => Err(e),
        }),
        run.todo.drop_first() == rest,
{
    assert(run.todo.drop_first() =~= rest);
}

/// How the program talks makes no difference to the call.
proof fn lemma_toggles<D: Domain>(
    run: CtlRunView<D>,
    given: args::Given,
    rest: Seq<CtlStepView>,
    outcomes: CtlOutcomes<D>,
)
    requires
        run.todo == control::toggles(given) + rest,
    ensures
        called(run, outcomes) == called(CtlRunView { todo: rest, ..run }, outcomes),
{
    let verbose = given.contains_key(Arg::Verbose);
    let color = given.contains_key(Arg::NoColor);
    let after_verbose = if color {
        seq![CtlStepView::SetNoColor] + rest
    } else {
        rest
    };
    if verbose {
        assert(run.todo =~= seq![CtlStepView::SetVerbose] + after_verbose);
        lemma_first(run, CtlStepView::SetVerbose, after_verbose, outcomes);
    } else {
        assert(run.todo =~= after_verbose);
    }
    if color {
        lemma_first(
            CtlRunView { todo: after_verbose, ..run },
            CtlStepView::SetNoColor,
            rest,
            outcomes,
        );
    }
}

/// The key is read and the call is made.
proof fn lemma_last<D: Domain>(run: CtlRunView<D>, outcomes: CtlOutcomes<D>)
    requires
        run.todo == seq![CtlStepView::ReadSecretKey, CtlStepView::Call],
        run.address is Some,
    ensures
        called(run, outcomes) == (match outcomes.secret_key() {
            Ok(key) => Ok(
                CallView { address: run.address->0, secret_key: key, request: run.request },
            ),
            Err(e) => Err(e),
        }),
{
    let rest = seq![CtlStepView::Call];
    assert(run.todo =~= seq![CtlStepView::ReadSecretKey] + rest);
    lemma_first(run, CtlStepView::ReadSecretKey, rest, outcomes);
}

/// A command about one package calls the Supervisor with its request about that package and the
/// key, or stops at the first of these that fails: the package, the configuration, the key.
pub proof fn law_ident_call<D: Domain>(
    request: RequestView<D>,
    given: args::Given,
    outcomes: CtlOutcomes<D>,
)
    requires
        args::value(given, Arg::PkgIdent) is Some,
    ensures
        called(
            CtlRunView {
                request,
                address: None,
                secret_key: None,
                todo: control::ident_plan(given),
            },
            outcomes,
        ) == (match (
            (outcomes.ident)(given[Arg::PkgIdent][0]),
            outcomes.config,
            outcomes.secret_key(),
        ) {
            (Err(e), _, _) => Err(CtlError::Step(e)),
            (Ok(_), Err(e), _) => Err(CtlError::Step(e)),
            (Ok(_), Ok(_), Err(e)) => Err(e),
            (Ok(ident), Ok(address), Ok(key)) => Ok(
                CallView { address, secret_key: key, request: request.about(ident) },
            ),
        }),
{
    let run = CtlRunView {
        request,
        address: None,
        secret_key: None,
        todo: control::ident_plan(given),
    };
    let last = seq![CtlStepView::ReadSecretKey, CtlStepView::Call];
    let after_ident = seq![CtlStepView::BuildConfig] + last;
    let ident = CtlStepView::ParseIdent(args::value(given, Arg::PkgIdent)->0);
    let after_toggles = seq![ident] + after_ident;
    assert(run.todo =~= control::toggles(given) + after_toggles);
    lemma_toggles(run, given, after_toggles, outcomes);
    lemma_first(CtlRunView { todo: after_toggles, ..run }, ident, after_ident, outcomes);
    if let Ok(i) = (outcomes.ident)(given[Arg::PkgIdent][0]) {
        let run = CtlRunView { request: request.about(i), todo: after_ident, ..run };
        lemma_first(run, CtlStepView::BuildConfig, last, outcomes);
        if let Ok(address) = outcomes.config {
            lemma_last(CtlRunView { address: Some(address), todo: last, ..run }, outcomes);
        }
    }
}

/// The call that `load` makes at `config` with the request `load` about `ident` and the key `key`,
/// or why it makes none: the first of these that is an error.
pub open spec fn load_call<D: Domain>(
    config: Result<D::SocketAddr, D::Error>,
    load: Result<SvcLoadView<D>, D::Error>,
    ident: Result<D::Ident, D::Error>,
    key: Result<Seq<char>, CtlError<D::Error>>,
) -> Result<CallView<D>, CtlError<D::Error>> {
    match (config, load, ident, key) {
        (Err(e), _, _, _) => Err(CtlError::Step(e)),
        (Ok(_), Err(e), _, _) => Err(CtlError::Step(e)),
        (Ok(_), Ok(_), Err(e), _) => Err(CtlError::Step(e)),
        (Ok(_), Ok(_), Ok(_), Err(e)) => Err(e),
        (Ok(address), Ok(msg), Ok(ident), Ok(key)) => Ok(
            CallView {
                address,
                secret_key: key,
                request: RequestView::SvcLoad(SvcLoadView { ident: Some(ident), ..msg }),
            },
        ),
    }
}

/// `load` calls the Supervisor with the request as it is filled in, about its
/// package, and the key, or stops at the first of these that fails: the configuration, the
/// request, the package, the key.
pub proof fn law_load_call<D: Domain>(given: args::Given, outcomes: CtlOutcomes<D>)
    requires
        args::value(given, Arg::PkgIdent) is Some,
    ensures
        called(
            CtlRunView {
                request: RequestView::SvcLoad(svc_load::empty_load::<D>()),
                address: None,
                secret_key: None,
                todo: control::load_ctl_plan(given),
            },
            outcomes,
        ) == load_call(
            outcomes.config,
            outcomes.load,
            (outcomes.ident)(given[Arg::PkgIdent][0]),
            outcomes.secret_key(),
        ),
{
    let run = CtlRunView {
        request: RequestView::SvcLoad(svc_load::empty_load::<D>()),
        address: None,
        secret_key: None,
        todo: control::load_ctl_plan(given),
    };
    let last = seq![CtlStepView::ReadSecretKey, CtlStepView::Call];
    let ident = CtlStepView::ParseIdent(args::value(given, Arg::PkgIdent)->0);
    let after_fill = seq![ident] + last;
    let after_config = seq![CtlStepView::FillLoad] + after_fill;
    let after_toggles = seq![CtlStepView::BuildConfig] + after_config;
    assert(run.todo =~= control::toggles(given) + after_toggles);
    lemma_toggles(run, given, after_toggles, outcomes);
    lemma_first(
        CtlRunView { todo: after_toggles, ..run },
        CtlStepView::BuildConfig,
        after_config,
        outcomes,
    );
    if let Ok(address) = outcomes.config {
        let run = CtlRunView { address: Some(address), todo: after_config, ..run };
        lemma_first(run, CtlStepView::FillLoad, after_fill, outcomes);
        if let Ok(msg) = outcomes.load {
            let run = CtlRunView { request: RequestView::SvcLoad(msg), todo: after_fill, ..run };
            lemma_first(run, ident, last, outcomes);
            if let Ok(i) = (outcomes.ident)(given[Arg::PkgIdent][0]) {
                lemma_last(
                    CtlRunView { request: run.request.about(i), todo: last, ..run },
                    outcomes,
                );
            }
        }
    }
}

/// Where the request is filled in from the command line of `load` itself, starting from an empty
/// one, `load` calls the Supervisor with the request that the command line stands for.
pub proof fn law_load_call_meant<D: Domain>(
    given: args::Given,
    around: settings::SurroundingsView,
    platform: Platform,
    filling: LoadOutcomes<D>,
    outcomes: CtlOutcomes<D>,
)
    requires
        args::value(given, Arg::PkgIdent) is Some,
        outcomes.load == svc_load_laws::filled(
            LoadRunView {
                msg: svc_load::load_base(given, around, svc_load::empty_load::<D>()),
                todo: svc_load::load_plan(given, platform),
            },
            filling,
        ),
    ensures
        called(
            CtlRunView {
                request: RequestView::SvcLoad(svc_load::empty_load::<D>()),
                address: None,
                secret_key: None,
                todo: control::load_ctl_plan(given),
            },
            outcomes,
        ) == load_call(
            outcomes.config,
            svc_load_laws::load_meant(
                given,
                around,
                platform,
                svc_load::empty_load::<D>(),
                filling,
            ),
            (outcomes.ident)(given[Arg::PkgIdent][0]),
            outcomes.secret_key(),
        ),
{
    svc_load_laws::law_load(given, around, platform, svc_load::empty_load::<D>(), filling);
    law_load_call(given, outcomes);
}

/// The address of the control gateway in a configuration: `default` where none is set.
pub open spec fn control_address<D: Domain>(
    config: Result<ManagerConfigView<D>, D::Error>,
    default: D::SocketAddr,
) -> Result<D::SocketAddr, D::Error> {
    match config {
        Ok(c) => Ok(
            match c.ctl_listen {
                Some(address) => address,
                None => default,
            },
        ),
        Err(e) => Err(e),
    }
}

/// A command whose configuration is made from its own command line connects to the control
/// address that this names, to the fallback where that is no address, and to the default where it
/// names none.
pub proof fn law_control_address<D: Domain>(
    given: args::Given,
    around: settings::SurroundingsView,
    port: u16,
    making: ConfigOutcomes<D>,
    default: D::SocketAddr,
    outcomes: CtlOutcomes<D>,
)
    requires
        making.covers(args::values(given, Arg::Peer).len()),
        outcomes.config == control_address(
            config_laws::settled(
                ConfigRunView {
                    config: config::config_base::<D>(given, around),
                    todo: config::config_plan(given, port),
                },
                making,
            ),
            default,
        ),
    ensures
        match config_laws::config_meant(given, around, port, making) {
            Err(e) => outcomes.config == Err::<D::SocketAddr, D::Error>(e),
            Ok(_) => outcomes.config == Ok::<D::SocketAddr, D::Error>(
                if given.contains_key(Arg::ListenCtl) && given[Arg::ListenCtl].len() > 0 {
                    match (making.ctl)(given[Arg::ListenCtl][0]) {
                        Some(address) => address,
                        None => making.ctl_default,
                    }
                } else {
                    default
                },
            ),
        },
{
    config_laws::law_config(given, around, port, making);
}

/// `status` calls the Supervisor about the package where one is named, and about all services
/// otherwise, or stops at the first of these that fails: the configuration, the package where
/// one is named, the key.
pub proof fn law_status_call<D: Domain>(given: args::Given, outcomes: CtlOutcomes<D>)
    ensures
        called(
            CtlRunView {
                request: RequestView::<D>::SvcStatus(None),
                address: None,
                secret_key: None,
                todo: control::status_plan(given),
            },
            outcomes,
        ) == (match (outcomes.config, outcomes.secret_key()) {
            (Err(e), _) => Err(CtlError::Step(e)),
            (Ok(address), secret_key) => if args::value(given, Arg::PkgIdent) is Some && (
            outcomes.ident)(given[Arg::PkgIdent][0]) is Err {
                Err(CtlError::Step((outcomes.ident)(given[Arg::PkgIdent][0])->Err_0))
            } else {
                match secret_key {
                    Err(e) => Err(e),
                    Ok(key) => Ok(
                        CallView {
                            address,
                            secret_key: key,
                            request: RequestView::<D>::SvcStatus(
                                if args::value(given, Arg::PkgIdent) is Some {
                                    Some((outcomes.ident)(given[Arg::PkgIdent][0])->Ok_0)
                                } else {
                                    None
                                },
                            ),
                        },
                    ),
                }
            },
        }),
{
    let run = CtlRunView {
        request: RequestView::<D>::SvcStatus(None),
        address: None,
        secret_key: None,
        todo: control::status_plan(given),
    };
    let last = seq![CtlStepView::ReadSecretKey, CtlStepView::Call];
    let after_config = match args::value(given, Arg::PkgIdent) {
        Some(s) => seq![CtlStepView::ParseIdent(s)] + last,
        None => last,
    };
    let after_toggles = seq![CtlStepView::BuildConfig] + after_config;
    assert(run.todo =~= control::toggles(given) + after_toggles);
    lemma_toggles(run, given, after_toggles, outcomes);
    lemma_first(
        CtlRunView { todo: after_toggles, ..run },
        CtlStepView::BuildConfig,
        after_config,
        outcomes,
    );
    if let Ok(address) = outcomes.config {
        let run = CtlRunView { address: Some(address), todo: after_config, ..run };
        match args::value(given, Arg::PkgIdent) {
            Some(s) => {
                lemma_first(run, CtlStepView::ParseIdent(s), last, outcomes);
                if let Ok(i) = (outcomes.ident)(s) {
                    lemma_last(
                        CtlRunView { request: run.request.about(i), todo: last, ..run },
                        outcomes,
                    );
                }
            },
            None => {
                lemma_last(run, outcomes);
            },
        }
    }
}

/// Every step but the call can be answered with whatever it comes to.
pub proof fn law_ctl_replies<D: Domain>(step: CtlStepView, outcomes: CtlOutcomes<D>)
    requires
        !(step is Call),
    ensures
        control::ctl_reply_fits(step, outcomes.reply(step)),
{
}

/// Whether `plan` begins with setting up output as the command line asks for it: verbose output
/// exactly where that is asked for, and then no color exactly where that is.
pub open spec fn begins_with_output(plan: Seq<CtlStepView>, given: args::Given) -> bool {
    let color = config_laws::count(given.contains_key(Arg::Verbose));
    &&& given.contains_key(Arg::Verbose) ==> plan[0] is SetVerbose
    &&& given.contains_key(Arg::NoColor) ==> plan[color] is SetNoColor
}

/// The number of steps that set up output.
pub open spec fn output_steps(given: args::Given) -> int {
    config_laws::count(given.contains_key(Arg::Verbose)) + config_laws::count(
        given.contains_key(Arg::NoColor),
    )
}

/// The steps of the commands, one by one and in their order.
pub proof fn law_ctl_steps(given: args::Given)
    ensures
        ({
            let n = output_steps(given);
            let pkg = config_laws::valued(given, Arg::PkgIdent);
            let ident = control::ident_plan(given);
            let load = control::load_ctl_plan(given);
            let status = control::status_plan(given);
            let named = n + 1 + config_laws::count(pkg);
            &&& begins_with_output(ident, given)
            &&& pkg ==> ident[n] == CtlStepView::ParseIdent(given[Arg::PkgIdent][0])
            &&& ident[n + 1] is BuildConfig
            &&& ident[n + 2] is ReadSecretKey
            &&& ident[n + 3] is Call
            &&& ident.len() == n + 4
            &&& begins_with_output(load, given)
            &&& load[n] is BuildConfig
            &&& load[n + 1] is FillLoad
            &&& pkg ==> load[n + 2] == CtlStepView::ParseIdent(given[Arg::PkgIdent][0])
            &&& load[n + 3] is ReadSecretKey
            &&& load[n + 4] is Call
            &&& load.len() == n + 5
            &&& begins_with_output(status, given)
            &&& status[n] is BuildConfig
            &&& pkg ==> status[n + 1] == CtlStepView::ParseIdent(given[Arg::PkgIdent][0])
            &&& status[named] is ReadSecretKey
            &&& status[named + 1] is Call
            &&& status.len() == named + 2
        }),
{
}

/// Naming the package of a request sets that and nothing else: it stays the same request, with the
/// same fields.
pub proof fn law_request_about<D: Domain>(request: RequestView<D>, ident: D::Ident)
    ensures
        request.about(ident).ident() == Some(ident),
        match request {
            RequestView::SvcGetDefaultCfg(_) => request.about(ident)
                == RequestView::<D>::SvcGetDefaultCfg(Some(ident)),
            RequestView::SvcLoad(msg) => request.about(ident) is SvcLoad && ({
                let r = request.about(ident)->SvcLoad_0;
                &&& r.ident == Some(ident)
                &&& r.bldr_url == msg.bldr_url && r.bldr_channel == msg.bldr_channel
                &&& r.application_environment == msg.application_environment
                &&& r.binds == msg.binds && r.specified_binds == msg.specified_binds
                &&& r.config_from == msg.config_from && r.force == msg.force && r.group == msg.group
                &&& r.svc_encrypted_password == msg.svc_encrypted_password
                &&& r.topology == msg.topology && r.update_strategy == msg.update_strategy
            }),
            RequestView::SvcUnload(_) => request.about(ident) == RequestView::<D>::SvcUnload(
                Some(ident),
            ),
            RequestView::SvcStart(_) => request.about(ident) == RequestView::<D>::SvcStart(
                Some(ident),
            ),
            RequestView::SvcStatus(_) => request.about(ident) == RequestView::<D>::SvcStatus(
                Some(ident),
            ),
            RequestView::SvcStop(_) => request.about(ident) == RequestView::<D>::SvcStop(
                Some(ident),
            ),
        },
{
}

/// A key that was found is used as it was read, one that was not found is an error of its own, and
/// a failed read is passed on.
pub proof fn law_secret_key<E>(read: Result<bool, E>, key: Seq<char>)
    ensures
        control::secret_key_of(read, key) == Ok::<Seq<char>, CtlError<E>>(key) <==> read == Ok::<
            bool,
            E,
        >(true),
        control::secret_key_of(read, key) == Err::<Seq<char>, CtlError<E>>(
            CtlError::CtlSecretNotFound,
        ) <==> read == Ok::<bool, E>(false),
        read matches Err(e) ==> control::secret_key_of(read, key) == Err::<Seq<char>, CtlError<E>>(
            CtlError::Step(e),
        ),
{
}

/// The call that `load` makes carries what the command line says: each field comes from the one
/// argument that names it, the package is the one named, and the rest is left unset.
pub proof fn law_load_call_fields<D: Domain>(
    given: args::Given,
    around: settings::SurroundingsView,
    platform: Platform,
    filling: LoadOutcomes<D>,
    outcomes: CtlOutcomes<D>,
)
    requires
        args::value(given, Arg::PkgIdent) is Some,
        outcomes.load == svc_load_laws::filled(
            LoadRunView {
                msg: svc_load::load_base(given, around, svc_load::empty_load::<D>()),
                todo: svc_load::load_plan(given, platform),
            },
            filling,
        ),
    ensures
        called(
            CtlRunView {
                request: RequestView::SvcLoad(svc_load::empty_load::<D>()),
                address: None,
                secret_key: None,
                todo: control::load_ctl_plan(given),
            },
            outcomes,
        ) matches Ok(call) ==> {
            &&& outcomes.config == Ok::<D::SocketAddr, D::Error>(call.address)
            &&& outcomes.key_found == Ok::<bool, D::Error>(true) && call.secret_key == outcomes.key
            &&& call.request is SvcLoad
            &&& ({
                let r = call.request->SvcLoad_0;
                &&& r.ident is Some && (outcomes.ident)(given[Arg::PkgIdent][0]) == Ok::<
                    D::Ident,
                    D::Error,
                >(r.ident->0)
                &&& r.group == svc_load_laws::given_or_kept(given, Arg::Group, None)
                &&& r.force <==> given.contains_key(Arg::Force)
                &&& r.specified_binds <==> given.contains_key(Arg::Bind)
                &&& r.bldr_channel == (if config_laws::valued(given, Arg::Channel) {
                    given[Arg::Channel][0]
                } else {
                    around.default_channel
                })
                &&& config_laws::valued(given, Arg::BldrUrl) ==> r.bldr_url
                    == given[Arg::BldrUrl][0]
                &&& !config_laws::valued(given, Arg::Topology) ==> r.topology is None
                &&& !config_laws::valued(given, Arg::Strategy) ==> r.update_strategy is None
                &&& platform == Platform::Unix ==> r.svc_encrypted_password is None
            })
        },
{
    law_load_call_meant(given, around, platform, filling, outcomes);
    svc_load_laws::law_load_fields(
        given,
        around,
        platform,
        svc_load::empty_load::<D>(),
        filling,
    );
}

} // verus!
