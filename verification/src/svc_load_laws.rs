//! What holds of a request to load a service from its first step to its last.

use crate::args;
use crate::args::Arg;
use crate::config;
use crate::config_laws;
use crate::domain::Domain;
use crate::domain::Platform;
use crate::settings;
use crate::svc_load;
use crate::svc_load::LoadReplyView;
use crate::svc_load::LoadRunView;
use crate::svc_load::LoadStepView;
use crate::svc_load::SvcLoadView;
use vstd::prelude::*;

verus! {

/// What the steps of one request come to, each as a function of the text that it is handed. Each
/// of them is taken at most once, bindings apart, which are numbered in the order of the command
/// line.
pub struct LoadOutcomes<D: Domain> {
    pub app_env: spec_fn(Seq<char>, Seq<char>) -> Result<D::AppEnv, D::Error>,
    pub binds: spec_fn(int, Seq<char>) -> Result<D::Bind, D::Error>,
    pub password: spec_fn(Seq<char>) -> Result<Seq<char>, D::Error>,
    pub topology: spec_fn(Seq<char>) -> Option<D::Topology>,
    pub strategy: spec_fn(Seq<char>) -> Option<D::Strategy>,
}

impl<D: Domain> LoadOutcomes<D> {
    /// What parsing the bindings of `texts` one after another comes to.
    pub open spec fn parsed(self, texts: Seq<Seq<char>>) -> Seq<Result<D::Bind, D::Error>> {
        Seq::new(texts.len(), |i: int| (self.binds)(i, texts[i]))
    }

    /// The reply to `step` once `parsed` bindings are parsed.
    pub open spec fn reply(self, step: LoadStepView, parsed: nat) -> LoadReplyView<D> {
        match step {
            LoadStepView::NewAppEnv(app, env) => match (self.app_env)(app, env) {
                Ok(v) => LoadReplyView::AppEnv(v),
                Err(e) => LoadReplyView::Failed(e),
            },
            LoadStepView::ParseBind(s) => match (self.binds)(parsed as int, s) {
                Ok(v) => LoadReplyView::Bind(v),
                Err(e) => LoadReplyView::Failed(e),
            },
            LoadStepView::PrintConfigWarning => LoadReplyView::Printed,
            LoadStepView::EncryptPassword(s) => match (self.password)(s) {
                Ok(s) => LoadReplyView::Encrypted(s),
                Err(e) => LoadReplyView::Failed(e),
            },
            LoadStepView::ParseTopology(s) => LoadReplyView::Topology((self.topology)(s)),
            LoadStepView::ParseStrategy(s) => LoadReplyView::Strategy((self.strategy)(s)),
        }
    }
}

/// What a request comes to when its steps come to `outcomes`: the message, or the error that it
/// is given up with.
#[verifier::opaque]
pub open spec fn filled<D: Domain>(run: LoadRunView<D>, outcomes: LoadOutcomes<D>) -> Result<
    SvcLoadView<D>,
    D::Error,
>
    decreases run.todo.len(),
{
    if run.todo.len() == 0 {
        Ok(run.msg)
    } else {
        match run.answered(outcomes.reply(run.todo[0], run.msg.binds.len())) {
            Ok(next) => filled(next, outcomes),
            Err(error) => Err(error),
        }
    }
}

/// All bindings, or the error of the first that is none.
pub open spec fn all_bound<D: Domain>(binds: Seq<Result<D::Bind, D::Error>>) -> Result<
    Seq<D::Bind>,
    D::Error,
>
    decreases binds.len(),
{
    if binds.len() == 0 {
        Ok(Seq::empty())
    } else {
        match binds[0] {
            Err(e) => Err(e),
            Ok(v) => match all_bound::<D>(binds.drop_first()) {
                Err(e) => Err(e),
                Ok(rest) => Ok(seq![v] + rest),
            },
        }
    }
}

/// The application with its environment, where both were given.
pub open spec fn app_env_made<D: Domain>(given: args::Given, outcomes: LoadOutcomes<D>) -> Result<
    Option<D::AppEnv>,
    D::Error,
> {
    match settings::named_app_env(given) {
        Some((app, env)) => match (outcomes.app_env)(app, env) {
            Ok(v) => Ok(Some(v)),
            Err(e) => Err(e),
        },
        None => Ok(None),
    }
}

/// The encrypted password, where one is asked for.
pub open spec fn password_made<D: Domain>(
    given: args::Given,
    platform: Platform,
    outcomes: LoadOutcomes<D>,
) -> Result<Option<Seq<char>>, D::Error> {
    match settings::named_password(given, platform) {
        Some(s) => match (outcomes.password)(s) {
            Ok(v) => Ok(Some(v)),
            Err(e) => Err(e),
        },
        None => Ok(None),
    }
}

/// `new` where there is one, and `old` otherwise.
pub open spec fn or_kept<V>(new: Option<V>, old: Option<V>) -> Option<V> {
    match new {
        Some(v) => Some(v),
        None => old,
    }
}

/// What parsing an optional setting comes to, if anything.
pub open spec fn parsed_if_given<V>(
    value: Option<Seq<char>>,
    parse: spec_fn(Seq<char>) -> Option<V>,
) -> Option<V> {
    match value {
        Some(s) => parse(s),
        None => None,
    }
}

/// The request that a command line stands for when its steps come to `outcomes`, or the first
/// error among those that end it.
pub open spec fn load_meant<D: Domain>(
    given: args::Given,
    around: settings::SurroundingsView,
    platform: Platform,
    msg: SvcLoadView<D>,
    outcomes: LoadOutcomes<D>,
) -> Result<SvcLoadView<D>, D::Error> {
    match (
        app_env_made(given, outcomes),
        all_bound::<D>(outcomes.parsed(args::values(given, Arg::Bind))),
        password_made(given, platform, outcomes),
    ) {
        (Err(e), _, _) => Err(e),
        (Ok(_), Err(e), _) => Err(e),
        (Ok(_), Ok(_), Err(e)) => Err(e),
        (Ok(app_env), Ok(binds), Ok(password)) => Ok(
            SvcLoadView {
                ident: msg.ident,
                bldr_url: settings::chosen_bldr_url(given, around),
                bldr_channel: settings::chosen_channel(given, around),
                application_environment: or_kept(app_env, msg.application_environment),
                binds,
                specified_binds: given.contains_key(Arg::Bind),
                config_from: or_kept(args::value(given, Arg::ConfigDir), msg.config_from),
                force: given.contains_key(Arg::Force),
                group: or_kept(args::value(given, Arg::Group), msg.group),
                svc_encrypted_password: or_kept(password, msg.svc_encrypted_password),
                topology: or_kept(
                    parsed_if_given(args::value(given, Arg::Topology), outcomes.topology),
                    msg.topology,
                ),
                update_strategy: or_kept(
                    parsed_if_given(args::value(given, Arg::Strategy), outcomes.strategy),
                    msg.update_strategy,
                ),
            },
        ),
    }
}

proof fn lemma_first<D: Domain>(
    msg: SvcLoadView<D>,
    step: LoadStepView,
    rest: Seq<LoadStepView>,
    outcomes: LoadOutcomes<D>,
)
    ensures
        filled(LoadRunView { msg, todo: seq![step] + rest }, outcomes) == (match (LoadRunView {
            msg,
            todo: seq![step] + rest,
        }).answered(outcomes.reply(step, msg.binds.len())) {
            Ok(next) => filled(next, outcomes),
            Err(error) => Err(error),
        }),
        (seq![step] + rest).drop_first() == rest,
{
    reveal(filled);
    assert((seq![step] + rest).drop_first() =~= rest);
}

proof fn lemma_none_left<D: Domain>(msg: SvcLoadView<D>, outcomes: LoadOutcomes<D>)
    ensures
        filled(LoadRunView { msg, todo: Seq::empty() }, outcomes) == Ok::<
            SvcLoadView<D>,
            D::Error,
        >(msg),
{
    reveal(filled);
}

/// A step for an optional setting, where it was given, and what follows it.
proof fn lemma_optional<D: Domain>(
    msg: SvcLoadView<D>,
    value: Option<Seq<char>>,
    make: spec_fn(Seq<char>) -> LoadStepView,
    rest: Seq<LoadStepView>,
    outcomes: LoadOutcomes<D>,
)
    ensures
        filled(LoadRunView { msg, todo: svc_load::load_step_for(value, make) + rest }, outcomes)
            == (match value {
            None => filled(LoadRunView { msg, todo: rest }, outcomes),
            Some(s) => match (LoadRunView { msg, todo: seq![make(s)] + rest }).answered(
                outcomes.reply(make(s), msg.binds.len()),
            ) {
                Ok(next) => filled(next, outcomes),
                Err(error) => Err(error),
            },
        }),
        value matches Some(s) ==> (seq![make(s)] + rest).drop_first() == rest,
{
    match value {
        None => {
            assert(svc_load::load_step_for(value, make) + rest =~= rest);
        },
        Some(s) => {
            lemma_first(msg, make(s), rest, outcomes);
        },
    }
}

/// The steps for the bindings from number `k` on, and what follows them.
proof fn lemma_binds<D: Domain>(
    msg: SvcLoadView<D>,
    binds: Seq<Seq<char>>,
    k: nat,
    rest: Seq<LoadStepView>,
    outcomes: LoadOutcomes<D>,
)
    requires
        k <= binds.len(),
        msg.binds.len() == k,
    ensures
        filled(
            LoadRunView { msg, todo: svc_load::bind_steps(binds.skip(k as int)) + rest },
            outcomes,
        ) == (match all_bound::<D>(outcomes.parsed(binds).skip(k as int)) {
            Err(e) => Err(e),
            Ok(list) => filled(
                LoadRunView {
                    msg: SvcLoadView { binds: msg.binds + list, ..msg },
                    todo: rest,
                },
                outcomes,
            ),
        }),
    decreases binds.len() - k,
{
    let steps = svc_load::bind_steps(binds.skip(k as int));
    let results = outcomes.parsed(binds);
    let tail = results.skip(k as int);
    if k == binds.len() {
        assert(steps + rest =~= rest);
        assert(msg.binds + Seq::<D::Bind>::empty() =~= msg.binds);
    } else {
        let later = svc_load::bind_steps(binds.skip(k as int + 1));
        let step = steps[0];
        assert(steps + rest =~= seq![step] + (later + rest));
        lemma_first(msg, step, later + rest, outcomes);
        assert(tail.drop_first() =~= results.skip(k as int + 1));
        assert(tail[0] == (outcomes.binds)(k as int, binds[k as int]));
        if let Ok(v) = tail[0] {
            let next = SvcLoadView { binds: msg.binds.push(v), ..msg };
            lemma_binds(next, binds, k + 1, rest, outcomes);
            if let Ok(list) = all_bound::<D>(tail.drop_first()) {
                assert(next.binds + list =~= msg.binds + (seq![v] + list));
            }
        }
    }
}

/// The steps after the bindings.
spec fn closing(given: args::Given, platform: Platform) -> Seq<LoadStepView> {
    svc_load::load_step_for(
        args::value(given, Arg::ConfigDir),
        |s: Seq<char>| LoadStepView::PrintConfigWarning,
    ) + (svc_load::load_step_for(
        settings::named_password(given, platform),
        |s: Seq<char>| LoadStepView::EncryptPassword(s),
    ) + (svc_load::load_step_for(
        args::value(given, Arg::Topology),
        |s: Seq<char>| LoadStepView::ParseTopology(s),
    ) + svc_load::load_step_for(
        args::value(given, Arg::Strategy),
        |s: Seq<char>| LoadStepView::ParseStrategy(s),
    )))
}

proof fn lemma_plan(given: args::Given, platform: Platform)
    ensures
        svc_load::load_plan(given, platform) == svc_load::app_env_steps(given) + (
        svc_load::bind_steps(args::values(given, Arg::Bind)) + closing(given, platform)),
{
    assert(svc_load::load_plan(given, platform) =~= svc_load::app_env_steps(given) + (
    svc_load::bind_steps(args::values(given, Arg::Bind)) + closing(given, platform)));
}

proof fn lemma_closing<D: Domain>(
    msg: SvcLoadView<D>,
    given: args::Given,
    platform: Platform,
    outcomes: LoadOutcomes<D>,
)
    ensures
        filled(LoadRunView { msg, todo: closing(given, platform) }, outcomes) == (
        match password_made(given, platform, outcomes) {
            Err(e) => Err(e),
            Ok(password) => Ok(
                SvcLoadView {
                    svc_encrypted_password: or_kept(password, msg.svc_encrypted_password),
                    topology: or_kept(
                        parsed_if_given(args::value(given, Arg::Topology), outcomes.topology),
                        msg.topology,
                    ),
                    update_strategy: or_kept(
                        parsed_if_given(args::value(given, Arg::Strategy), outcomes.strategy),
                        msg.update_strategy,
                    ),
                    ..msg
                },
            ),
        }),
{
    let dir = args::value(given, Arg::ConfigDir);
    let password = settings::named_password(given, platform);
    let topology = args::value(given, Arg::Topology);
    let strategy = args::value(given, Arg::Strategy);
    let make_dir = |s: Seq<char>| LoadStepView::PrintConfigWarning;
    let make_password = |s: Seq<char>| LoadStepView::EncryptPassword(s);
    let make_topology = |s: Seq<char>| LoadStepView::ParseTopology(s);
    let make_strategy = |s: Seq<char>| LoadStepView::ParseStrategy(s);
    let after_topology = svc_load::load_step_for(strategy, make_strategy);
    let after_password = svc_load::load_step_for(topology, make_topology) + after_topology;
    let after_dir = svc_load::load_step_for(password, make_password) + after_password;
    lemma_optional(msg, dir, make_dir, after_dir, outcomes);
    lemma_optional(msg, password, make_password, after_password, outcomes);
    if let Ok(made) = password_made(given, platform, outcomes) {
        let m1 = SvcLoadView {
            svc_encrypted_password: or_kept(made, msg.svc_encrypted_password),
            ..msg
        };
        lemma_optional(m1, topology, make_topology, after_topology, outcomes);
        let m2 = SvcLoadView {
            topology: or_kept(parsed_if_given(topology, outcomes.topology), m1.topology),
            ..m1
        };
        assert(after_topology + Seq::<LoadStepView>::empty() =~= after_topology);
        lemma_optional(m2, strategy, make_strategy, Seq::empty(), outcomes);
        let m3 = SvcLoadView {
            update_strategy: or_kept(
                parsed_if_given(strategy, outcomes.strategy),
                m2.update_strategy,
            ),
            ..m2
        };
        lemma_none_left(m3, outcomes);
    }
}

/// Taken from the first step to the last, a request comes to what the command line stands for:
/// the settings of the command line and of the outcomes of its steps, or the first error.
pub proof fn law_load<D: Domain>(
    given: args::Given,
    around: settings::SurroundingsView,
    platform: Platform,
    msg: SvcLoadView<D>,
    outcomes: LoadOutcomes<D>,
)
    ensures
        filled(
            LoadRunView {
                msg: svc_load::load_base(given, around, msg),
                todo: svc_load::load_plan(given, platform),
            },
            outcomes,
        ) == load_meant(given, around, platform, msg, outcomes),
{
    let base = svc_load::load_base(given, around, msg);
    let binds = args::values(given, Arg::Bind);
    let after_binds = closing(given, platform);
    let after_app_env = svc_load::bind_steps(binds) + after_binds;
    lemma_plan(given, platform);
    match settings::named_app_env(given) {
        Some((app, env)) => {
            lemma_first(base, LoadStepView::NewAppEnv(app, env), after_app_env, outcomes);
        },
        None => {
            assert(svc_load::app_env_steps(given) + after_app_env =~= after_app_env);
        },
    }
    if let Ok(made) = app_env_made(given, outcomes) {
        let m1 = SvcLoadView {
            application_environment: or_kept(made, base.application_environment),
            ..base
        };
        assert(binds.skip(0) =~= binds);
        assert(outcomes.parsed(binds).skip(0) =~= outcomes.parsed(binds));
        lemma_binds(m1, binds, 0, after_binds, outcomes);
        if let Ok(list) = all_bound::<D>(outcomes.parsed(binds)) {
            assert(m1.binds + list =~= list);
            lemma_closing(SvcLoadView { binds: list, ..m1 }, given, platform, outcomes);
        }
    }
}

/// The one value of an argument, read off the command line, or else `kept`.
pub open spec fn given_or_kept(given: args::Given, arg: Arg, kept: Option<Seq<char>>) -> Option<
    Seq<char>,
> {
    if given.contains_key(arg) && given[arg].len() > 0 {
        Some(given[arg][0])
    } else {
        kept
    }
}

/// Every field of a finished request comes from the one argument that names it, whatever else the
/// command line carries, and otherwise stays as it was in the message that it started from.
pub proof fn law_load_fields<D: Domain>(
    given: args::Given,
    around: settings::SurroundingsView,
    platform: Platform,
    msg: SvcLoadView<D>,
    outcomes: LoadOutcomes<D>,
)
    ensures
        filled(
            LoadRunView {
                msg: svc_load::load_base(given, around, msg),
                todo: svc_load::load_plan(given, platform),
            },
            outcomes,
        ) matches Ok(r) ==> {
            &&& r.ident == msg.ident
            &&& r.group == given_or_kept(given, Arg::Group, msg.group)
            &&& r.config_from == given_or_kept(given, Arg::ConfigDir, msg.config_from)
            &&& r.force <==> given.contains_key(Arg::Force)
            &&& r.specified_binds <==> given.contains_key(Arg::Bind)
            &&& r.bldr_url == (if given.contains_key(Arg::BldrUrl) && given[Arg::BldrUrl].len()
                > 0 {
                given[Arg::BldrUrl][0]
            } else if around.bldr_url_from_env is Some {
                around.bldr_url_from_env->0
            } else {
                around.default_bldr_url
            })
            &&& r.bldr_channel == (if given.contains_key(Arg::Channel)
                && given[Arg::Channel].len() > 0 {
                given[Arg::Channel][0]
            } else {
                around.default_channel
            })
            &&& r.application_environment == (if given.contains_key(Arg::Application)
                && given[Arg::Application].len() > 0 && given.contains_key(Arg::Environment)
                && given[Arg::Environment].len() > 0 {
                Some((outcomes.app_env)(given[Arg::Application][0], given[Arg::Environment][0])->Ok_0)
            } else {
                msg.application_environment
            })
            &&& r.svc_encrypted_password == (if platform == Platform::Windows
                && given.contains_key(Arg::Password) && given[Arg::Password].len() > 0 {
                Some((outcomes.password)(given[Arg::Password][0])->Ok_0)
            } else {
                msg.svc_encrypted_password
            })
            &&& r.topology == (if given.contains_key(Arg::Topology) && given[Arg::Topology].len()
                > 0 && (outcomes.topology)(given[Arg::Topology][0]) is Some {
                (outcomes.topology)(given[Arg::Topology][0])
            } else {
                msg.topology
            })
            &&& r.update_strategy == (if given.contains_key(Arg::Strategy)
                && given[Arg::Strategy].len() > 0 && (outcomes.strategy)(
                given[Arg::Strategy][0],
            ) is Some {
                (outcomes.strategy)(given[Arg::Strategy][0])
            } else {
                msg.update_strategy
            })
        },
{
    law_load(given, around, platform, msg, outcomes);
}

proof fn lemma_bound<D: Domain>(results: Seq<Result<D::Bind, D::Error>>)
    ensures
        all_bound::<D>(results) matches Ok(list) ==> list.len() == results.len() && forall|i: int|
            #![trigger results[i]]
            0 <= i < results.len() ==> results[i] == Ok::<D::Bind, D::Error>(list[i]),
        all_bound::<D>(results) is Err ==> exists|i: int|
            0 <= i < results.len() && (#[trigger] results[i]) is Err,
    decreases results.len(),
{
    if results.len() > 0 {
        let rest = results.drop_first();
        lemma_bound::<D>(rest);
        if let Ok(v) = results[0] {
            match all_bound::<D>(rest) {
                Ok(list) => {
                    assert forall|i: int| #![trigger results[i]] 0 <= i < results.len() implies
                        results[i] == Ok::<D::Bind, D::Error>((seq![v] + list)[i]) by {
                        if i > 0 {
                            assert(results[i] == rest[i - 1]);
                        }
                    }
                },
                Err(e) => {
                    let i = choose|i: int| 0 <= i < rest.len() && (#[trigger] rest[i]) is Err;
                    assert(results[i + 1] == rest[i]);
                },
            }
        }
    }
}

/// The bindings of a finished request are those of the command line, all of them and in their
/// order, and no others.
pub proof fn law_load_binds<D: Domain>(
    given: args::Given,
    around: settings::SurroundingsView,
    platform: Platform,
    msg: SvcLoadView<D>,
    outcomes: LoadOutcomes<D>,
)
    ensures
        filled(
            LoadRunView {
                msg: svc_load::load_base(given, around, msg),
                todo: svc_load::load_plan(given, platform),
            },
            outcomes,
        ) matches Ok(r) ==> {
            &&& r.binds.len() == (if given.contains_key(Arg::Bind) {
                given[Arg::Bind].len()
            } else {
                0
            })
            &&& forall|i: int|
                #![trigger given[Arg::Bind][i]]
                0 <= i < r.binds.len() ==> (outcomes.binds)(i, given[Arg::Bind][i]) == Ok::<
                    D::Bind,
                    D::Error,
                >(r.binds[i])
        },
{
    law_load(given, around, platform, msg, outcomes);
    let results = outcomes.parsed(args::values(given, Arg::Bind));
    lemma_bound::<D>(results);
    if let Ok(r) = load_meant(given, around, platform, msg, outcomes) {
        assert forall|i: int| #![trigger given[Arg::Bind][i]] 0 <= i < r.binds.len() implies (
        outcomes.binds)(i, given[Arg::Bind][i]) == Ok::<D::Bind, D::Error>(r.binds[i]) by {
            assert(results[i] == Ok::<D::Bind, D::Error>(r.binds[i]));
        }
    }
}

/// A request fails exactly where one of these does: the application with its environment where
/// both were given, a binding, the password where one is asked for. A topology or an update
/// strategy that is none is no reason to fail.
pub proof fn law_load_fails<D: Domain>(
    given: args::Given,
    around: settings::SurroundingsView,
    platform: Platform,
    msg: SvcLoadView<D>,
    outcomes: LoadOutcomes<D>,
)
    ensures
        filled(
            LoadRunView {
                msg: svc_load::load_base(given, around, msg),
                todo: svc_load::load_plan(given, platform),
            },
            outcomes,
        ) is Err <==> {
            ||| given.contains_key(Arg::Application) && given[Arg::Application].len() > 0
                && given.contains_key(Arg::Environment) && given[Arg::Environment].len() > 0 && (
            outcomes.app_env)(given[Arg::Application][0], given[Arg::Environment][0]) is Err
            ||| exists|i: int|
                0 <= i < args::values(given, Arg::Bind).len() && (outcomes.binds)(
                    i,
                    #[trigger] args::values(given, Arg::Bind)[i],
                ) is Err
            ||| platform == Platform::Windows && given.contains_key(Arg::Password)
                && given[Arg::Password].len() > 0 && (outcomes.password)(
                given[Arg::Password][0],
            ) is Err
        },
{
    law_load(given, around, platform, msg, outcomes);
    let binds = args::values(given, Arg::Bind);
    let results = outcomes.parsed(binds);
    lemma_bound::<D>(results);
    assert forall|i: int| 0 <= i < binds.len() implies results[i] == (outcomes.binds)(
        i,
        #[trigger] binds[i],
    ) by {}
    if all_bound::<D>(results) is Err {
        let i = choose|i: int| 0 <= i < results.len() && (#[trigger] results[i]) is Err;
        assert((outcomes.binds)(i, binds[i]) is Err);
    }
}

/// Every step can be answered with whatever it comes to.
pub proof fn law_load_replies<D: Domain>(step: LoadStepView, n: nat, outcomes: LoadOutcomes<D>)
    ensures
        svc_load::load_reply_fits(step, outcomes.reply(step, n)),
{
}

/// The steps of a request, one by one: what is handed to whom, that the warning is printed exactly
/// where a directory is given, and in which order.
pub proof fn law_load_steps(given: args::Given, platform: Platform)
    ensures
        ({
            let plan = svc_load::load_plan(given, platform);
            let app_env = config_laws::valued(given, Arg::Application) && config_laws::valued(
                given,
                Arg::Environment,
            );
            let binds = config_laws::count(app_env);
            let n = if given.contains_key(Arg::Bind) {
                given[Arg::Bind].len()
            } else {
                0
            };
            let dir = binds + n;
            let password = dir + config_laws::count(config_laws::valued(given, Arg::ConfigDir));
            let encrypts = platform == Platform::Windows && config_laws::valued(
                given,
                Arg::Password,
            );
            let topology = password + config_laws::count(encrypts);
            let strategy = topology + config_laws::count(
                config_laws::valued(given, Arg::Topology),
            );
            &&& app_env ==> plan[0] == LoadStepView::NewAppEnv(
                given[Arg::Application][0],
                given[Arg::Environment][0],
            )
            &&& forall|i: int|
                0 <= i < n ==> #[trigger] plan[binds + i] == LoadStepView::ParseBind(
                    given[Arg::Bind][i],
                )
            &&& config_laws::valued(given, Arg::ConfigDir) ==> plan[dir]
                == LoadStepView::PrintConfigWarning
            &&& encrypts ==> plan[password] == LoadStepView::EncryptPassword(
                given[Arg::Password][0],
            )
            &&& config_laws::valued(given, Arg::Topology) ==> plan[topology]
                == LoadStepView::ParseTopology(given[Arg::Topology][0])
            &&& config_laws::valued(given, Arg::Strategy) ==> plan[strategy]
                == LoadStepView::ParseStrategy(given[Arg::Strategy][0])
            &&& plan.len() == strategy + config_laws::count(
                config_laws::valued(given, Arg::Strategy),
            )
        }),
{
}

/// An empty request has nothing set.
pub proof fn law_empty_load<D: Domain>()
    ensures
        ({
            let empty = svc_load::empty_load::<D>();
            &&& empty.ident is None && empty.application_environment is None && empty.config_from
                is None && empty.group is None && empty.svc_encrypted_password is None
                && empty.topology is None && empty.update_strategy is None
            &&& empty.binds.len() == 0 && empty.bldr_url.len() == 0 && empty.bldr_channel.len() == 0
            &&& !empty.specified_binds && !empty.force
        }),
{
}

/// A Supervisor updates itself and its services from the same Builder and the same channel.
pub proof fn law_one_builder<D: Domain>(
    given: args::Given,
    around: settings::SurroundingsView,
    msg: SvcLoadView<D>,
)
    ensures
        svc_load::load_base(given, around, msg).bldr_url == config::config_base::<D>(
            given,
            around,
        ).update_url,
        svc_load::load_base(given, around, msg).bldr_channel == config::config_base::<D>(
            given,
            around,
        ).update_channel,
{
}

} // verus!
