//! How the request to load a service follows from the command line.
//!
//! As with the configuration, other components parse names and encrypt the password: `LoadRun`
//! holds the request as far as it is filled in and the steps that are left.

use crate::args;
use crate::args::Arg;
use crate::args::ArgMatches;
use crate::domain::Domain;
use crate::domain::Platform;
use crate::settings;
use crate::settings::Surroundings;
use crate::text;
use vstd::prelude::*;

verus! {

/// The request to load a service. What is `None` is not set in the message.
pub struct SvcLoad<D: Domain> {
    pub ident: Option<D::Ident>,
    pub bldr_url: String,
    pub bldr_channel: String,
    pub application_environment: Option<D::AppEnv>,
    pub binds: Vec<D::Bind>,
    /// Whether bindings were given at all.
    pub specified_binds: bool,
    pub config_from: Option<String>,
    /// Whether a service that is loaded already is loaded again, which is what `--force` asks
    /// for.
    pub force: bool,
    pub group: Option<String>,
    pub svc_encrypted_password: Option<String>,
    pub topology: Option<D::Topology>,
    pub update_strategy: Option<D::Strategy>,
}

/// What an `SvcLoad` holds.
#[verifier::ext_equal]
pub struct SvcLoadView<D: Domain> {
    pub ident: Option<D::Ident>,
    pub bldr_url: Seq<char>,
    pub bldr_channel: Seq<char>,
    pub application_environment: Option<D::AppEnv>,
    pub binds: Seq<D::Bind>,
    pub specified_binds: bool,
    pub config_from: Option<Seq<char>>,
    pub force: bool,
    pub group: Option<Seq<char>>,
    pub svc_encrypted_password: Option<Seq<char>>,
    pub topology: Option<D::Topology>,
    pub update_strategy: Option<D::Strategy>,
}

impl<D: Domain> View for SvcLoad<D> {
    type V = SvcLoadView<D>;

    open spec fn view(&self) -> SvcLoadView<D> {
        SvcLoadView {
            ident: self.ident,
            bldr_url: self.bldr_url@,
            bldr_channel: self.bldr_channel@,
            application_environment: self.application_environment,
            binds: self.binds@,
            specified_binds: self.specified_binds,
            config_from: text::opt_text(self.config_from),
            force: self.force,
            group: text::opt_text(self.group),
            svc_encrypted_password: text::opt_text(self.svc_encrypted_password),
            topology: self.topology,
            update_strategy: self.update_strategy,
        }
    }
}

/// A request in which nothing is set.
pub open spec fn empty_load<D: Domain>() -> SvcLoadView<D> {
    SvcLoadView {
        ident: None,
        bldr_url: Seq::empty(),
        bldr_channel: Seq::empty(),
        application_environment: None,
        binds: Seq::empty(),
        specified_binds: false,
        config_from: None,
        force: false,
        group: None,
        svc_encrypted_password: None,
        topology: None,
        update_strategy: None,
    }
}

impl<D: Domain> SvcLoad<D> {
    /// A request in which nothing is set.
    pub fn new() -> (msg: SvcLoad<D>)
        ensures
            msg@ == empty_load::<D>(),
    {
        SvcLoad {
            ident: None,
            bldr_url: String::new(),
            bldr_channel: String::new(),
            application_environment: None,
            binds: Vec::new(),
            specified_binds: false,
            config_from: None,
            force: false,
            group: None,
            svc_encrypted_password: None,
            topology: None,
            update_strategy: None,
        }
    }
}

/// Work that other components do for the request.
#[derive(Debug)]
pub enum LoadStep {
    /// Put an application and an environment together.
    NewAppEnv(String, String),
    /// Parse the text as a binding.
    ParseBind(String),
    /// Print the lines of `config_warning_lines`.
    PrintConfigWarning,
    /// Encrypt the password.
    EncryptPassword(String),
    /// Parse the text as a topology.
    ParseTopology(String),
    /// Parse the text as an update strategy.
    ParseStrategy(String),
}

/// What a `LoadStep` holds.
pub enum LoadStepView {
    NewAppEnv(Seq<char>, Seq<char>),
    ParseBind(Seq<char>),
    PrintConfigWarning,
    EncryptPassword(Seq<char>),
    ParseTopology(Seq<char>),
    ParseStrategy(Seq<char>),
}

impl View for LoadStep {
    type V = LoadStepView;

    open spec fn view(&self) -> LoadStepView {
        match self {
            LoadStep::NewAppEnv(app, env) => LoadStepView::NewAppEnv(app@, env@),
            LoadStep::ParseBind(s) => LoadStepView::ParseBind(s@),
            LoadStep::PrintConfigWarning => LoadStepView::PrintConfigWarning,
            LoadStep::EncryptPassword(s) => LoadStepView::EncryptPassword(s@),
            LoadStep::ParseTopology(s) => LoadStepView::ParseTopology(s@),
            LoadStep::ParseStrategy(s) => LoadStepView::ParseStrategy(s@),
        }
    }
}

/// What came of a step.
pub enum LoadReply<D: Domain> {
    /// The lines are printed.
    Printed,
    /// The application with its environment.
    AppEnv(D::AppEnv),
    /// The binding.
    Bind(D::Bind),
    /// The encrypted password.
    Encrypted(String),
    /// The topology, if the text was one.
    Topology(Option<D::Topology>),
    /// The update strategy, if the text was one.
    Strategy(Option<D::Strategy>),
    /// The step failed.
    Failed(D::Error),
}

/// What a `LoadReply` holds.
pub enum LoadReplyView<D: Domain> {
    Printed,
    AppEnv(D::AppEnv),
    Bind(D::Bind),
    Encrypted(Seq<char>),
    Topology(Option<D::Topology>),
    Strategy(Option<D::Strategy>),
    Failed(D::Error),
}

impl<D: Domain> View for LoadReply<D> {
    type V = LoadReplyView<D>;

    open spec fn view(&self) -> LoadReplyView<D> {
        match self {
            LoadReply::Printed => LoadReplyView::Printed,
            LoadReply::AppEnv(v) => LoadReplyView::AppEnv(*v),
            LoadReply::Bind(v) => LoadReplyView::Bind(*v),
            LoadReply::Encrypted(s) => LoadReplyView::Encrypted(s@),
            LoadReply::Topology(v) => LoadReplyView::Topology(*v),
            LoadReply::Strategy(v) => LoadReplyView::Strategy(*v),
            LoadReply::Failed(e) => LoadReplyView::Failed(*e),
        }
    }
}

/// Whether `reply` is one that `step` can have.
pub open spec fn load_reply_fits<D: Domain>(step: LoadStepView, reply: LoadReplyView<D>) -> bool {
    match step {
        LoadStepView::NewAppEnv(_, _) => reply is AppEnv || reply is Failed,
        LoadStepView::ParseBind(_) => reply is Bind || reply is Failed,
        LoadStepView::PrintConfigWarning => reply is Printed,
        LoadStepView::EncryptPassword(_) => reply is Encrypted || reply is Failed,
        LoadStepView::ParseTopology(_) => reply is Topology,
        LoadStepView::ParseStrategy(_) => reply is Strategy,
    }
}

/// A request in the making.
pub struct LoadRun<D: Domain> {
    /// The request as far as it is filled in.
    msg: SvcLoad<D>,
    /// The steps that are left, the next one first.
    todo: Vec<LoadStep>,
}

/// What a `LoadRun` holds.
#[verifier::ext_equal]
pub struct LoadRunView<D: Domain> {
    pub msg: SvcLoadView<D>,
    pub todo: Seq<LoadStepView>,
}

/// What the steps of `list` hold.
pub open spec fn load_steps(list: Seq<LoadStep>) -> Seq<LoadStepView> {
    Seq::new(list.len(), |i: int| list[i]@)
}

impl<D: Domain> View for LoadRun<D> {
    type V = LoadRunView<D>;

    closed spec fn view(&self) -> LoadRunView<D> {
        LoadRunView { msg: self.msg@, todo: load_steps(self.todo@) }
    }
}

/// The steps that build on an optional setting, where it was given.
pub open spec fn load_step_for(
    value: Option<Seq<char>>,
    make: spec_fn(Seq<char>) -> LoadStepView,
) -> Seq<LoadStepView> {
    match value {
        Some(s) => seq![make(s)],
        None => Seq::empty(),
    }
}

/// The step that puts application and environment together, where both were given.
pub open spec fn app_env_steps(given: args::Given) -> Seq<LoadStepView> {
    match settings::named_app_env(given) {
        Some((app, env)) => seq![LoadStepView::NewAppEnv(app, env)],
        None => Seq::empty(),
    }
}

/// The steps that parse the bindings.
pub open spec fn bind_steps(binds: Seq<Seq<char>>) -> Seq<LoadStepView> {
    Seq::new(binds.len(), |i: int| LoadStepView::ParseBind(binds[i]))
}

/// The steps that a command line asks for, in their order.
pub open spec fn load_plan(given: args::Given, platform: Platform) -> Seq<LoadStepView> {
    app_env_steps(given) + bind_steps(args::values(given, Arg::Bind)) + load_step_for(
        args::value(given, Arg::ConfigDir),
        |s: Seq<char>| LoadStepView::PrintConfigWarning,
    ) + load_step_for(
        settings::named_password(given, platform),
        |s: Seq<char>| LoadStepView::EncryptPassword(s),
    ) + load_step_for(
        args::value(given, Arg::Topology),
        |s: Seq<char>| LoadStepView::ParseTopology(s),
    ) + load_step_for(
        args::value(given, Arg::Strategy),
        |s: Seq<char>| LoadStepView::ParseStrategy(s),
    )
}

/// The request as far as it is filled in before any step is taken. What the command line does
/// not speak of stays as it is in `msg`.
pub open spec fn load_base<D: Domain>(
    given: args::Given,
    around: settings::SurroundingsView,
    msg: SvcLoadView<D>,
) -> SvcLoadView<D> {
    SvcLoadView {
        bldr_url: settings::chosen_bldr_url(given, around),
        bldr_channel: settings::chosen_channel(given, around),
        binds: Seq::empty(),
        specified_binds: given.contains_key(Arg::Bind),
        config_from: match args::value(given, Arg::ConfigDir) {
            Some(dir) => Some(dir),
            None => msg.config_from,
        },
        force: given.contains_key(Arg::Force),
        group: match args::value(given, Arg::Group) {
            Some(group) => Some(group),
            None => msg.group,
        },
        ..msg
    }
}

impl<D: Domain> LoadRunView<D> {
    /// How the request stands after `reply` to its first step, or the error it is given up with.
    pub open spec fn answered(self, reply: LoadReplyView<D>) -> Result<LoadRunView<D>, D::Error> {
        let rest = self.todo.drop_first();
        match reply {
            LoadReplyView::Failed(error) => Err(error),
            LoadReplyView::Printed => Ok(LoadRunView { msg: self.msg, todo: rest }),
            LoadReplyView::AppEnv(v) => Ok(
                LoadRunView {
                    msg: SvcLoadView { application_environment: Some(v), ..self.msg },
                    todo: rest,
                },
            ),
            LoadReplyView::Bind(v) => Ok(
                LoadRunView {
                    msg: SvcLoadView { binds: self.msg.binds.push(v), ..self.msg },
                    todo: rest,
                },
            ),
            LoadReplyView::Encrypted(s) => Ok(
                LoadRunView {
                    msg: SvcLoadView { svc_encrypted_password: Some(s), ..self.msg },
                    todo: rest,
                },
            ),
            LoadReplyView::Topology(v) => Ok(
                LoadRunView {
                    msg: match v {
                        Some(topology) => SvcLoadView { topology: Some(topology), ..self.msg },
                        None => self.msg,
                    },
                    todo: rest,
                },
            ),
            LoadReplyView::Strategy(v) => Ok(
                LoadRunView {
                    msg: match v {
                        Some(strategy) => SvcLoadView {
                            update_strategy: Some(strategy),
                            ..self.msg
                        },
                        None => self.msg,
                    },
                    todo: rest,
                },
            ),
        }
    }
}

/// The lines that warn whoever takes configuration from a directory.
pub fn config_warning_lines() -> (lines: [&'static str; 3])
    ensures
        lines@ == seq![
            "",
            "WARNING: Setting '--config-from' should only be used in development, not production!",
            "",
        ],
{
    [
        "",
        "WARNING: Setting '--config-from' should only be used in development, not production!",
        "",
    ]
}

fn push_step(todo: &mut Vec<LoadStep>, step: LoadStep)
    ensures
        load_steps(final(todo)@) == load_steps(old(todo)@) + seq![step@],
{
    todo.push(step);
    proof {
        assert(load_steps(todo@) =~= load_steps(old(todo)@) + seq![step@]);
    }
}

/// The steps that the command line asks for.
pub fn load_todo(m: &ArgMatches, platform: Platform) -> (todo: Vec<LoadStep>)
    ensures
        load_steps(todo@) == load_plan(m@, platform),
{
    let mut todo: Vec<LoadStep> = Vec::new();
    proof {
        assert(load_steps(todo@) =~= Seq::empty());
    }
    if let Some((app, env)) = settings::get_app_env_from_input(m) {
        push_step(&mut todo, LoadStep::NewAppEnv(app, env));
    }
    let ghost before = load_steps(todo@);
    let ghost binds = args::values(m@, Arg::Bind);
    let list = settings::get_binds_from_input(m);
    proof {
        assert(before + bind_steps(binds.take(0)) =~= before);
    }
    for i in 0..list.len()
        invariant
            binds == text::texts(list@),
            load_steps(todo@) == before + bind_steps(binds.take(i as int)),
    {
        push_step(&mut todo, LoadStep::ParseBind(list[i].clone()));
        proof {
            assert(bind_steps(binds.take(i + 1)) =~= bind_steps(binds.take(i as int)) + seq![
                LoadStepView::ParseBind(binds[i as int]),
            ]);
            assert(load_steps(todo@) =~= before + bind_steps(binds.take(i + 1)));
        }
    }
    proof {
        assert(binds.take(binds.len() as int) =~= binds);
    }
    if let Some(_) = settings::get_config_from_input(m) {
        push_step(&mut todo, LoadStep::PrintConfigWarning);
    }
    if let Some(s) = settings::get_password_from_input(m, platform) {
        push_step(&mut todo, LoadStep::EncryptPassword(s));
    }
    if let Some(s) = settings::get_topology_from_input(m) {
        push_step(&mut todo, LoadStep::ParseTopology(s));
    }
    if let Some(s) = settings::get_strategy_from_input(m) {
        push_step(&mut todo, LoadStep::ParseStrategy(s));
    }
    proof {
        assert(load_steps(todo@) =~= load_plan(m@, platform));
    }
    todo
}

/// Begins to fill in `msg` with all that the command line says. This covers the options that
/// `run` and `load` share.
pub fn update_svc_load_from_input<D: Domain>(
    m: &ArgMatches,
    around: &Surroundings,
    platform: Platform,
    msg: SvcLoad<D>,
) -> (run: LoadRun<D>)
    ensures
        run@.msg == load_base(m@, around@, msg@),
        run@.todo == load_plan(m@, platform),
{
    let mut msg = msg;
    msg.bldr_url = settings::bldr_url(m, around);
    msg.bldr_channel = settings::channel(m, around);
    msg.binds = Vec::new();
    msg.specified_binds = m.is_present(Arg::Bind);
    if let Some(dir) = settings::get_config_from_input(m) {
        msg.config_from = Some(dir);
    }
    msg.force = m.is_present(Arg::Force);
    if let Some(group) = settings::get_group_from_input(m) {
        msg.group = Some(group);
    }
    LoadRun { msg, todo: load_todo(m, platform) }
}

impl<D: Domain> LoadRun<D> {
    /// The next step, if one is left.
    pub fn next_step(&self) -> (step: Option<&LoadStep>)
        ensures
            match step {
                Some(s) => self@.todo.len() > 0 && s@ == self@.todo[0],
                None => self@.todo.len() == 0,
            },
    {
        if self.todo.len() > 0 {
            Some(&self.todo[0])
        } else {
            None
        }
    }

    /// The request, once no step is left.
    pub fn into_request(self) -> (msg: SvcLoad<D>)
        requires
            self@.todo.len() == 0,
        ensures
            msg@ == self@.msg,
    {
        self.msg
    }

    /// Takes in the reply to the first step.
    pub fn answer(self, reply: LoadReply<D>) -> (next: Result<LoadRun<D>, D::Error>)
        requires
            self@.todo.len() > 0,
            load_reply_fits(self@.todo[0], reply@),
        ensures
            match next {
                Ok(run) => self@.answered(reply@) == Ok::<LoadRunView<D>, D::Error>(run@),
                Err(e) => self@.answered(reply@) == Err::<LoadRunView<D>, D::Error>(e),
            },
    {
        let mut msg = self.msg;
        let mut todo = self.todo;
        todo.remove(0);
        proof {
            assert(load_steps(todo@) =~= self@.todo.drop_first());
        }
        match reply {
            LoadReply::Failed(error) => {
                return Err(error);
            },
            LoadReply::Printed => {},
            LoadReply::AppEnv(v) => {
                msg.application_environment = Some(v);
            },
            LoadReply::Bind(v) => {
                msg.binds.push(v);
            },
            LoadReply::Encrypted(s) => {
                msg.svc_encrypted_password = Some(s);
            },
            LoadReply::Topology(v) => {
                if let Some(topology) = v {
                    msg.topology = Some(topology);
                }
            },
            LoadReply::Strategy(v) => {
                if let Some(strategy) = v {
                    msg.update_strategy = Some(strategy);
                }
            },
        }
        Ok(LoadRun { msg, todo })
    }
}

} // verus!
