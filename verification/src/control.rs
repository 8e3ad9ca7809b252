//! The commands that ask something of a running Supervisor.
//!
//! Each of them builds one request and sends it through the control gateway. `CtlRun` holds the
//! request as far as it is built and the steps that are left.

use crate::args;
use crate::args::Arg;
use crate::args::ArgMatches;
use crate::domain::Domain;
use crate::settings;
use crate::svc_load;
use crate::svc_load::SvcLoad;
use crate::svc_load::SvcLoadView;
use crate::text;
use vstd::prelude::*;

verus! {

/// A request to a running Supervisor, with the package that it is about.
pub enum Request<D: Domain> {
    SvcGetDefaultCfg(Option<D::Ident>),
    SvcLoad(SvcLoad<D>),
    SvcUnload(Option<D::Ident>),
    SvcStart(Option<D::Ident>),
    SvcStatus(Option<D::Ident>),
    SvcStop(Option<D::Ident>),
}

/// What a `Request` holds.
#[verifier::ext_equal]
pub enum RequestView<D: Domain> {
    SvcGetDefaultCfg(Option<D::Ident>),
    SvcLoad(SvcLoadView<D>),
    SvcUnload(Option<D::Ident>),
    SvcStart(Option<D::Ident>),
    SvcStatus(Option<D::Ident>),
    SvcStop(Option<D::Ident>),
}

impl<D: Domain> View for Request<D> {
    type V = RequestView<D>;

    open spec fn view(&self) -> RequestView<D> {
        match self {
            Request::SvcGetDefaultCfg(ident) => RequestView::SvcGetDefaultCfg(*ident),
            Request::SvcLoad(msg) => RequestView::SvcLoad(msg@),
            Request::SvcUnload(ident) => RequestView::SvcUnload(*ident),
            Request::SvcStart(ident) => RequestView::SvcStart(*ident),
            Request::SvcStatus(ident) => RequestView::SvcStatus(*ident),
            Request::SvcStop(ident) => RequestView::SvcStop(*ident),
        }
    }
}

impl<D: Domain> RequestView<D> {
    /// The package that the request is about.
    pub open spec fn ident(self) -> Option<D::Ident> {
        match self {
            RequestView::SvcGetDefaultCfg(ident) => ident,
            RequestView::SvcLoad(msg) => msg.ident,
            RequestView::SvcUnload(ident) => ident,
            RequestView::SvcStart(ident) => ident,
            RequestView::SvcStatus(ident) => ident,
            RequestView::SvcStop(ident) => ident,
        }
    }

    /// The same request about `ident`.
    pub open spec fn about(self, ident: D::Ident) -> RequestView<D> {
        match self {
            RequestView::SvcGetDefaultCfg(_) => RequestView::SvcGetDefaultCfg(Some(ident)),
            RequestView::SvcLoad(msg) => RequestView::SvcLoad(
                SvcLoadView { ident: Some(ident), ..msg },
            ),
            RequestView::SvcUnload(_) => RequestView::SvcUnload(Some(ident)),
            RequestView::SvcStart(_) => RequestView::SvcStart(Some(ident)),
            RequestView::SvcStatus(_) => RequestView::SvcStatus(Some(ident)),
            RequestView::SvcStop(_) => RequestView::SvcStop(Some(ident)),
        }
    }
}

impl<D: Domain> Request<D> {
    /// The same request about `ident`.
    pub fn set_ident(self, ident: D::Ident) -> (r: Request<D>)
        ensures
            r@ == self@.about(ident),
    {
        match self {
            Request::SvcGetDefaultCfg(_) => Request::SvcGetDefaultCfg(Some(ident)),
            Request::SvcLoad(msg) => {
                let mut msg = msg;
                msg.ident = Some(ident);
                Request::SvcLoad(msg)
            },
            Request::SvcUnload(_) => Request::SvcUnload(Some(ident)),
            Request::SvcStart(_) => Request::SvcStart(Some(ident)),
            Request::SvcStatus(_) => Request::SvcStatus(Some(ident)),
            Request::SvcStop(_) => Request::SvcStop(Some(ident)),
        }
    }
}

/// Work that other components do for a command.
#[derive(Debug)]
pub enum CtlStep {
    /// Turn verbose output on.
    SetVerbose,
    /// Turn colored output off.
    SetNoColor,
    /// Parse the text as a package identifier.
    ParseIdent(String),
    /// Make the configuration that says where the Supervisor is, from the same command line.
    BuildConfig,
    /// Fill in an empty request to load a service with `update_svc_load_from_input`, from the same
    /// command line.
    FillLoad,
    /// Read the key that the control gateway asks for.
    ReadSecretKey,
    /// Make the call that `CtlRun::into_call` gives, and attend to the replies.
    Call,
}

/// What a `CtlStep` holds.
pub enum CtlStepView {
    SetVerbose,
    SetNoColor,
    ParseIdent(Seq<char>),
    BuildConfig,
    FillLoad,
    ReadSecretKey,
    Call,
}

impl View for CtlStep {
    type V = CtlStepView;

    open spec fn view(&self) -> CtlStepView {
        match self {
            CtlStep::SetVerbose => CtlStepView::SetVerbose,
            CtlStep::SetNoColor => CtlStepView::SetNoColor,
            CtlStep::ParseIdent(s) => CtlStepView::ParseIdent(s@),
            CtlStep::BuildConfig => CtlStepView::BuildConfig,
            CtlStep::FillLoad => CtlStepView::FillLoad,
            CtlStep::ReadSecretKey => CtlStepView::ReadSecretKey,
            CtlStep::Call => CtlStepView::Call,
        }
    }
}

/// What came of a step.
pub enum CtlStepReply<D: Domain> {
    /// The step is done.
    Done,
    /// The configuration is made, and has the control gateway at this address.
    Config(D::SocketAddr),
    /// The package identifier.
    Ident(D::Ident),
    /// The request to load a service, filled in.
    Load(SvcLoad<D>),
    /// What was read of the key, and whether there is one at all.
    SecretKey { found: bool, key: String },
    /// The step failed.
    Failed(D::Error),
}

/// What a `CtlStepReply` holds.
pub enum CtlStepReplyView<D: Domain> {
    Done,
    Config(D::SocketAddr),
    Ident(D::Ident),
    Load(SvcLoadView<D>),
    SecretKey { found: bool, key: Seq<char> },
    Failed(D::Error),
}

impl<D: Domain> View for CtlStepReply<D> {
    type V = CtlStepReplyView<D>;

    open spec fn view(&self) -> CtlStepReplyView<D> {
        match self {
            CtlStepReply::Done => CtlStepReplyView::Done,
            CtlStepReply::Config(address) => CtlStepReplyView::Config(*address),
            CtlStepReply::Ident(ident) => CtlStepReplyView::Ident(*ident),
            CtlStepReply::Load(msg) => CtlStepReplyView::Load(msg@),
            CtlStepReply::SecretKey { found, key } => CtlStepReplyView::SecretKey {
                found: *found,
                key: key@,
            },
            CtlStepReply::Failed(e) => CtlStepReplyView::Failed(*e),
        }
    }
}

/// Whether `reply` is one that `step` can have. The last step has none: the command is its call.
pub open spec fn ctl_reply_fits<D: Domain>(step: CtlStepView, reply: CtlStepReplyView<D>) -> bool {
    match step {
        CtlStepView::SetVerbose => reply is Done,
        CtlStepView::SetNoColor => reply is Done,
        CtlStepView::ParseIdent(_) => reply is Ident || reply is Failed,
        CtlStepView::BuildConfig => reply is Config || reply is Failed,
        CtlStepView::FillLoad => reply is Load || reply is Failed,
        CtlStepView::ReadSecretKey => reply is SecretKey || reply is Failed,
        CtlStepView::Call => false,
    }
}

/// Why a command is given up.
pub enum CtlError<E> {
    /// A step failed.
    Step(E),
    /// There is no key for the control gateway.
    CtlSecretNotFound,
}

/// The call that a command makes.
pub struct Call<D: Domain> {
    /// The address of the control gateway to connect to.
    pub address: D::SocketAddr,
    /// The key to connect with.
    pub secret_key: String,
    /// The one request to send.
    pub request: Request<D>,
}

/// What a `Call` holds.
#[verifier::ext_equal]
pub struct CallView<D: Domain> {
    pub address: D::SocketAddr,
    pub secret_key: Seq<char>,
    pub request: RequestView<D>,
}

impl<D: Domain> View for Call<D> {
    type V = CallView<D>;

    open spec fn view(&self) -> CallView<D> {
        CallView {
            address: self.address,
            secret_key: self.secret_key@,
            request: self.request@,
        }
    }
}

/// A command under way.
pub struct CtlRun<D: Domain> {
    /// The request as far as it is built.
    request: Request<D>,
    /// The address of the control gateway, once the configuration is made.
    address: Option<D::SocketAddr>,
    /// The key for the control gateway, once it is read.
    secret_key: Option<String>,
    /// The steps that are left, the next one first.
    todo: Vec<CtlStep>,
}

/// What a `CtlRun` holds.
#[verifier::ext_equal]
pub struct CtlRunView<D: Domain> {
    pub request: RequestView<D>,
    pub address: Option<D::SocketAddr>,
    pub secret_key: Option<Seq<char>>,
    pub todo: Seq<CtlStepView>,
}

/// What the steps of `list` hold.
pub open spec fn ctl_steps(list: Seq<CtlStep>) -> Seq<CtlStepView> {
    Seq::new(list.len(), |i: int| list[i]@)
}

impl<D: Domain> View for CtlRun<D> {
    type V = CtlRunView<D>;

    closed spec fn view(&self) -> CtlRunView<D> {
        CtlRunView {
            request: self.request@,
            address: self.address,
            secret_key: text::opt_text(self.secret_key),
            todo: ctl_steps(self.todo@),
        }
    }
}

/// The steps that set how the program talks.
pub open spec fn toggles(given: args::Given) -> Seq<CtlStepView> {
    let verbose = if given.contains_key(Arg::Verbose) {
        seq![CtlStepView::SetVerbose]
    } else {
        Seq::empty()
    };
    let color = if given.contains_key(Arg::NoColor) {
        seq![CtlStepView::SetNoColor]
    } else {
        Seq::empty()
    };
    verbose + color
}

/// The steps of a command about one package: the package comes first.
pub open spec fn ident_plan(given: args::Given) -> Seq<CtlStepView> {
    toggles(given) + seq![
        CtlStepView::ParseIdent(args::value(given, Arg::PkgIdent)->0),
        CtlStepView::BuildConfig,
        CtlStepView::ReadSecretKey,
        CtlStepView::Call,
    ]
}

/// The steps of `load`: the package comes after all else that the command line says.
pub open spec fn load_ctl_plan(given: args::Given) -> Seq<CtlStepView> {
    toggles(given) + seq![
        CtlStepView::BuildConfig,
        CtlStepView::FillLoad,
        CtlStepView::ParseIdent(args::value(given, Arg::PkgIdent)->0),
        CtlStepView::ReadSecretKey,
        CtlStepView::Call,
    ]
}

/// The steps of `status`, for which a package need not be named.
pub open spec fn status_plan(given: args::Given) -> Seq<CtlStepView> {
    let ident = match args::value(given, Arg::PkgIdent) {
        Some(s) => seq![CtlStepView::ParseIdent(s)],
        None => Seq::empty(),
    };
    toggles(given) + seq![CtlStepView::BuildConfig] + ident + seq![
        CtlStepView::ReadSecretKey,
        CtlStepView::Call,
    ]
}

/// The key for the control gateway, given what came of reading it.
pub open spec fn secret_key_of<E>(read: Result<bool, E>, key: Seq<char>) -> Result<
    Seq<char>,
    CtlError<E>,
> {
    match read {
        Ok(found) => if found {
            Ok(key)
        } else {
            Err(CtlError::CtlSecretNotFound)
        },
        Err(e) => Err(CtlError::Step(e)),
    }
}

impl<D: Domain> CtlRunView<D> {
    /// Whether the configuration is made and the key is read before any call.
    pub open spec fn prepared(self) -> bool {
        forall|i: int|
            0 <= i < self.todo.len() && (#[trigger] self.todo[i]) is Call ==> {
                &&& self.address is Some || exists|j: int|
                    0 <= j < i && (#[trigger] self.todo[j]) is BuildConfig
                &&& self.secret_key is Some || exists|j: int|
                    0 <= j < i && (#[trigger] self.todo[j]) is ReadSecretKey
            }
    }

    /// How the command stands after `reply` to its first step, or why it is given up.
    pub open spec fn answered(self, reply: CtlStepReplyView<D>) -> Result<
        CtlRunView<D>,
        CtlError<D::Error>,
    > {
        let rest = self.todo.drop_first();
        match reply {
            CtlStepReplyView::Done => Ok(CtlRunView { todo: rest, ..self }),
            CtlStepReplyView::Config(address) => Ok(
                CtlRunView { address: Some(address), todo: rest, ..self },
            ),
            CtlStepReplyView::Ident(ident) => Ok(
                CtlRunView { request: self.request.about(ident), todo: rest, ..self },
            ),
            CtlStepReplyView::Load(msg) => Ok(
                CtlRunView { request: RequestView::SvcLoad(msg), todo: rest, ..self },
            ),
            CtlStepReplyView::SecretKey { found, key } => match secret_key_of::<D::Error>(
                Ok(found),
                key,
            ) {
                Ok(key) => Ok(CtlRunView { secret_key: Some(key), todo: rest, ..self }),
                Err(e) => Err(e),
            },
            CtlStepReplyView::Failed(e) => Err(CtlError::Step(e)),
        }
    }
}

/// What a call takes is still there, or still to come before it, after a reply.
proof fn lemma_prepared<D: Domain>(run: CtlRunView<D>, reply: CtlStepReplyView<D>)
    requires
        run.prepared(),
        run.todo.len() > 0,
        ctl_reply_fits(run.todo[0], reply),
    ensures
        run.answered(reply) matches Ok(next) ==> next.prepared(),
{
    if let Ok(next) = run.answered(reply) {
        assert forall|i: int| 0 <= i < next.todo.len() && (#[trigger] next.todo[i])
            is Call implies {
            &&& next.address is Some || exists|j: int|
                0 <= j < i && (#[trigger] next.todo[j]) is BuildConfig
            &&& next.secret_key is Some || exists|j: int|
                0 <= j < i && (#[trigger] next.todo[j]) is ReadSecretKey
        } by {
            assert(run.todo[i + 1] is Call);
            if next.address is None {
                let j = choose|j: int| 0 <= j < i + 1 && (#[trigger] run.todo[j]) is BuildConfig;
                assert(next.todo[j - 1] is BuildConfig);
            }
            if next.secret_key is None {
                let j = choose|j: int|
                    0 <= j < i + 1 && (#[trigger] run.todo[j]) is ReadSecretKey;
                assert(next.todo[j - 1] is ReadSecretKey);
            }
        }
    }
}

fn push_step(todo: &mut Vec<CtlStep>, step: CtlStep)
    ensures
        ctl_steps(final(todo)@) == ctl_steps(old(todo)@) + seq![step@],
{
    todo.push(step);
    proof {
        assert(ctl_steps(todo@) =~= ctl_steps(old(todo)@) + seq![step@]);
    }
}

fn toggle_steps(m: &ArgMatches) -> (todo: Vec<CtlStep>)
    ensures
        ctl_steps(todo@) == toggles(m@),
{
    let mut todo: Vec<CtlStep> = Vec::new();
    if settings::toggle_verbosity(m) {
        todo.push(CtlStep::SetVerbose);
    }
    if settings::toggle_color(m) {
        todo.push(CtlStep::SetNoColor);
    }
    proof {
        assert(ctl_steps(todo@) =~= toggles(m@));
    }
    todo
}

/// The package identifier on a command line that must carry one.
fn pkg_ident(m: &ArgMatches) -> (ident: String)
    requires
        args::value(m@, Arg::PkgIdent) is Some,
    ensures
        Some(ident@) == args::value(m@, Arg::PkgIdent),
{
    m.value_of(Arg::PkgIdent).unwrap()
}

fn ident_run<D: Domain>(m: &ArgMatches, request: Request<D>) -> (run: CtlRun<D>)
    requires
        args::value(m@, Arg::PkgIdent) is Some,
    ensures
        run@ == (CtlRunView { request: request@, address: None, secret_key: None, todo: ident_plan(m@) }),
{
    let mut todo = toggle_steps(m);
    push_step(&mut todo, CtlStep::ParseIdent(pkg_ident(m)));
    push_step(&mut todo, CtlStep::BuildConfig);
    push_step(&mut todo, CtlStep::ReadSecretKey);
    push_step(&mut todo, CtlStep::Call);
    proof {
        assert(ctl_steps(todo@) =~= ident_plan(m@));
        assert(ctl_steps(todo@)[toggles(m@).len() as int + 1] is BuildConfig);
        assert(ctl_steps(todo@)[todo@.len() - 2] is ReadSecretKey);
    }
    CtlRun { request, address: None, secret_key: None, todo }
}

/// Begins `config`: asks for the default configuration of a service.
pub fn sub_config<D: Domain>(m: &ArgMatches) -> (run: CtlRun<D>)
    requires
        args::value(m@, Arg::PkgIdent) is Some,
    ensures
        run@ == (CtlRunView {
            request: RequestView::<D>::SvcGetDefaultCfg(None),
            address: None,
            secret_key: None,
            todo: ident_plan(m@),
        }),
{
    ident_run(m, Request::SvcGetDefaultCfg(None))
}

/// Begins `unload`: asks to unload a service.
pub fn sub_unload<D: Domain>(m: &ArgMatches) -> (run: CtlRun<D>)
    requires
        args::value(m@, Arg::PkgIdent) is Some,
    ensures
        run@ == (CtlRunView {
            request: RequestView::<D>::SvcUnload(None),
            address: None,
            secret_key: None,
            todo: ident_plan(m@),
        }),
{
    ident_run(m, Request::SvcUnload(None))
}

/// Begins `start`: asks to start a service.
pub fn sub_start<D: Domain>(m: &ArgMatches) -> (run: CtlRun<D>)
    requires
        args::value(m@, Arg::PkgIdent) is Some,
    ensures
        run@ == (CtlRunView {
            request: RequestView::<D>::SvcStart(None),
            address: None,
            secret_key: None,
            todo: ident_plan(m@),
        }),
{
    ident_run(m, Request::SvcStart(None))
}

/// Begins `stop`: asks to stop a service.
pub fn sub_stop<D: Domain>(m: &ArgMatches) -> (run: CtlRun<D>)
    requires
        args::value(m@, Arg::PkgIdent) is Some,
    ensures
        run@ == (CtlRunView {
            request: RequestView::<D>::SvcStop(None),
            address: None,
            secret_key: None,
            todo: ident_plan(m@),
        }),
{
    ident_run(m, Request::SvcStop(None))
}

/// Begins `load`: asks to load a service.
pub fn sub_load<D: Domain>(m: &ArgMatches) -> (run: CtlRun<D>)
    requires
        args::value(m@, Arg::PkgIdent) is Some,
    ensures
        run@ == (CtlRunView {
            request: RequestView::SvcLoad(svc_load::empty_load::<D>()),
            address: None,
            secret_key: None,
            todo: load_ctl_plan(m@),
        }),
{
    let mut todo = toggle_steps(m);
    push_step(&mut todo, CtlStep::BuildConfig);
    push_step(&mut todo, CtlStep::FillLoad);
    push_step(&mut todo, CtlStep::ParseIdent(pkg_ident(m)));
    push_step(&mut todo, CtlStep::ReadSecretKey);
    push_step(&mut todo, CtlStep::Call);
    proof {
        assert(ctl_steps(todo@) =~= load_ctl_plan(m@));
        assert(ctl_steps(todo@)[toggles(m@).len() as int] is BuildConfig);
        assert(ctl_steps(todo@)[todo@.len() - 2] is ReadSecretKey);
    }
    CtlRun { request: Request::SvcLoad(SvcLoad::new()), address: None, secret_key: None, todo }
}

/// Begins `status`: asks for the status of one service or of all.
pub fn sub_status<D: Domain>(m: &ArgMatches) -> (run: CtlRun<D>)
    ensures
        run@ == (CtlRunView {
            request: RequestView::<D>::SvcStatus(None),
            address: None,
            secret_key: None,
            todo: status_plan(m@),
        }),
{
    let mut todo = toggle_steps(m);
    push_step(&mut todo, CtlStep::BuildConfig);
    if let Some(s) = m.value_of(Arg::PkgIdent) {
        push_step(&mut todo, CtlStep::ParseIdent(s));
    }
    push_step(&mut todo, CtlStep::ReadSecretKey);
    push_step(&mut todo, CtlStep::Call);
    proof {
        assert(ctl_steps(todo@) =~= status_plan(m@));
        assert(ctl_steps(todo@)[toggles(m@).len() as int] is BuildConfig);
        assert(ctl_steps(todo@)[todo@.len() - 2] is ReadSecretKey);
    }
    CtlRun { request: Request::SvcStatus(None), address: None, secret_key: None, todo }
}

/// The key for the control gateway. `read` says whether reading it worked and found one, `key`
/// is what was read.
pub fn ctl_secret_key<E>(read: Result<bool, E>, key: String) -> (r: Result<String, CtlError<E>>)
    ensures
        match r {
            Ok(k) => secret_key_of(read, key@) == Ok::<Seq<char>, CtlError<E>>(k@),
            Err(e) => secret_key_of(read, key@) == Err::<Seq<char>, CtlError<E>>(e),
        },
{
    match read {
        Ok(found) => {
            if found {
                Ok(key)
            } else {
                Err(CtlError::CtlSecretNotFound)
            }
        },
        Err(e) => Err(CtlError::Step(e)),
    }
}

impl<D: Domain> CtlRun<D> {
    #[verifier::type_invariant]
    spec fn well_formed(self) -> bool {
        self@.prepared()
    }

    /// The next step, if one is left.
    pub fn next_step(&self) -> (step: Option<&CtlStep>)
        ensures
            match step {
                Some(s) => self@.todo.len() > 0 && s@ == self@.todo[0],
                None => self@.todo.len() == 0,
            },
    {
        if self.todo.len() > 0 {
            Some(&self.todo[0])
        } else {
            None
        }
    }

    /// The call to make, once all else is done.
    pub fn into_call(self) -> (call: Call<D>)
        requires
            self@.todo.len() > 0,
            self@.todo[0] is Call,
        ensures
            Some(call@.address) == self@.address,
            Some(call@.secret_key) == self@.secret_key,
            call@.request == self@.request,
    {
        proof {
            use_type_invariant(&self);
        }
        Call {
            address: self.address.unwrap(),
            secret_key: self.secret_key.unwrap(),
            request: self.request,
        }
    }

    /// Takes in the reply to the first step.
    pub fn answer(self, reply: CtlStepReply<D>) -> (next: Result<CtlRun<D>, CtlError<D::Error>>)
        requires
            self@.todo.len() > 0,
            ctl_reply_fits(self@.todo[0], reply@),
        ensures
            match next {
                Ok(run) => self@.answered(reply@) == Ok::<CtlRunView<D>, CtlError<D::Error>>(run@),
                Err(e) => self@.answered(reply@) == Err::<CtlRunView<D>, CtlError<D::Error>>(e),
            },
    {
        proof {
            use_type_invariant(&self);
            lemma_prepared(self@, reply@);
        }
        let mut request = self.request;
        let mut address = self.address;
        let mut secret_key = self.secret_key;
        let mut todo = self.todo;
        todo.remove(0);
        proof {
            assert(ctl_steps(todo@) =~= self@.todo.drop_first());
        }
        match reply {
            CtlStepReply::Done => {},
            CtlStepReply::Config(found) => {
                address = Some(found);
            },
            CtlStepReply::Ident(ident) => {
                request = request.set_ident(ident);
            },
            CtlStepReply::Load(msg) => {
                request = Request::SvcLoad(msg);
            },
            CtlStepReply::SecretKey { found, key } => match ctl_secret_key::<D::Error>(
                Ok(found),
                key,
            ) {
                Ok(key) => {
                    secret_key = Some(key);
                },
                Err(e) => {
                    return Err(e);
                },
            },
            CtlStepReply::Failed(e) => {
                return Err(CtlError::Step(e));
            },
        }
        Ok(CtlRun { request, address, secret_key, todo })
    }
}

} // verus!
