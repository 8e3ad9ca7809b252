//! The command that runs a Supervisor.

use crate::args;
use crate::args::Arg;
use crate::args::ArgMatches;
use crate::boot::ExitStatus;
use crate::domain::Domain;
use crate::settings;
use crate::svc_load;
use crate::svc_load::SvcLoad;
use crate::svc_load::SvcLoadView;
use vstd::prelude::*;

verus! {

/// Work that other components do to run a Supervisor.
#[derive(Debug)]
pub enum RunStep {
    /// Turn verbose output on.
    SetVerbose,
    /// Turn colored output off.
    SetNoColor,
    /// Make the Supervisor's configuration, from the same command line.
    BuildConfig,
    /// See whether a Supervisor with this configuration runs already.
    CheckRunning,
    /// Load the Supervisor with its configuration.
    LoadManager,
    /// Fill in an empty request for the initial service with `update_svc_load_from_input`, from
    /// the same command line.
    FillLoad,
    /// Parse the text as a package identifier or the path of an artifact.
    ParseSource(String),
    /// Install the artifact, for whose dependencies Builder is asked at this URL and channel.
    InstallArchive { source: String, bldr_url: String, channel: String },
    /// Run the Supervisor with what `Launch::into_service` gives.
    RunManager,
}

/// What a `RunStep` holds.
pub enum RunStepView {
    SetVerbose,
    SetNoColor,
    BuildConfig,
    CheckRunning,
    LoadManager,
    FillLoad,
    ParseSource(Seq<char>),
    InstallArchive { source: Seq<char>, bldr_url: Seq<char>, channel: Seq<char> },
    RunManager,
}

impl View for RunStep {
    type V = RunStepView;

    open spec fn view(&self) -> RunStepView {
        match self {
            RunStep::SetVerbose => RunStepView::SetVerbose,
            RunStep::SetNoColor => RunStepView::SetNoColor,
            RunStep::BuildConfig => RunStepView::BuildConfig,
            RunStep::CheckRunning => RunStepView::CheckRunning,
            RunStep::LoadManager => RunStepView::LoadManager,
            RunStep::FillLoad => RunStepView::FillLoad,
            RunStep::ParseSource(s) => RunStepView::ParseSource(s@),
            RunStep::InstallArchive { source, bldr_url, channel } => RunStepView::InstallArchive {
                source: source@,
                bldr_url: bldr_url@,
                channel: channel@,
            },
            RunStep::RunManager => RunStepView::RunManager,
        }
    }
}

/// What came of a step.
pub enum RunReply<D: Domain> {
    /// The step is done.
    Done,
    /// Whether a Supervisor runs already.
    Running(bool),
    /// The request for the initial service, filled in.
    Load(SvcLoad<D>),
    /// The text is the path of an artifact.
    Archive,
    /// The package identifier: the one the text is, or the one found in the artifact.
    Ident(D::Ident),
    /// The step failed.
    Failed(D::Error),
}

/// What a `RunReply` holds.
pub enum RunReplyView<D: Domain> {
    Done,
    Running(bool),
    Load(SvcLoadView<D>),
    Archive,
    Ident(D::Ident),
    Failed(D::Error),
}

impl<D: Domain> View for RunReply<D> {
    type V = RunReplyView<D>;

    open spec fn view(&self) -> RunReplyView<D> {
        match self {
            RunReply::Done => RunReplyView::Done,
            RunReply::Running(b) => RunReplyView::Running(*b),
            RunReply::Load(msg) => RunReplyView::Load(msg@),
            RunReply::Archive => RunReplyView::Archive,
            RunReply::Ident(ident) => RunReplyView::Ident(*ident),
            RunReply::Failed(e) => RunReplyView::Failed(*e),
        }
    }
}

/// Whether `reply` is one that `step` can have. The last step has none: the Supervisor takes over.
pub open spec fn run_reply_fits<D: Domain>(step: RunStepView, reply: RunReplyView<D>) -> bool {
    match step {
        RunStepView::SetVerbose => reply is Done,
        RunStepView::SetNoColor => reply is Done,
        RunStepView::BuildConfig => reply is Done || reply is Failed,
        RunStepView::CheckRunning => reply is Running || reply is Failed,
        RunStepView::LoadManager => reply is Done || reply is Failed,
        RunStepView::FillLoad => reply is Load || reply is Failed,
        RunStepView::ParseSource(_) => reply is Archive || reply is Ident || reply is Failed,
        RunStepView::InstallArchive { .. } => reply is Ident || reply is Failed,
        RunStepView::RunManager => false,
    }
}

/// A Supervisor on its way up.
pub struct Launch<D: Domain> {
    /// The request for the initial service, if there is to be one.
    svc: Option<SvcLoad<D>>,
    /// The steps that are left, the next one first.
    todo: Vec<RunStep>,
}

/// What a `Launch` holds.
#[verifier::ext_equal]
pub struct LaunchView<D: Domain> {
    pub svc: Option<SvcLoadView<D>>,
    pub todo: Seq<RunStepView>,
}

/// What the steps of `list` hold.
pub open spec fn run_steps(list: Seq<RunStep>) -> Seq<RunStepView> {
    Seq::new(list.len(), |i: int| list[i]@)
}

/// What an optional request holds.
pub open spec fn opt_load<D: Domain>(svc: Option<SvcLoad<D>>) -> Option<SvcLoadView<D>> {
    match svc {
        Some(msg) => Some(msg@),
        None => None,
    }
}

impl<D: Domain> View for Launch<D> {
    type V = LaunchView<D>;

    closed spec fn view(&self) -> LaunchView<D> {
        LaunchView { svc: opt_load(self.svc), todo: run_steps(self.todo@) }
    }
}

/// How a Supervisor stands after a reply.
pub enum LaunchProgress<D: Domain> {
    /// It goes on.
    Going(Launch<D>),
    /// It is given up with the error.
    Failed(D::Error),
    /// The program exits with the status.
    Exit(ExitStatus),
}

/// What a `LaunchProgress` holds.
#[verifier::ext_equal]
pub enum LaunchProgressView<D: Domain> {
    Going(LaunchView<D>),
    Failed(D::Error),
    Exit(ExitStatus),
}

impl<D: Domain> View for LaunchProgress<D> {
    type V = LaunchProgressView<D>;

    open spec fn view(&self) -> LaunchProgressView<D> {
        match self {
            LaunchProgress::Going(run) => LaunchProgressView::Going(run@),
            LaunchProgress::Failed(e) => LaunchProgressView::Failed(*e),
            LaunchProgress::Exit(status) => LaunchProgressView::Exit(*status),
        }
    }
}

/// The steps that set how the program talks.
pub open spec fn run_toggles(given: args::Given) -> Seq<RunStepView> {
    let verbose = if given.contains_key(Arg::Verbose) {
        seq![RunStepView::SetVerbose]
    } else {
        Seq::empty()
    };
    let color = if given.contains_key(Arg::NoColor) {
        seq![RunStepView::SetNoColor]
    } else {
        Seq::empty()
    };
    verbose + color
}

/// The steps of `run`: those for the initial service only where one is named.
pub open spec fn run_plan(given: args::Given) -> Seq<RunStepView> {
    let service = match args::value(given, Arg::PkgIdentOrArtifact) {
        Some(pkg) => seq![RunStepView::FillLoad, RunStepView::ParseSource(pkg)],
        None => Seq::empty(),
    };
    run_toggles(given) + seq![
        RunStepView::BuildConfig,
        RunStepView::CheckRunning,
        RunStepView::LoadManager,
    ] + service + seq![RunStepView::RunManager]
}

/// The request for the initial service before anything is filled in.
pub open spec fn run_base<D: Domain>(given: args::Given) -> Option<SvcLoadView<D>> {
    if args::value(given, Arg::PkgIdentOrArtifact) is Some {
        Some(svc_load::empty_load::<D>())
    } else {
        None
    }
}

impl<D: Domain> LaunchView<D> {
    /// Whether the steps that speak of an initial service are there only where there is one.
    pub open spec fn service_ready(self) -> bool {
        self.svc is None ==> forall|i: int|
            0 <= i < self.todo.len() ==> !((#[trigger] self.todo[i]) is FillLoad)
                && !(self.todo[i] is ParseSource) && !(self.todo[i] is InstallArchive)
    }

    /// How the Supervisor stands after `reply` to its first step.
    pub open spec fn answered(self, reply: RunReplyView<D>) -> LaunchProgressView<D> {
        let rest = self.todo.drop_first();
        match reply {
            RunReplyView::Done => LaunchProgressView::Going(LaunchView { todo: rest, ..self }),
            RunReplyView::Running(already) => if already {
                LaunchProgressView::Exit(ExitStatus::OkNoRetry)
            } else {
                LaunchProgressView::Going(LaunchView { todo: rest, ..self })
            },
            RunReplyView::Load(msg) => LaunchProgressView::Going(
                LaunchView { svc: Some(msg), todo: rest },
            ),
            RunReplyView::Archive => LaunchProgressView::Going(
                LaunchView {
                    todo: seq![
                        RunStepView::InstallArchive {
                            source: self.todo[0]->ParseSource_0,
                            bldr_url: self.svc->0.bldr_url,
                            channel: self.svc->0.bldr_channel,
                        },
                    ] + rest,
                    ..self
                },
            ),
            RunReplyView::Ident(ident) => LaunchProgressView::Going(
                LaunchView {
                    svc: Some(SvcLoadView { ident: Some(ident), ..self.svc->0 }),
                    todo: rest,
                },
            ),
            RunReplyView::Failed(e) => LaunchProgressView::Failed(e),
        }
    }
}

fn push_step(todo: &mut Vec<RunStep>, step: RunStep)
    ensures
        run_steps(final(todo)@) == run_steps(old(todo)@) + seq![step@],
{
    todo.push(step);
    proof {
        assert(run_steps(todo@) =~= run_steps(old(todo)@) + seq![step@]);
    }
}

/// Begins `run`.
pub fn sub_run<D: Domain>(m: &ArgMatches) -> (run: Launch<D>)
    ensures
        run@ == (LaunchView { svc: run_base::<D>(m@), todo: run_plan(m@) }),
{
    let mut todo: Vec<RunStep> = Vec::new();
    let mut svc: Option<SvcLoad<D>> = None;
    if settings::toggle_verbosity(m) {
        push_step(&mut todo, RunStep::SetVerbose);
    }
    if settings::toggle_color(m) {
        push_step(&mut todo, RunStep::SetNoColor);
    }
    push_step(&mut todo, RunStep::BuildConfig);
    push_step(&mut todo, RunStep::CheckRunning);
    push_step(&mut todo, RunStep::LoadManager);
    if let Some(pkg) = m.value_of(Arg::PkgIdentOrArtifact) {
        svc = Some(SvcLoad::new());
        push_step(&mut todo, RunStep::FillLoad);
        push_step(&mut todo, RunStep::ParseSource(pkg));
    }
    push_step(&mut todo, RunStep::RunManager);
    proof {
        assert(run_steps(todo@) =~= run_plan(m@));
    }
    Launch { svc, todo }
}

impl<D: Domain> Launch<D> {
    #[verifier::type_invariant]
    spec fn well_formed(self) -> bool {
        self@.service_ready()
    }

    /// The next step, if one is left.
    pub fn next_step(&self) -> (step: Option<&RunStep>)
        ensures
            match step {
                Some(s) => self@.todo.len() > 0 && s@ == self@.todo[0],
                None => self@.todo.len() == 0,
            },
    {
        if self.todo.len() > 0 {
            Some(&self.todo[0])
        } else {
            None
        }
    }

    /// The request for the initial service that the Supervisor runs with, if there is to be one.
    pub fn into_service(self) -> (svc: Option<SvcLoad<D>>)
        requires
            self@.todo.len() > 0,
            self@.todo[0] is RunManager,
        ensures
            opt_load(svc) == self@.svc,
    {
        self.svc
    }

    /// Takes in the reply to the first step.
    pub fn answer(self, reply: RunReply<D>) -> (progress: LaunchProgress<D>)
        requires
            self@.todo.len() > 0,
            run_reply_fits(self@.todo[0], reply@),
        ensures
            progress@ == self@.answered(reply@),
    {
        proof {
            use_type_invariant(&self);
        }
        let mut svc = self.svc;
        let mut todo = self.todo;
        let step = todo.remove(0);
        let ghost rest = self@.todo.drop_first();
        proof {
            assert(run_steps(todo@) =~= rest);
            assert(self@.todo[0] == step@);
            assert(forall|i: int| 0 <= i < rest.len() ==> rest[i] == self@.todo[i + 1]);
        }
        match reply {
            RunReply::Done => {},
            RunReply::Running(already) => {
                if already {
                    return LaunchProgress::Exit(ExitStatus::OkNoRetry);
                }
            },
            RunReply::Load(msg) => {
                svc = Some(msg);
            },
            RunReply::Archive => {
                if let RunStep::ParseSource(source) = step {
                    if let Some(msg) = &svc {
                        let install = RunStep::InstallArchive {
                            source,
                            bldr_url: msg.bldr_url.clone(),
                            channel: msg.bldr_channel.clone(),
                        };
                        todo.insert(0, install);
                        proof {
                            assert(run_steps(todo@) =~= seq![install@] + rest);
                        }
                    }
                }
            },
            RunReply::Ident(ident) => {
                if let Some(msg) = svc {
                    let mut msg = msg;
                    msg.ident = Some(ident);
                    svc = Some(msg);
                }
            },
            RunReply::Failed(e) => {
                return LaunchProgress::Failed(e);
            },
        }
        LaunchProgress::Going(Launch { svc, todo })
    }
}

} // verus!
