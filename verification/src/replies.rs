//! What the program does with the replies of a running Supervisor.

use crate::outside;
use crate::text;
use vstd::prelude::*;
use vstd::string::*;

verus! {

/// The replies to a request for a default configuration that the program tells apart.
#[derive(Clone, Copy, Debug, PartialEq, Eq, Structural)]
pub enum ConfigReplyKind {
    ServiceCfg,
    NetErr,
    Other,
}

/// The replies to a request that changes a service that the program tells apart.
#[derive(Clone, Copy, Debug, PartialEq, Eq, Structural)]
pub enum CtlReplyKind {
    ConsoleLine,
    NetProgress,
    NetErr,
    Other,
}

/// The replies to a request for the status that the program tells apart.
#[derive(Clone, Copy, Debug, PartialEq, Eq, Structural)]
pub enum StatusReplyKind {
    ServiceStatus,
    NetOk,
    NetErr,
    Other,
}

pub open spec fn config_kind_of(id: Seq<char>) -> ConfigReplyKind {
    if id == "ServiceCfg"@ {
        ConfigReplyKind::ServiceCfg
    } else if id == "NetErr"@ {
        ConfigReplyKind::NetErr
    } else {
        ConfigReplyKind::Other
    }
}

pub open spec fn ctl_kind_of(id: Seq<char>) -> CtlReplyKind {
    if id == "ConsoleLine"@ {
        CtlReplyKind::ConsoleLine
    } else if id == "NetProgress"@ {
        CtlReplyKind::NetProgress
    } else if id == "NetErr"@ {
        CtlReplyKind::NetErr
    } else {
        CtlReplyKind::Other
    }
}

pub open spec fn status_kind_of(id: Seq<char>) -> StatusReplyKind {
    if id == "ServiceStatus"@ {
        StatusReplyKind::ServiceStatus
    } else if id == "NetOk"@ {
        StatusReplyKind::NetOk
    } else if id == "NetErr"@ {
        StatusReplyKind::NetErr
    } else {
        StatusReplyKind::Other
    }
}

/// Tells the replies to a request for a default configuration apart by their message id.
pub fn config_reply_kind(id: &str) -> (kind: ConfigReplyKind)
    ensures
        kind == config_kind_of(id@),
{
    if text::same(id, "ServiceCfg") {
        ConfigReplyKind::ServiceCfg
    } else if text::same(id, "NetErr") {
        ConfigReplyKind::NetErr
    } else {
        ConfigReplyKind::Other
    }
}

/// Tells the replies to a request that changes a service apart by their message id.
pub fn ctl_reply_kind(id: &str) -> (kind: CtlReplyKind)
    ensures
        kind == ctl_kind_of(id@),
{
    if text::same(id, "ConsoleLine") {
        CtlReplyKind::ConsoleLine
    } else if text::same(id, "NetProgress") {
        CtlReplyKind::NetProgress
    } else if text::same(id, "NetErr") {
        CtlReplyKind::NetErr
    } else {
        CtlReplyKind::Other
    }
}

/// Tells the replies to a request for the status apart by their message id.
pub fn status_reply_kind(id: &str) -> (kind: StatusReplyKind)
    ensures
        kind == status_kind_of(id@),
{
    if text::same(id, "ServiceStatus") {
        StatusReplyKind::ServiceStatus
    } else if text::same(id, "NetOk") {
        StatusReplyKind::NetOk
    } else if text::same(id, "NetErr") {
        StatusReplyKind::NetErr
    } else {
        StatusReplyKind::Other
    }
}

/// What is printed for a reply to a request for a default configuration with this body.
pub open spec fn config_output(kind: ConfigReplyKind, body: Seq<char>) -> Seq<char> {
    if kind == ConfigReplyKind::Other {
        Seq::empty()
    } else {
        body + "\n"@
    }
}

/// What to print for a reply to a request for a default configuration, where `body` is the
/// configuration or the error, as text. An error ends nothing here: it is printed too.
pub fn config_reply_text(kind: ConfigReplyKind, body: &str) -> (out: String)
    ensures
        out@ == (match kind {
            ConfigReplyKind::ServiceCfg => body@ + "\n"@,
            ConfigReplyKind::NetErr => body@ + "\n"@,
            ConfigReplyKind::Other => Seq::empty(),
        }),
        out@ == config_output(kind, body@),
{
    match kind {
        ConfigReplyKind::ServiceCfg => body.to_string().concat("\n"),
        ConfigReplyKind::NetErr => body.to_string().concat("\n"),
        ConfigReplyKind::Other => String::new(),
    }
}

/// A reply to a request that changes a service.
#[derive(Debug)]
pub enum CtlReply<E> {
    /// A line for the console.
    ConsoleLine(String),
    /// How far the work is.
    NetProgress { total: u64, position: u64 },
    /// The request failed.
    NetErr(E),
    /// Anything else.
    Other,
}

/// What to do with such a reply.
#[derive(Debug)]
pub enum CtlAction<E> {
    /// Print the text as it is.
    Print(String),
    /// Show a progress bar of this length at this position; `progress_finished` says whether it
    /// is finished then.
    ShowProgress { total: u64, position: u64 },
    /// Give up with the error.
    Fail(E),
    /// Nothing.
    Ignore,
}

/// What a reply to a request that changes a service calls for.
pub open spec fn ctl_action_for<E>(reply: CtlReply<E>) -> CtlAction<E> {
    match reply {
        CtlReply::ConsoleLine(line) => CtlAction::Print(line),
        CtlReply::NetProgress { total, position } => CtlAction::ShowProgress { total, position },
        CtlReply::NetErr(e) => CtlAction::Fail(e),
        CtlReply::Other => CtlAction::Ignore,
    }
}

/// What to do with a reply to a request that changes a service.
pub fn handle_ctl_reply<E>(reply: CtlReply<E>) -> (action: CtlAction<E>)
    ensures
        match reply {
            CtlReply::ConsoleLine(line) => action == CtlAction::<E>::Print(line),
            CtlReply::NetProgress { total, position } => action == (CtlAction::<E>::ShowProgress {
                total,
                position,
            }),
            CtlReply::NetErr(e) => action == CtlAction::Fail(e),
            CtlReply::Other => action == CtlAction::<E>::Ignore,
        },
        action == ctl_action_for(reply),
{
    match reply {
        CtlReply::ConsoleLine(line) => CtlAction::Print(line),
        CtlReply::NetProgress { total, position } => CtlAction::ShowProgress { total, position },
        CtlReply::NetErr(e) => CtlAction::Fail(e),
        CtlReply::Other => CtlAction::Ignore,
    }
}

/// Whether a progress bar of length `total` that stands at `shown` has come to its end.
pub open spec fn at_end(shown: int, total: int) -> bool {
    shown >= total
}

/// Whether a progress bar of length `total` is finished once it stands at `shown`.
pub fn progress_finished(shown: u64, total: u64) -> (done: bool)
    ensures
        done == (shown >= total),
        done == at_end(shown as int, total as int),
{
    shown >= total
}

/// The status of one service.
#[derive(Debug)]
pub struct ServiceStatus {
    pub ident: String,
    /// The composite that the service is part of, if it is part of one.
    pub composite: Option<String>,
    pub state: String,
    /// For how many seconds the service has been in its state.
    pub elapsed: i128,
    pub pid: Option<i128>,
    pub service_group: String,
}

/// The type of a service: the composite it is part of, or `standalone`.
pub open spec fn type_text(status: ServiceStatus) -> Seq<char> {
    match status.composite {
        Some(composite) => composite@,
        None => "standalone"@,
    }
}

/// The process id of a service, or `<none>`.
pub open spec fn pid_text(status: ServiceStatus) -> Seq<char> {
    match status.pid {
        Some(pid) => text::decimal_text(pid as int),
        None => "<none>"@,
    }
}

/// The line above the table of statuses.
pub open spec fn header_line() -> Seq<char> {
    text::joined(
        seq!["package"@, "type"@, "state"@, "uptime (s)"@, "pid"@, "group"@],
        "\t"@,
    ) + "\n"@
}

/// The line for one service.
pub open spec fn status_line(status: ServiceStatus) -> Seq<char> {
    text::joined(
        seq![
            status.ident@,
            type_text(status),
            status.state@,
            text::decimal_text(status.elapsed as int),
            pid_text(status),
            status.service_group@,
        ],
        "\t"@,
    ) + "\n"@
}

/// The lines for one service, with the header above them where `print_header`.
pub open spec fn status_lines(status: ServiceStatus, print_header: bool) -> Seq<char> {
    if print_header {
        header_line() + status_line(status)
    } else {
        status_line(status)
    }
}

/// The names of the columns.
pub fn status_header() -> (names: Vec<String>)
    ensures
        text::texts(names@) == seq![
            "package"@,
            "type"@,
            "state"@,
            "uptime (s)"@,
            "pid"@,
            "group"@,
        ],
{
    let mut names: Vec<String> = Vec::new();
    names.push("package".to_string());
    names.push("type".to_string());
    names.push("state".to_string());
    names.push("uptime (s)".to_string());
    names.push("pid".to_string());
    names.push("group".to_string());
    proof {
        assert(text::texts(names@) =~= seq![
            "package"@,
            "type"@,
            "state"@,
            "uptime (s)"@,
            "pid"@,
            "group"@,
        ]);
    }
    names
}

/// The lines for one service with its fields separated by tabs.
pub fn status_text(status: &ServiceStatus, print_header: bool) -> (out: String)
    ensures
        out@ == status_lines(*status, print_header),
{
    let svc_type = match &status.composite {
        Some(composite) => composite.clone(),
        None => "standalone".to_string(),
    };
    let svc_pid = match status.pid {
        Some(pid) => text::decimal(pid),
        None => "<none>".to_string(),
    };
    let mut fields: Vec<String> = Vec::new();
    fields.push(status.ident.clone());
    fields.push(svc_type);
    fields.push(status.state.clone());
    fields.push(text::decimal(status.elapsed));
    fields.push(svc_pid);
    fields.push(status.service_group.clone());
    proof {
        assert(text::texts(fields@) =~= seq![
            status.ident@,
            type_text(*status),
            status.state@,
            text::decimal_text(status.elapsed as int),
            pid_text(*status),
            status.service_group@,
        ]);
    }
    let line = text::join(&fields, "\t").concat("\n");
    if print_header {
        text::join(&status_header(), "\t").concat("\n").concat(line.as_str())
    } else {
        line
    }
}

/// A reply to a request for the status.
#[derive(Debug)]
pub enum StatusReply<E> {
    /// The status of one service.
    ServiceStatus(ServiceStatus),
    /// There is none.
    NetOk,
    /// The request failed, or the reply could not be read.
    NetErr(E),
    /// Anything else.
    Other,
}

/// What to do with such a reply.
#[derive(Debug)]
pub enum StatusAction<E> {
    /// Print the text as it is.
    Print(String),
    /// Give up with the error.
    Fail(E),
    /// Log that the reply was not expected.
    WarnUnexpected,
    /// Give up because the reply never came.
    FailUnexpectedEof,
    /// The replies are at their end.
    Finish,
}

/// Whether `action` is what a reply calls for.
pub open spec fn status_action_fits<E>(
    reply: StatusReply<E>,
    print_header: bool,
    action: StatusAction<E>,
) -> bool {
    match reply {
        StatusReply::ServiceStatus(status) => action matches StatusAction::Print(out) && out@
            == outside::aligned(status_lines(status, print_header)),
        StatusReply::NetOk => action matches StatusAction::Print(out) && out@
            == "No services loaded.\n"@,
        StatusReply::NetErr(e) => action == StatusAction::Fail(e),
        StatusReply::Other => action == StatusAction::<E>::WarnUnexpected,
    }
}

/// What to do with one reply to a request for the status.
pub fn print_svc_status<E>(reply: StatusReply<E>, print_header: bool) -> (action: StatusAction<E>)
    ensures
        status_action_fits(reply, print_header, action),
{
    match reply {
        StatusReply::ServiceStatus(status) => StatusAction::Print(
            outside::align_columns(status_text(&status, print_header).as_str()),
        ),
        StatusReply::NetOk => StatusAction::Print("No services loaded.\n".to_string()),
        StatusReply::NetErr(e) => StatusAction::Fail(e),
        StatusReply::Other => StatusAction::WarnUnexpected,
    }
}

/// The replies to a request for the status, one after another.
#[derive(Debug)]
pub struct StatusStream {
    begun: bool,
}

impl StatusStream {
    /// Whether a reply has come.
    pub closed spec fn begun(self) -> bool {
        self.begun
    }

    /// Whether the stream goes on as `after` and calls for `action` when `reply` comes, or the end
    /// of the replies where that is `None`. The header goes above the first reply alone; that
    /// there is none is an error.
    pub open spec fn takes<E>(
        self,
        reply: Option<StatusReply<E>>,
        after: StatusStream,
        action: StatusAction<E>,
    ) -> bool {
        match reply {
            Some(r) => after.begun() && status_action_fits(r, !self.begun(), action),
            None => after.begun() == self.begun() && action == (if self.begun() {
                StatusAction::<E>::Finish
            } else {
                StatusAction::<E>::FailUnexpectedEof
            }),
        }
    }

    /// A stream that no reply has come from.
    pub fn new() -> (stream: StatusStream)
        ensures
            !stream.begun(),
    {
        StatusStream { begun: false }
    }

    /// What to do with the next reply, or with the end of the replies where `reply` is `None`.
    pub fn next<E>(&mut self, reply: Option<StatusReply<E>>) -> (action: StatusAction<E>)
        ensures
            old(self).takes(reply, *final(self), action),
    {
        match reply {
            Some(r) => {
                let first = !self.begun;
                self.begun = true;
                print_svc_status(r, first)
            },
            None => {
                if self.begun {
                    StatusAction::Finish
                } else {
                    StatusAction::FailUnexpectedEof
                }
            },
        }
    }
}

/// The replies that tell the statuses of `list`, and then `last`, or their end where that is
/// `None`.
pub open spec fn status_replies<E>(
    list: Seq<ServiceStatus>,
    last: Option<StatusReply<E>>,
) -> Seq<Option<StatusReply<E>>> {
    Seq::new(
        list.len() + 1,
        |i: int|
            if i < list.len() {
                Some(StatusReply::ServiceStatus(list[i]))
            } else {
                last
            },
    )
}

/// Whether a new stream that takes `replies` one after another, as `streams[0]`, `streams[1]` and
/// so on, calls for `actions`.
pub open spec fn stream_run<E>(
    replies: Seq<Option<StatusReply<E>>>,
    streams: Seq<StatusStream>,
    actions: Seq<StatusAction<E>>,
) -> bool {
    &&& streams.len() == replies.len() + 1
    &&& actions.len() == replies.len()
    &&& !streams[0].begun()
    &&& forall|i: int|
        0 <= i < replies.len() ==> streams[i].takes(
            replies[i],
            streams[i + 1],
            #[trigger] actions[i],
        )
}

/// Whether `actions` begin with printing the line of each service of `list` in its order, with
/// the header above the first alone.
pub open spec fn prints_table<E>(list: Seq<ServiceStatus>, actions: Seq<StatusAction<E>>) -> bool {
    forall|i: int|
        0 <= i < list.len() ==> ((#[trigger] actions[i]) matches StatusAction::Print(out) && out@
            == outside::aligned(status_lines(list[i], i == 0)))
}

proof fn lemma_begun<E>(
    list: Seq<ServiceStatus>,
    last: Option<StatusReply<E>>,
    streams: Seq<StatusStream>,
    actions: Seq<StatusAction<E>>,
    i: int,
)
    requires
        stream_run(status_replies(list, last), streams, actions),
        0 <= i <= list.len(),
    ensures
        streams[i].begun() == (i > 0),
    decreases i,
{
    if i > 0 {
        lemma_begun(list, last, streams, actions, i - 1);
        assert(streams[i - 1].takes(
            status_replies(list, last)[i - 1],
            streams[i],
            actions[i - 1],
        ));
    }
}

/// The table is printed, and the stream then takes `last`.
proof fn lemma_table<E>(
    list: Seq<ServiceStatus>,
    last: Option<StatusReply<E>>,
    streams: Seq<StatusStream>,
    actions: Seq<StatusAction<E>>,
)
    requires
        stream_run(status_replies(list, last), streams, actions),
    ensures
        actions.len() == list.len() + 1,
        prints_table(list, actions),
        streams[list.len() as int].begun() == (list.len() > 0),
        streams[list.len() as int].takes(last, streams.last(), actions.last()),
{
    let replies = status_replies(list, last);
    let n = list.len() as int;
    assert forall|i: int| 0 <= i < n implies ((#[trigger] actions[i]) matches StatusAction::Print(
        out,
    ) && out@ == outside::aligned(status_lines(list[i], i == 0))) by {
        lemma_begun(list, last, streams, actions, i);
        assert(streams[i].takes(replies[i], streams[i + 1], actions[i]));
    }
    lemma_begun(list, last, streams, actions, n);
    assert(streams[n].takes(replies[n], streams[n + 1], actions[n]));
}

/// From its first reply to the end, a table of statuses prints the line of each service in its
/// order, with the header above the first alone. Without a service there is no table, which is an
/// error.
pub proof fn law_status_table<E>(
    list: Seq<ServiceStatus>,
    streams: Seq<StatusStream>,
    actions: Seq<StatusAction<E>>,
)
    requires
        stream_run(status_replies::<E>(list, None), streams, actions),
    ensures
        actions.len() == list.len() + 1,
        prints_table(list, actions),
        actions.last() == (if list.len() > 0 {
            StatusAction::<E>::Finish
        } else {
            StatusAction::<E>::FailUnexpectedEof
        }),
{
    lemma_table(list, None, streams, actions);
}

/// An error after some statuses ends the table: their lines are printed as ever, and the command
/// then fails with that error.
pub proof fn law_status_error<E>(
    list: Seq<ServiceStatus>,
    error: E,
    streams: Seq<StatusStream>,
    actions: Seq<StatusAction<E>>,
)
    requires
        stream_run(status_replies(list, Some(StatusReply::NetErr(error))), streams, actions),
    ensures
        actions.len() == list.len() + 1,
        prints_table(list, actions),
        actions.last() == StatusAction::Fail(error),
{
    lemma_table(list, Some(StatusReply::NetErr(error)), streams, actions);
}

} // verus!
