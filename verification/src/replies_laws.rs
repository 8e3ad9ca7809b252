//! What holds of the way the program takes replies, and of the table of statuses.

use crate::outside;
use crate::replies;
use crate::replies::ConfigReplyKind;
use crate::replies::CtlAction;
use crate::replies::CtlReply;
use crate::replies::CtlReplyKind;
use crate::replies::ServiceStatus;
use crate::replies::StatusAction;
use crate::replies::StatusReply;
use crate::replies::StatusReplyKind;
use crate::replies::StatusStream;
use crate::text;
use crate::text_laws;
use vstd::prelude::*;

verus! {

/// Each kind of reply has one message id, and every other id is none that the program knows.
pub proof fn law_reply_ids(id: Seq<char>)
    ensures
        replies::config_kind_of(id) == ConfigReplyKind::ServiceCfg <==> id == "ServiceCfg"@,
        replies::config_kind_of(id) == ConfigReplyKind::NetErr <==> id == "NetErr"@,
        replies::ctl_kind_of(id) == CtlReplyKind::ConsoleLine <==> id == "ConsoleLine"@,
        replies::ctl_kind_of(id) == CtlReplyKind::NetProgress <==> id == "NetProgress"@,
        replies::ctl_kind_of(id) == CtlReplyKind::NetErr <==> id == "NetErr"@,
        replies::status_kind_of(id) == StatusReplyKind::ServiceStatus <==> id == "ServiceStatus"@,
        replies::status_kind_of(id) == StatusReplyKind::NetOk <==> id == "NetOk"@,
        replies::status_kind_of(id) == StatusReplyKind::NetErr <==> id == "NetErr"@,
{
    reveal_strlit("ServiceCfg");
    reveal_strlit("ServiceStatus");
    reveal_strlit("NetErr");
    reveal_strlit("NetOk");
    reveal_strlit("NetProgress");
    reveal_strlit("ConsoleLine");
    assert("ServiceCfg"@.len() == 10 && "ServiceStatus"@.len() == 13);
    assert("NetErr"@.len() == 6 && "NetOk"@.len() == 5);
    assert("ConsoleLine"@[0] == 'C' && "ConsoleLine"@.len() == 11);
    assert("NetProgress"@[0] == 'N' && "NetProgress"@.len() == 11);
}

/// The header, as it is handed to the alignment.
pub proof fn law_header()
    ensures
        replies::header_line() == "package\ttype\tstate\tuptime (s)\tpid\tgroup\n"@,
{
    reveal_strlit("package\ttype\tstate\tuptime (s)\tpid\tgroup\n");
    reveal_strlit("package");
    reveal_strlit("type");
    reveal_strlit("state");
    reveal_strlit("uptime (s)");
    reveal_strlit("pid");
    reveal_strlit("group");
    reveal_strlit("\t");
    reveal_strlit("\n");
    let names = seq!["package"@, "type"@, "state"@, "uptime (s)"@, "pid"@, "group"@];
    lemma_six(names, "\t"@);
    assert(replies::header_line() =~= "package\ttype\tstate\tuptime (s)\tpid\tgroup\n"@);
}

proof fn lemma_six(list: Seq<Seq<char>>, sep: Seq<char>)
    requires
        list.len() == 6,
    ensures
        text::joined(list, sep) == list[0] + sep + list[1] + sep + list[2] + sep + list[3] + sep
            + list[4] + sep + list[5],
{
    reveal_with_fuel(text::joined, 7);
}

/// The line of any service is its package, the composite it is part of or `standalone`, its state,
/// its uptime, its process id or `<none>`, and its group, with a tab between each and the next.
/// Which composite it is part of depends on nothing but that, and neither does its process id.
pub proof fn law_status_line(status: ServiceStatus)
    ensures
        ({
            let line = replies::status_line(status);
            let kind = if status.composite is Some {
                status.composite->0@
            } else {
                "standalone"@
            };
            let pid = if status.pid is Some {
                text::decimal_text(status.pid->0 as int)
            } else {
                "<none>"@
            };
            line == status.ident@ + "\t"@ + kind + "\t"@ + status.state@ + "\t"@
                + text::decimal_text(status.elapsed as int) + "\t"@ + pid + "\t"@
                + status.service_group@ + "\n"@
        }),
{
    lemma_six(
        seq![
            status.ident@,
            replies::type_text(status),
            status.state@,
            text::decimal_text(status.elapsed as int),
            replies::pid_text(status),
            status.service_group@,
        ],
        "\t"@,
    );
}

/// The cells of the line of a service.
pub open spec fn line_cells(status: ServiceStatus) -> Seq<Seq<char>> {
    text_laws::cells(replies::status_line(status).drop_last(), '\t')
}

proof fn lemma_no_tab(s: Seq<char>)
    requires
        text_laws::all_digits(s),
    ensures
        !s.contains('\t'),
{
    if s.contains('\t') {
        let i = choose|i: int| 0 <= i < s.len() && s[i] == '\t';
        assert('0' <= s[i]);
    }
}

proof fn lemma_decimal_no_tab(n: int)
    ensures
        !text::decimal_text(n).contains('\t'),
{
    text_laws::law_decimal(n);
    let s = text::decimal_text(n);
    if n >= 0 {
        lemma_no_tab(s);
    } else {
        lemma_no_tab(s.drop_first());
        if s.contains('\t') {
            let i = choose|i: int| 0 <= i < s.len() && s[i] == '\t';
            assert(s.drop_first()[i - 1] == '\t');
        }
    }
}

/// Read off the line of a service whose names hold no tab, the six cells are those of the header:
/// the second is the composite wherever there is one and `standalone` exactly where there is none,
/// the fourth is the uptime, and the fifth the process id wherever there is one and `<none>`
/// exactly where there is none.
pub proof fn law_status_cells(status: ServiceStatus)
    requires
        !status.ident@.contains('\t'),
        status.composite matches Some(composite) ==> !composite@.contains('\t'),
        !status.state@.contains('\t'),
        !status.service_group@.contains('\t'),
    ensures
        ({
            let cells = line_cells(status);
            &&& replies::status_line(status).last() == '\n'
            &&& cells.len() == 6
            &&& cells[0] == status.ident@
            &&& status.composite matches Some(composite) ==> cells[1] == composite@
            &&& status.composite is None ==> cells[1] == "standalone"@
            &&& cells[2] == status.state@
            &&& status.elapsed >= 0 ==> text_laws::all_digits(cells[3]) && text_laws::number(
                cells[3],
            ) == status.elapsed
            &&& status.elapsed < 0 ==> cells[3][0] == '-' && text_laws::number(
                cells[3].drop_first(),
            ) == -status.elapsed
            &&& status.pid matches Some(pid) ==> (pid >= 0 ==> text_laws::all_digits(cells[4])
                && text_laws::number(cells[4]) == pid)
            &&& status.pid is None ==> cells[4] == "<none>"@
            &&& cells[5] == status.service_group@
        }),
{
    reveal_strlit("\t");
    reveal_strlit("\n");
    reveal_strlit("standalone");
    reveal_strlit("<none>");
    let list = seq![
        status.ident@,
        replies::type_text(status),
        status.state@,
        text::decimal_text(status.elapsed as int),
        replies::pid_text(status),
        status.service_group@,
    ];
    lemma_decimal_no_tab(status.elapsed as int);
    text_laws::law_decimal(status.elapsed as int);
    if let Some(pid) = status.pid {
        lemma_decimal_no_tab(pid as int);
        text_laws::law_decimal(pid as int);
    }
    assert("\t"@ =~= seq!['\t']);
    assert forall|i: int| 0 <= i < list.len() implies !(#[trigger] list[i]).contains('\t') by {}
    text_laws::law_joined_reads_back(list, '\t');
    assert(replies::status_line(status).drop_last() =~= text::joined(list, seq!['\t']));
}

/// Two services that are part of the same composite, or of none, show the same type, whatever else
/// tells them apart; and likewise with their process ids.
pub proof fn law_cells_apart(a: ServiceStatus, b: ServiceStatus)
    ensures
        a.composite == b.composite ==> replies::type_text(a) == replies::type_text(b),
        a.pid == b.pid ==> replies::pid_text(a) == replies::pid_text(b),
{
}

/// The header only adds a line above: the line of the service stays as it is.
pub proof fn law_header_above(status: ServiceStatus)
    ensures
        replies::status_lines(status, true) == replies::header_line() + replies::status_line(
            status,
        ),
        replies::status_lines(status, false) == replies::status_line(status),
{
}

/// Whatever replies come, and in whatever order, a stream takes each by what it is: a status is
/// printed, with the header above it exactly where it is the very first reply; that there are no
/// services is said; an error ends the command with that error; and anything else is only logged.
pub proof fn law_stream<E>(
    list: Seq<Option<StatusReply<E>>>,
    streams: Seq<StatusStream>,
    actions: Seq<StatusAction<E>>,
    i: int,
)
    requires
        replies::stream_run(list, streams, actions),
        0 <= i < list.len(),
        forall|k: int| 0 <= k < i ==> (#[trigger] list[k]) is Some,
    ensures
        match list[i] {
            Some(StatusReply::ServiceStatus(status)) => actions[i] is Print && actions[i]->Print_0@
                == outside::aligned(
                if i == 0 {
                    replies::header_line() + replies::status_line(status)
                } else {
                    replies::status_line(status)
                },
            ),
            Some(StatusReply::NetOk) => actions[i] is Print && actions[i]->Print_0@
                == "No services loaded.\n"@,
            Some(StatusReply::NetErr(e)) => actions[i] == StatusAction::Fail(e),
            Some(StatusReply::Other) => actions[i] == StatusAction::<E>::WarnUnexpected,
            None => actions[i] == (if i == 0 {
                StatusAction::<E>::FailUnexpectedEof
            } else {
                StatusAction::<E>::Finish
            }),
        },
{
    lemma_begun_by(list, streams, actions, i);
    assert(streams[i].takes(list[i], streams[i + 1], actions[i]));
}

proof fn lemma_begun_by<E>(
    list: Seq<Option<StatusReply<E>>>,
    streams: Seq<StatusStream>,
    actions: Seq<StatusAction<E>>,
    i: int,
)
    requires
        replies::stream_run(list, streams, actions),
        0 <= i < list.len(),
        forall|k: int| 0 <= k < i ==> (#[trigger] list[k]) is Some,
    ensures
        streams[i].begun() == (i > 0),
    decreases i,
{
    if i > 0 {
        lemma_begun_by(list, streams, actions, i - 1);
        assert(list[i - 1] is Some);
        assert(streams[i - 1].takes(list[i - 1], streams[i], actions[i - 1]));
    }
}

/// A single reply is taken as the first of a stream is where the header goes above it, and as a
/// later one otherwise.
pub proof fn law_status_action<E>(
    reply: StatusReply<E>,
    print_header: bool,
    action: StatusAction<E>,
)
    requires
        replies::status_action_fits(reply, print_header, action),
    ensures
        reply matches StatusReply::ServiceStatus(status) ==> action is Print && action->Print_0@
            == outside::aligned(
            if print_header {
                replies::header_line() + replies::status_line(status)
            } else {
                replies::status_line(status)
            },
        ),
        reply is NetOk ==> action is Print && action->Print_0@ == "No services loaded.\n"@,
        reply matches StatusReply::NetErr(e) ==> action == StatusAction::Fail(e),
        reply is Other ==> action is WarnUnexpected,
{
}

/// A default configuration is printed, and an error likewise, each with a line break behind it;
/// any other reply prints nothing.
pub proof fn law_config_output(kind: ConfigReplyKind, body: Seq<char>)
    ensures
        kind == ConfigReplyKind::ServiceCfg || kind == ConfigReplyKind::NetErr
            ==> replies::config_output(kind, body) == body + "\n"@,
        kind == ConfigReplyKind::Other ==> replies::config_output(kind, body).len() == 0,
{
}

/// A reply to a request that changes a service is taken by what it is, with all that it holds: a
/// line is printed as it is, progress is shown as far as it is, an error ends the command, and
/// anything else is passed over.
pub proof fn law_ctl_action<E>(line: String, total: u64, position: u64, error: E)
    ensures
        replies::ctl_action_for(CtlReply::<E>::ConsoleLine(line)) == CtlAction::<E>::Print(line),
        replies::ctl_action_for(CtlReply::<E>::NetProgress { total, position }) == (CtlAction::<
            E,
        >::ShowProgress { total, position }),
        replies::ctl_action_for(CtlReply::NetErr(error)) == CtlAction::Fail(error),
        replies::ctl_action_for(CtlReply::<E>::Other) == CtlAction::<E>::Ignore,
{
}

/// A progress bar that is at its end stays there as it moves on, and is at its end from its length
/// on and not before.
pub proof fn law_at_end(shown: int, further: int, total: int)
    ensures
        replies::at_end(shown, total) && shown <= further ==> replies::at_end(further, total),
        replies::at_end(total, total),
        !replies::at_end(total - 1, total),
        shown < total ==> !replies::at_end(shown, total),
{
}

} // verus!
