//! What holds of the way up, and of the features that the environment enables.

use crate::boot;
use crate::boot::Boot;
use crate::boot::BootReply;
use crate::boot::BootView;
use crate::boot::Coloring;
use crate::boot::ExitStatus;
use crate::boot::FatalError;
use crate::boot::Feature;
use vstd::prelude::*;

verus! {

/// Whether the program comes up through `boots`, one after another, on `replies`.
pub open spec fn boot_run(boots: Seq<Boot>, replies: Seq<BootReply>) -> bool {
    &&& boots.len() == replies.len() + 1
    &&& boots[0]@ == BootView::InitLogger
    &&& forall|i: int|
        0 <= i < replies.len() ==> boot::boot_reply_fits(boots[i], #[trigger] replies[i])
            && boots[i + 1]@ == boot::boot_after(boots[i], replies[i])
}

/// On its way up the program sets up logging, enables features, initializes cryptography, looks
/// for the pipe and connects through that very pipe, in this order. It is up without a Launcher
/// exactly where there is no pipe, and exits with a failure where cryptography cannot be
/// initialized or the connection fails, with the line that says so.
pub proof fn law_boot(boots: Seq<Boot>, replies: Seq<BootReply>)
    requires
        boot_run(boots, replies),
    ensures
        replies.len() <= 5,
        replies.len() > 0 ==> replies[0] is Done && boots[1]@ == BootView::EnableFeatures,
        replies.len() > 1 ==> replies[1] is Done && boots[2]@ == BootView::InitCrypto,
        replies.len() > 2 ==> replies[2] is Crypto && boots[3]@ == (if replies[2]->Crypto_0 {
            BootView::FindPipe
        } else {
            BootView::Exit {
                line: "Crypto initialization failed!"@,
                status: ExitStatus::Failure,
            }
        }),
        replies.len() > 3 ==> replies[2]->Crypto_0 && replies[3] is Pipe && (
        match replies[3]->Pipe_0 {
            Some(pipe) => boots[4]@ == BootView::Connect(pipe@),
            None => boots[4]@ == (BootView::Up { connected: false }),
        }),
        replies.len() > 4 ==> replies[3]->Pipe_0 is Some && (match replies[4] {
            BootReply::Connected => boots[5]@ == (BootView::Up { connected: true }),
            BootReply::NotConnected(message) => boots[5]@ == (BootView::Exit {
                line: message@,
                status: ExitStatus::Failure,
            }),
            _ => false,
        }),
{
    if replies.len() > 0 {
        assert(boot::boot_reply_fits(boots[0], replies[0]));
    }
    if replies.len() > 1 {
        assert(boot::boot_reply_fits(boots[1], replies[1]));
    }
    if replies.len() > 2 {
        assert(boot::boot_reply_fits(boots[2], replies[2]));
    }
    if replies.len() > 3 {
        assert(boot::boot_reply_fits(boots[3], replies[3]));
    }
    if replies.len() > 4 {
        assert(boot::boot_reply_fits(boots[4], replies[4]));
    }
    if replies.len() > 5 {
        assert(boot::boot_reply_fits(boots[5], replies[5]));
    }
}

/// Every step takes each of the replies that it can have.
pub proof fn law_boot_replies(pipe: String, message: String, found: Option<String>, ok: bool)
    ensures
        boot::boot_reply_fits(Boot::InitLogger, BootReply::Done),
        boot::boot_reply_fits(Boot::EnableFeatures, BootReply::Done),
        boot::boot_reply_fits(Boot::InitCrypto, BootReply::Crypto(ok)),
        boot::boot_reply_fits(Boot::FindPipe, BootReply::Pipe(found)),
        boot::boot_reply_fits(Boot::Connect(pipe), BootReply::Connected),
        boot::boot_reply_fits(Boot::Connect(pipe), BootReply::NotConnected(message)),
{
}

/// A variable enables its feature exactly where it holds `true` or `TRUE`.
pub proof fn law_enables(held: Seq<char>)
    ensures
        boot::enables(Some(held)) <==> held == "true"@ || held == "TRUE"@,
        !boot::enables(None),
{
}

/// The variable of a feature is its name behind `HAB_FEAT_`, so that features with different names
/// have different variables.
pub proof fn law_feature_variable(a: Seq<char>, b: Seq<char>)
    ensures
        boot::feature_variable(a) == "HAB_FEAT_"@ + a,
        boot::feature_variable(a) == boot::feature_variable(b) ==> a == b,
{
    if boot::feature_variable(a) == boot::feature_variable(b) {
        let n = "HAB_FEAT_"@.len() as int;
        let s = boot::feature_variable(a);
        assert(s.skip(n) =~= a);
        assert(s.skip(n) =~= b);
    }
}

/// One more feature adds its line at the end exactly where its variable holds `true` or `TRUE`,
/// and changes none of the others; without features there is none.
pub proof fn law_enabling_lines(
    features: Seq<Feature>,
    held: Seq<Option<Seq<char>>>,
    more: Feature,
    value: Option<Seq<char>>,
)
    requires
        features.len() == held.len(),
    ensures
        boot::enabling_lines(Seq::empty(), Seq::empty()).len() == 0,
        boot::enabling_lines(features.push(more), held.push(value)) == boot::enabling_lines(
            features,
            held,
        ) + (if value == Some("true"@) || value == Some("TRUE"@) {
            seq!["Enabling feature: "@ + more.shown@]
        } else {
            Seq::empty()
        }),
{
    assert(features.push(more).drop_last() =~= features);
    assert(held.push(value).drop_last() =~= held);
    assert(boot::enabling_lines(features.push(more), held.push(value)) =~= boot::enabling_lines(
        features,
        held,
    ) + (if value == Some("true"@) || value == Some("TRUE"@) {
        seq!["Enabling feature: "@ + more.shown@]
    } else {
        Seq::empty()
    }));
}

/// A listing has a line above, a line for each feature in its order that says how to enable it,
/// and a line below.
pub proof fn law_listing(features: Seq<Feature>, i: int)
    requires
        0 <= i < features.len(),
    ensures
        ({
            let lines = boot::listing_lines(features);
            &&& lines.len() == features.len() + 2
            &&& lines[0] == "Listing feature flags environment variables:"@
            &&& lines[i + 1] == "     * "@ + features[i].shown@ + ": HAB_FEAT_"@ + features[i].name@
                + "=true"@
            &&& lines.last() == "The Supervisor will start now, enjoy!"@
        }),
{
}

/// Starting again is ruled out exactly where another Supervisor holds the lock or this one has
/// departed; every other error is a plain failure, and no error ends as if all were well.
pub proof fn law_exit_status(err: FatalError)
    ensures
        boot::status_after(err) == ExitStatus::ErrNoRetry <==> err == FatalError::ProcessLocked
            || err == FatalError::Departed,
        boot::status_after(err) == ExitStatus::Failure <==> err == FatalError::Other,
{
}

/// Color is never used exactly where it is switched off, and the terminal is given up exactly
/// where the variable for non-interactive use holds `1` or `true`.
pub proof fn law_ui(is_color: bool, held: Seq<char>)
    ensures
        boot::coloring_for(is_color) == Coloring::Never <==> !is_color,
        boot::terminal_for(Some(held)) == Some(false) <==> held == "1"@ || held == "true"@,
        boot::terminal_for(Some(held)) is None <==> held != "1"@ && held != "true"@,
        boot::terminal_for(None) is None,
{
}

} // verus!
