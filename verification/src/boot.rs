//! How the program comes up, and how it goes down.

use crate::text;
use vstd::prelude::*;
use vstd::string::*;

verus! {

/// The status that the program exits with.
#[derive(Clone, Copy, Debug, PartialEq, Eq, Structural)]
pub enum ExitStatus {
    /// The status that tells the Launcher of an error and not to try again.
    ErrNoRetry,
    /// The status that tells the Launcher that all is well and not to try again.
    OkNoRetry,
    /// The status that tells of any other error: 1.
    Failure,
}

/// The errors that end the program, as far as they make a difference to how it exits.
#[derive(Clone, Copy, Debug, PartialEq, Eq, Structural)]
pub enum FatalError {
    /// Another Supervisor holds the process lock.
    ProcessLocked,
    /// This Supervisor has been told to depart from its ring.
    Departed,
    /// Any other error.
    Other,
}

/// The status that the program exits with after an error.
pub open spec fn status_after(err: FatalError) -> ExitStatus {
    match err {
        FatalError::Other => ExitStatus::Failure,
        _ => ExitStatus::ErrNoRetry,
    }
}

/// The status that the program exits with after an error. Starting again would not help where
/// another Supervisor runs or where this one has departed.
pub fn exit_status(err: FatalError) -> (status: ExitStatus)
    ensures
        status == (if err == FatalError::ProcessLocked || err == FatalError::Departed {
            ExitStatus::ErrNoRetry
        } else {
            ExitStatus::Failure
        }),
        status == status_after(err),
{
    match err {
        FatalError::ProcessLocked => ExitStatus::ErrNoRetry,
        FatalError::Departed => ExitStatus::ErrNoRetry,
        FatalError::Other => ExitStatus::Failure,
    }
}

/// Where the program is as it comes up: what it does next, or how that ended.
#[derive(Debug)]
pub enum Boot {
    /// Set up logging.
    InitLogger,
    /// Enable the features that the environment asks for.
    EnableFeatures,
    /// Initialize cryptography.
    InitCrypto,
    /// Look for the pipe to the Launcher in the environment.
    FindPipe,
    /// Connect to the Launcher through this pipe.
    Connect(String),
    /// The program is up, with a connection to the Launcher or without one.
    Up { connected: bool },
    /// Print the line and exit with the status.
    Exit { line: String, status: ExitStatus },
}

/// What came of a step.
#[derive(Debug)]
pub enum BootReply {
    /// The step is done.
    Done,
    /// Whether cryptography is initialized.
    Crypto(bool),
    /// The pipe, if there is one.
    Pipe(Option<String>),
    /// The connection stands.
    Connected,
    /// The connection failed, with this message.
    NotConnected(String),
}

/// What `Boot` holds.
pub enum BootView {
    InitLogger,
    EnableFeatures,
    InitCrypto,
    FindPipe,
    Connect(Seq<char>),
    Up { connected: bool },
    Exit { line: Seq<char>, status: ExitStatus },
}

impl View for Boot {
    type V = BootView;

    open spec fn view(&self) -> BootView {
        match self {
            Boot::InitLogger => BootView::InitLogger,
            Boot::EnableFeatures => BootView::EnableFeatures,
            Boot::InitCrypto => BootView::InitCrypto,
            Boot::FindPipe => BootView::FindPipe,
            Boot::Connect(pipe) => BootView::Connect(pipe@),
            Boot::Up { connected } => BootView::Up { connected: *connected },
            Boot::Exit { line, status } => BootView::Exit { line: line@, status: *status },
        }
    }
}

/// Whether `reply` is one that `boot` waits for.
pub open spec fn boot_reply_fits(boot: Boot, reply: BootReply) -> bool {
    match boot {
        Boot::InitLogger => reply is Done,
        Boot::EnableFeatures => reply is Done,
        Boot::InitCrypto => reply is Crypto,
        Boot::FindPipe => reply is Pipe,
        Boot::Connect(_) => reply is Connected || reply is NotConnected,
        _ => false,
    }
}

/// What follows `boot` after `reply`.
pub open spec fn boot_after(boot: Boot, reply: BootReply) -> BootView {
    match reply {
        BootReply::Done => if boot is InitLogger {
            BootView::EnableFeatures
        } else {
            BootView::InitCrypto
        },
        BootReply::Crypto(true) => BootView::FindPipe,
        BootReply::Crypto(false) => BootView::Exit {
            line: "Crypto initialization failed!"@,
            status: ExitStatus::Failure,
        },
        BootReply::Pipe(Some(pipe)) => BootView::Connect(pipe@),
        BootReply::Pipe(None) => BootView::Up { connected: false },
        BootReply::Connected => BootView::Up { connected: true },
        BootReply::NotConnected(message) => BootView::Exit {
            line: message@,
            status: ExitStatus::Failure,
        },
    }
}

/// The first thing that the program does.
pub fn boot() -> (first: Boot)
    ensures
        first@ == BootView::InitLogger,
{
    Boot::InitLogger
}

impl Boot {
    /// Takes in the reply to what was to be done.
    pub fn answer(self, reply: BootReply) -> (next: Boot)
        requires
            boot_reply_fits(self, reply),
        ensures
            next@ == boot_after(self, reply),
    {
        match reply {
            BootReply::Done => match self {
                Boot::InitLogger => Boot::EnableFeatures,
                _ => Boot::InitCrypto,
            },
            BootReply::Crypto(ok) => {
                if ok {
                    Boot::FindPipe
                } else {
                    Boot::Exit {
                        line: "Crypto initialization failed!".to_string(),
                        status: ExitStatus::Failure,
                    }
                }
            },
            BootReply::Pipe(pipe) => match pipe {
                Some(pipe) => Boot::Connect(pipe),
                None => Boot::Up { connected: false },
            },
            BootReply::Connected => Boot::Up { connected: true },
            BootReply::NotConnected(message) => Boot::Exit {
                line: message,
                status: ExitStatus::Failure,
            },
        }
    }
}

/// A feature that the environment can enable.
#[derive(Debug)]
pub struct Feature {
    /// The feature as it is shown.
    pub shown: String,
    /// The end of the name of its environment variable.
    pub name: String,
}

/// The features that the environment can enable: that of listing them all, which is shown as
/// `list_shown`.
pub fn features(list_shown: String) -> (all: Vec<Feature>)
    ensures
        all@.len() == 1,
        all@[0].shown == list_shown,
        all@[0].name@ == "LIST"@,
{
    let mut all: Vec<Feature> = Vec::new();
    all.push(Feature { shown: list_shown, name: "LIST".to_string() });
    all
}

/// The environment variable of the feature with this name.
pub open spec fn feature_variable(name: Seq<char>) -> Seq<char> {
    "HAB_FEAT_"@ + name
}

/// Whether a variable that holds `held` enables its feature.
pub open spec fn enables(held: Option<Seq<char>>) -> bool {
    held == Some("true"@) || held == Some("TRUE"@)
}

/// The lines that say which features the environment enables.
pub open spec fn enabling_lines(features: Seq<Feature>, held: Seq<Option<Seq<char>>>) -> Seq<
    Seq<char>,
>
    decreases features.len(),
{
    if features.len() == 0 {
        Seq::empty()
    } else {
        let before = enabling_lines(features.drop_last(), held.drop_last());
        if enables(held.last()) {
            before.push("Enabling feature: "@ + features.last().shown@)
        } else {
            before
        }
    }
}

/// The line that says how to enable a feature.
pub open spec fn feature_line(feature: Feature) -> Seq<char> {
    "     * "@ + feature.shown@ + ": HAB_FEAT_"@ + feature.name@ + "=true"@
}

/// The lines that list all features.
pub open spec fn listing_lines(features: Seq<Feature>) -> Seq<Seq<char>> {
    seq!["Listing feature flags environment variables:"@] + Seq::new(
        features.len(),
        |i: int| feature_line(features[i]),
    ) + seq!["The Supervisor will start now, enjoy!"@]
}

/// What optional strings hold.
pub open spec fn opt_texts(list: Seq<Option<String>>) -> Seq<Option<Seq<char>>> {
    Seq::new(list.len(), |i: int| text::opt_text(list[i]))
}

/// The environment variable that enables a feature.
pub fn feature_var(feature: &Feature) -> (name: String)
    ensures
        name@ == feature_variable(feature.name@),
{
    "HAB_FEAT_".to_string().concat(feature.name.as_str())
}

/// Whether what the variable of a feature holds enables it.
pub fn feature_enabled(held: &Option<String>) -> (yes: bool)
    ensures
        yes == enables(text::opt_text(*held)),
{
    match held {
        Some(val) => text::same(val.as_str(), "true") || text::same(val.as_str(), "TRUE"),
        None => false,
    }
}

/// Which features to enable, given what their variables hold, and the lines that say so.
pub fn enable_features_from_env(features: &Vec<Feature>, held: &Vec<Option<String>>) -> (r: (
    Vec<bool>,
    Vec<String>,
))
    requires
        features@.len() == held@.len(),
    ensures
        r.0@ == Seq::new(features@.len(), |i: int| enables(opt_texts(held@)[i])),
        text::texts(r.1@) == enabling_lines(features@, opt_texts(held@)),
{
    let mut enabled: Vec<bool> = Vec::new();
    let mut lines: Vec<String> = Vec::new();
    let ghost values = opt_texts(held@);
    proof {
        assert(text::texts(lines@) =~= enabling_lines(features@.take(0), values.take(0)));
    }
    for i in 0..features.len()
        invariant
            features@.len() == held@.len(),
            values == opt_texts(held@),
            enabled@.len() == i,
            forall|j: int| 0 <= j < i ==> enabled@[j] == enables(values[j]),
            text::texts(lines@) == enabling_lines(
                features@.take(i as int),
                values.take(i as int),
            ),
    {
        let ghost before = lines@;
        let on = feature_enabled(&held[i]);
        if on {
            lines.push("Enabling feature: ".to_string().concat(features[i].shown.as_str()));
        }
        enabled.push(on);
        proof {
            let f = features@.take(i + 1);
            let v = values.take(i + 1);
            assert(f.drop_last() =~= features@.take(i as int));
            assert(v.drop_last() =~= values.take(i as int));
            assert(on == enables(v.last()));
            if on {
                assert(text::texts(lines@) =~= text::texts(before).push(
                    "Enabling feature: "@ + f.last().shown@,
                ));
            }
        }
    }
    proof {
        assert(features@.take(features@.len() as int) =~= features@);
        assert(values.take(values.len() as int) =~= values);
        assert(enabled@ =~= Seq::new(features@.len(), |i: int| enables(opt_texts(held@)[i])));
    }
    (enabled, lines)
}

/// The lines that list all features, where listing them is enabled.
pub fn feature_listing(features: &Vec<Feature>, list_enabled: bool) -> (lines: Vec<String>)
    ensures
        text::texts(lines@) == (if list_enabled {
            listing_lines(features@)
        } else {
            Seq::empty()
        }),
{
    let mut lines: Vec<String> = Vec::new();
    if list_enabled {
        lines.push("Listing feature flags environment variables:".to_string());
        for i in 0..features.len()
            invariant
                lines@.len() == i + 1,
                lines@[0]@ == "Listing feature flags environment variables:"@,
                forall|j: int| 0 <= j < i ==> (#[trigger] lines@[j + 1])@ == feature_line(features@[j]),
        {
            lines.push(
                "     * ".to_string().concat(features[i].shown.as_str()).concat(
                    ": HAB_FEAT_",
                ).concat(features[i].name.as_str()).concat("=true"),
            );
        }
        lines.push("The Supervisor will start now, enjoy!".to_string());
        proof {
            let want = listing_lines(features@);
            assert forall|k: int| 0 <= k < want.len() implies text::texts(lines@)[k] == want[k] by {
                if 0 < k < want.len() - 1 {
                    assert(lines@[(k - 1) + 1]@ == feature_line(features@[k - 1]));
                }
            }
            assert(text::texts(lines@) =~= want);
        }
    } else {
        proof {
            assert(text::texts(lines@) =~= Seq::empty());
        }
    }
    lines
}

/// How output to the terminal is colored.
#[derive(Clone, Copy, Debug, PartialEq, Eq, Structural)]
pub enum Coloring {
    /// Where the terminal can show it.
    Auto,
    /// Never.
    Never,
}

/// How output is colored where color is switched on, or off.
pub open spec fn coloring_for(is_color: bool) -> Coloring {
    if is_color {
        Coloring::Auto
    } else {
        Coloring::Never
    }
}

/// Whether there is a terminal to talk to, where the variable for non-interactive use settles it.
pub open spec fn terminal_for(noninteractive: Option<Seq<char>>) -> Option<bool> {
    match noninteractive {
        Some(val) => if val == "1"@ || val == "true"@ {
            Some(false)
        } else {
            None
        },
        None => None,
    }
}

/// How to talk to the user. `is_color` says whether color is switched on, `noninteractive` is
/// what the variable for non-interactive use holds. The second part of the result is whether
/// there is a terminal to talk to, where that is settled already.
pub fn ui(is_color: bool, noninteractive: &Option<String>) -> (r: (Coloring, Option<bool>))
    ensures
        r.0 == (if is_color {
            Coloring::Auto
        } else {
            Coloring::Never
        }),
        r.1 == (if text::opt_text(*noninteractive) == Some("1"@) || text::opt_text(*noninteractive)
            == Some("true"@) {
            Some(false)
        } else {
            None
        }),
        r.0 == coloring_for(is_color),
        r.1 == terminal_for(text::opt_text(*noninteractive)),
{
    let coloring = if is_color {
        Coloring::Auto
    } else {
        Coloring::Never
    };
    let isatty = match noninteractive {
        Some(val) => if text::same(val.as_str(), "1") || text::same(val.as_str(), "true") {
            Some(false)
        } else {
            None
        },
        None => None,
    };
    (coloring, isatty)
}

} // verus!
