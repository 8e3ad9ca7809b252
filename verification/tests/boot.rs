use hab_sup::args::{Arg, ArgMatches};
use hab_sup::boot::{
    boot, enable_features_from_env, exit_status, feature_enabled, feature_listing, feature_var,
    features, ui, Boot, BootReply, Coloring, ExitStatus, FatalError, Feature,
};
use hab_sup::cli::Subcommand;
use hab_sup::start::{
    start, sub_bash, sub_sh, sub_term, term_start, Shell, StartAction, TermOutcome, TermStart,
};

#[test]
fn errors_that_starting_again_cannot_help_are_told_apart() {
    assert_eq!(exit_status(FatalError::ProcessLocked), ExitStatus::ErrNoRetry);
    assert_eq!(exit_status(FatalError::Departed), ExitStatus::ErrNoRetry);
    assert_eq!(exit_status(FatalError::Other), ExitStatus::Failure);
}

/// Logging is set up, and the features are enabled.
fn ready() -> Boot {
    boot().answer(BootReply::Done).answer(BootReply::Done)
}

#[test]
fn features_are_enabled_before_cryptography() {
    let b = boot();
    assert!(matches!(b, Boot::InitLogger));
    let b = b.answer(BootReply::Done);
    assert!(matches!(b, Boot::EnableFeatures));
    assert!(matches!(b.answer(BootReply::Done), Boot::InitCrypto));
}

#[test]
fn the_program_comes_up_with_a_launcher() {
    let b = ready().answer(BootReply::Crypto(true));
    assert!(matches!(b, Boot::FindPipe));
    let b = b.answer(BootReply::Pipe(Some("/pipe".to_string())));
    assert!(matches!(&b, Boot::Connect(p) if p == "/pipe"));
    assert!(matches!(b.answer(BootReply::Connected), Boot::Up { connected: true }));
}

#[test]
fn the_program_comes_up_without_a_launcher() {
    let b = ready().answer(BootReply::Crypto(true)).answer(BootReply::Pipe(None));
    assert!(matches!(b, Boot::Up { connected: false }));
}

#[test]
fn without_cryptography_the_program_exits() {
    match ready().answer(BootReply::Crypto(false)) {
        Boot::Exit { line, status } => {
            assert_eq!(line, "Crypto initialization failed!");
            assert_eq!(status, ExitStatus::Failure);
        }
        _ => panic!(),
    }
}

#[test]
fn a_launcher_that_cannot_be_reached_ends_the_program() {
    match Boot::Connect("/p".to_string()).answer(BootReply::NotConnected("gone".to_string())) {
        Boot::Exit { line, status } => {
            assert_eq!(line, "gone");
            assert_eq!(status, ExitStatus::Failure);
        }
        _ => panic!(),
    }
}

fn two_features() -> Vec<Feature> {
    vec![
        Feature { shown: "List".to_string(), name: "LIST".to_string() },
        Feature { shown: "More".to_string(), name: "MORE".to_string() },
    ]
}

#[test]
fn features_are_enabled_by_true_alone() {
    assert!(feature_enabled(&Some("true".to_string())));
    assert!(feature_enabled(&Some("TRUE".to_string())));
    assert!(!feature_enabled(&Some("True".to_string())));
    assert!(!feature_enabled(&Some("1".to_string())));
    assert!(!feature_enabled(&None));
    assert_eq!(feature_var(&two_features()[0]), "HAB_FEAT_LIST");
}

#[test]
fn listing_is_the_one_feature() {
    let all = features("List".to_string());
    assert_eq!(all.len(), 1);
    assert_eq!(all[0].shown, "List");
    assert_eq!(feature_var(&all[0]), "HAB_FEAT_LIST");
}

#[test]
fn enabled_features_are_announced() {
    let held = vec![Some("TRUE".to_string()), None];
    let (enabled, lines) = enable_features_from_env(&two_features(), &held);
    assert_eq!(enabled, vec![true, false]);
    assert_eq!(lines, vec!["Enabling feature: List"]);
}

#[test]
fn features_are_listed_where_that_is_enabled() {
    assert_eq!(
        feature_listing(&two_features(), true),
        vec![
            "Listing feature flags environment variables:",
            "     * List: HAB_FEAT_LIST=true",
            "     * More: HAB_FEAT_MORE=true",
            "The Supervisor will start now, enjoy!",
        ]
    );
    assert!(feature_listing(&two_features(), false).is_empty());
}

#[test]
fn the_terminal_is_left_alone_where_nobody_sits_at_it() {
    assert_eq!(ui(true, &None), (Coloring::Auto, None));
    assert_eq!(ui(false, &Some("1".to_string())), (Coloring::Never, Some(false)));
    assert_eq!(ui(true, &Some("true".to_string())), (Coloring::Auto, Some(false)));
    assert_eq!(ui(true, &Some("yes".to_string())), (Coloring::Auto, None));
}

#[test]
fn a_supervisor_needs_a_launcher() {
    assert!(matches!(start(Ok(Subcommand::Run), false), StartAction::FailNoLauncher));
    assert!(matches!(start(Ok(Subcommand::Run), true), StartAction::Carry(Subcommand::Run)));
    assert!(matches!(start(Ok(Subcommand::Term), false), StartAction::Carry(Subcommand::Term)));
}

#[test]
fn a_bad_command_line_is_explained() {
    match start(Err("error: what?".to_string()), true) {
        StartAction::Exit { out, status } => {
            assert_eq!(out, "error: what?\n");
            assert_eq!(status, ExitStatus::ErrNoRetry);
        }
        _ => panic!(),
    }
}

#[test]
fn the_shells_take_their_output_settings() {
    let mut m = ArgMatches::new();
    m.insert(Arg::Verbose, vec![]);
    let bash = sub_bash(&m);
    assert_eq!((bash.verbose, bash.no_color, bash.shell), (true, false, Shell::Bash));
    let mut m = ArgMatches::new();
    m.insert(Arg::NoColor, vec![]);
    let sh = sub_sh(&m);
    assert_eq!((sh.verbose, sh.no_color, sh.shell), (false, true, Shell::Sh));
}

#[test]
fn ending_a_supervisor_takes_the_output_settings() {
    let mut m = ArgMatches::new();
    assert_eq!(term_start(&m), TermStart { verbose: false, no_color: false });
    m.insert(Arg::NoColor, vec![]);
    assert_eq!(term_start(&m), TermStart { verbose: false, no_color: true });
    m.insert(Arg::Verbose, vec![]);
    assert_eq!(term_start(&m), TermStart { verbose: true, no_color: true });
}

#[test]
fn ending_what_does_not_run_is_no_error() {
    assert_eq!(sub_term::<String>(TermOutcome::Terminated), Ok(""));
    assert_eq!(
        sub_term::<String>(TermOutcome::ProcessLockIo),
        Ok("Supervisor not started.\n")
    );
    assert_eq!(sub_term(TermOutcome::Failed("e".to_string())), Err("e".to_string()));
}
