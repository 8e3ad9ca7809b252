//! What holds of single settings, read off the command line.

use crate::args;
use crate::args::Arg;
use crate::domain::Platform;
use crate::settings;
use crate::settings::SurroundingsView;
use vstd::prelude::*;

verus! {

/// The value of an argument is the first that was given for it, if any was, and its values are all
/// of them.
pub proof fn law_values(given: args::Given, arg: Arg)
    ensures
        given.contains_key(arg) && given[arg].len() > 0 ==> args::value(given, arg) == Some(
            given[arg][0],
        ),
        given.contains_key(arg) && given[arg].len() == 0 ==> args::value(given, arg) is None,
        !given.contains_key(arg) ==> args::value(given, arg) is None && args::values(
            given,
            arg,
        ).len() == 0,
        given.contains_key(arg) ==> args::values(given, arg) == given[arg],
{
}

/// What another argument is given makes no difference to an argument.
pub proof fn law_values_apart(given: args::Given, arg: Arg, other: Arg, list: Seq<Seq<char>>)
    requires
        arg != other,
    ensures
        args::value(given.insert(other, list), arg) == args::value(given, arg),
        args::values(given.insert(other, list), arg) == args::values(given, arg),
        args::value(given.remove(other), arg) == args::value(given, arg),
        args::values(given.remove(other), arg) == args::values(given, arg),
{
}

/// The Builder URL is that of the command line, failing that the one of the environment, failing
/// that the default; one counts as named by the user exactly where it is not the default.
pub proof fn law_bldr_url(given: args::Given, around: SurroundingsView)
    ensures
        ({
            let named = settings::named_bldr_url(given, around.bldr_url_from_env);
            let url = settings::chosen_bldr_url(given, around);
            if given.contains_key(Arg::BldrUrl) && given[Arg::BldrUrl].len() > 0 {
                url == given[Arg::BldrUrl][0] && named == Some(url)
            } else if around.bldr_url_from_env is Some {
                url == around.bldr_url_from_env->0 && named == Some(url)
            } else {
                url == around.default_bldr_url && named is None
            }
        }),
{
}

/// The channel is that of the command line, and failing that the default; the environment has no
/// say in it.
pub proof fn law_channel(given: args::Given, around: SurroundingsView, from_env: Option<Seq<char>>)
    ensures
        given.contains_key(Arg::Channel) && given[Arg::Channel].len() > 0
            ==> settings::chosen_channel(given, around) == given[Arg::Channel][0],
        !given.contains_key(Arg::Channel) || given[Arg::Channel].len() == 0
            ==> settings::chosen_channel(given, around) == around.default_channel,
        settings::chosen_channel(
            given,
            SurroundingsView { bldr_url_from_env: from_env, ..around },
        ) == settings::chosen_channel(given, around),
{
}

/// An application and an environment count only together, each as it was given.
pub proof fn law_app_env(given: args::Given)
    ensures
        ({
            let both = given.contains_key(Arg::Application) && given[Arg::Application].len() > 0
                && given.contains_key(Arg::Environment) && given[Arg::Environment].len() > 0;
            &&& both ==> settings::named_app_env(given) == Some(
                (given[Arg::Application][0], given[Arg::Environment][0]),
            )
            &&& !both ==> settings::named_app_env(given) is None
        }),
{
}

/// A password counts on Windows alone, as it was given.
pub proof fn law_password(given: args::Given)
    ensures
        settings::named_password(given, Platform::Unix) is None,
        given.contains_key(Arg::Password) && given[Arg::Password].len() > 0
            ==> settings::named_password(given, Platform::Windows) == Some(
            given[Arg::Password][0],
        ),
        !given.contains_key(Arg::Password) || given[Arg::Password].len() == 0
            ==> settings::named_password(given, Platform::Windows) is None,
{
}

} // verus!
