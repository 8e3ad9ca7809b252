use hab_sup::args::{Arg, ArgMatches};
use hab_sup::domain::Platform;
use hab_sup::settings::{
    bldr_url, bldr_url_from_input, channel, channel_from_input, get_app_env_from_input,
    get_binds_from_input, get_config_from_input, get_group_from_input, get_password_from_input,
    get_strategy_from_input, get_topology_from_input, toggle_color, toggle_verbosity,
    Surroundings,
};
use hab_sup::text::{contains_char, copy, decimal, join, same};
use hab_sup::validate::{
    url_fits, url_verdict, valid_listen_gossip, valid_listen_http, valid_service_group, valid_topology,
    valid_update_strategy, valid_url,
};

fn around(env: Option<&str>) -> Surroundings {
    Surroundings {
        bldr_url_from_env: env.map(|s| s.to_string()),
        default_bldr_url: "default".to_string(),
        default_channel: "stable".to_string(),
    }
}

fn given(arg: Arg, value: &str) -> ArgMatches {
    let mut m = ArgMatches::new();
    m.insert(arg, vec![value.to_string()]);
    m
}

#[test]
fn a_builder_url_comes_from_the_nearest_place() {
    let none = ArgMatches::new();
    let some = given(Arg::BldrUrl, "cli");
    assert_eq!(bldr_url(&some, &around(Some("env"))), "cli");
    assert_eq!(bldr_url(&none, &around(Some("env"))), "env");
    assert_eq!(bldr_url(&none, &around(None)), "default");
    assert_eq!(bldr_url_from_input(&none, None), None);
    assert_eq!(bldr_url_from_input(&none, Some("env".to_string())).unwrap(), "env");
    assert_eq!(bldr_url_from_input(&some, Some("env".to_string())).unwrap(), "cli");
}

#[test]
fn a_channel_comes_from_the_command_line_or_is_the_default() {
    assert_eq!(channel(&given(Arg::Channel, "unstable"), &around(None)), "unstable");
    assert_eq!(channel(&ArgMatches::new(), &around(Some("env"))), "stable");
    assert_eq!(channel_from_input(&ArgMatches::new()), None);
    assert_eq!(channel_from_input(&given(Arg::Channel, "x")).unwrap(), "x");
}

#[test]
fn single_settings_are_read() {
    assert_eq!(get_group_from_input(&given(Arg::Group, "g")).unwrap(), "g");
    assert_eq!(get_topology_from_input(&given(Arg::Topology, "leader")).unwrap(), "leader");
    assert_eq!(get_strategy_from_input(&given(Arg::Strategy, "none")).unwrap(), "none");
    assert_eq!(get_config_from_input(&given(Arg::ConfigDir, "/d")).unwrap(), "/d");
    assert_eq!(get_binds_from_input(&given(Arg::Bind, "a:b")), vec!["a:b"]);
    assert!(get_binds_from_input(&ArgMatches::new()).is_empty());
    assert!(toggle_verbosity(&given(Arg::Verbose, "")));
    assert!(!toggle_verbosity(&ArgMatches::new()));
    assert!(toggle_color(&given(Arg::NoColor, "")));
    assert!(!toggle_color(&ArgMatches::new()));
}

#[test]
fn application_and_environment_come_in_pairs() {
    assert_eq!(get_app_env_from_input(&given(Arg::Environment, "prod")), None);
    let mut m = given(Arg::Application, "app");
    assert_eq!(get_app_env_from_input(&m), None);
    m.insert(Arg::Environment, vec!["prod".to_string()]);
    assert_eq!(get_app_env_from_input(&m), Some(("app".to_string(), "prod".to_string())));
}

#[test]
fn a_password_is_read_on_windows() {
    let m = given(Arg::Password, "pw");
    assert_eq!(get_password_from_input(&m, Platform::Windows).unwrap(), "pw");
    assert_eq!(get_password_from_input(&m, Platform::Unix), None);
}

#[test]
fn urls_are_checked() {
    assert_eq!(valid_url("https://bldr.habitat.sh"), Ok(()));
    assert_eq!(valid_url("bldr"), Err("URL: 'bldr' is not valid".to_string()));
    assert_eq!(valid_url(""), Err("URL: '' is not valid".to_string()));
    assert_eq!(url_verdict("x", true), Ok(()));
    assert_eq!(url_verdict("x", false), Err("URL: 'x' is not valid".to_string()));
}

#[test]
fn urls_fit_up_to_long_labels() {
    assert!(url_fits("") && url_fits("https://bldr.habitat.sh"));
    assert!(url_fits(&format!("http://{}", "a".repeat(1927))));
    assert!(!url_fits(&format!("http://{}", "a".repeat(1928))));
    assert!(url_fits(&format!("http://{}", "\u{fdfa}".repeat(214))));
    assert!(!url_fits(&format!("http://{}", "\u{fdfa}".repeat(215))));
    assert!(!url_fits(&format!("http://{}\u{1062cd}", "a".repeat(3999))));
    assert!(url_fits(&format!("http://x.org/{}?{}", "a/".repeat(5000), "b".repeat(5000))));
    assert!(url_fits(&format!("http://x.org#{}", "\u{fdfa}".repeat(5000))));
    assert!(url_fits(&format!("http://{}org", "abc.".repeat(2000))));
}

#[test]
fn long_urls_that_fit_are_checked() {
    let long = format!("http://{}", "a".repeat(1927));
    assert_eq!(valid_url(&long), Ok(()));
    let wide = format!("http://{}", "\u{fdfa}".repeat(214));
    assert_eq!(valid_url(&wide), Err(format!("URL: '{}' is not valid", wide)));
    let escaped = format!("http://{}", "%EF%B7%BA".repeat(214));
    assert_eq!(valid_url(&escaped), Err(format!("URL: '{}' is not valid", escaped)));
    let far = format!("http://{}\u{10fffd}", "a".repeat(1900));
    assert!(url_fits(&far));
    assert_eq!(valid_url(&far), Err(format!("URL: '{}' is not valid", far)));
}

#[test]
fn values_that_do_not_parse_are_refused() {
    assert_eq!(valid_topology("leader", true), Ok(()));
    assert_eq!(
        valid_topology("ring", false),
        Err("Service topology: 'ring' is not valid".to_string())
    );
    assert_eq!(valid_update_strategy("rolling", true), Ok(()));
    assert_eq!(
        valid_update_strategy("never", false),
        Err("Update strategy: 'never' is not valid".to_string())
    );
    assert_eq!(valid_listen_gossip(true), Ok(()));
    assert_eq!(
        valid_listen_gossip(false),
        Err("Listen gossip address should include both IP and port, eg: '0.0.0.0:9700'".to_string())
    );
    assert_eq!(valid_listen_http(true), Ok(()));
    assert_eq!(
        valid_listen_http(false),
        Err("Listen http address should include both IP and port, eg: '0.0.0.0:9700'".to_string())
    );
    assert_eq!(valid_service_group(Ok(())), Ok(()));
    assert_eq!(valid_service_group(Err("bad".to_string())), Err("bad".to_string()));
}

#[test]
fn numbers_are_written_in_decimal() {
    assert_eq!(decimal(0), "0");
    assert_eq!(decimal(9), "9");
    assert_eq!(decimal(10), "10");
    assert_eq!(decimal(-1), "-1");
    assert_eq!(decimal(i128::MAX), i128::MAX.to_string());
    assert_eq!(decimal(i128::MIN), i128::MIN.to_string());
}

#[test]
fn texts_are_put_together() {
    let list = vec!["a".to_string(), "".to_string(), "c".to_string()];
    assert_eq!(join(&list, "\t"), "a\t\tc");
    assert_eq!(join(&vec![], "\t"), "");
    assert_eq!(copy(&list), list);
    assert!(same("x", "x"));
    assert!(!same("x", "X"));
    assert!(contains_char("a:b", ':'));
    assert!(!contains_char("ab", ':'));
}
