use hab_sup::replies::{
    config_reply_kind, config_reply_text, ctl_reply_kind, handle_ctl_reply, print_svc_status,
    progress_finished, status_header, status_reply_kind, status_text, ConfigReplyKind, CtlAction,
    CtlReply, CtlReplyKind, ServiceStatus, StatusAction, StatusReply, StatusReplyKind,
    StatusStream,
};

fn redis() -> ServiceStatus {
    ServiceStatus {
        ident: "core/redis/3.2.4/20170514150022".to_string(),
        composite: None,
        state: "up".to_string(),
        elapsed: 42,
        pid: Some(1234),
        service_group: "redis.default".to_string(),
    }
}

#[test]
fn replies_are_told_apart_by_their_id() {
    assert_eq!(config_reply_kind("ServiceCfg"), ConfigReplyKind::ServiceCfg);
    assert_eq!(config_reply_kind("NetErr"), ConfigReplyKind::NetErr);
    assert_eq!(config_reply_kind("NetOk"), ConfigReplyKind::Other);
    assert_eq!(ctl_reply_kind("ConsoleLine"), CtlReplyKind::ConsoleLine);
    assert_eq!(ctl_reply_kind("NetProgress"), CtlReplyKind::NetProgress);
    assert_eq!(ctl_reply_kind("NetErr"), CtlReplyKind::NetErr);
    assert_eq!(ctl_reply_kind("NetOk"), CtlReplyKind::Other);
    assert_eq!(status_reply_kind("ServiceStatus"), StatusReplyKind::ServiceStatus);
    assert_eq!(status_reply_kind("NetOk"), StatusReplyKind::NetOk);
    assert_eq!(status_reply_kind("NetErr"), StatusReplyKind::NetErr);
    assert_eq!(status_reply_kind("neterr"), StatusReplyKind::Other);
}

#[test]
fn a_default_configuration_is_printed() {
    assert_eq!(config_reply_text(ConfigReplyKind::ServiceCfg, "port = 1"), "port = 1\n");
    assert_eq!(config_reply_text(ConfigReplyKind::NetErr, "[Err: 4] no"), "[Err: 4] no\n");
    assert_eq!(config_reply_text(ConfigReplyKind::Other, "x"), "");
}

#[test]
fn control_replies_are_handled() {
    assert!(matches!(
        handle_ctl_reply::<String>(CtlReply::ConsoleLine("a\n".to_string())),
        CtlAction::Print(s) if s == "a\n"
    ));
    assert!(matches!(
        handle_ctl_reply::<String>(CtlReply::NetProgress { total: 10, position: 3 }),
        CtlAction::ShowProgress { total: 10, position: 3 }
    ));
    assert!(matches!(
        handle_ctl_reply(CtlReply::NetErr("bad".to_string())),
        CtlAction::Fail(e) if e == "bad"
    ));
    assert!(matches!(handle_ctl_reply::<String>(CtlReply::Other), CtlAction::Ignore));
}

#[test]
fn a_progress_bar_finishes_at_its_length() {
    assert!(!progress_finished(9, 10));
    assert!(progress_finished(10, 10));
    assert!(progress_finished(11, 10));
    assert!(progress_finished(0, 0));
}

#[test]
fn the_header_names_six_columns() {
    assert_eq!(status_header(), vec!["package", "type", "state", "uptime (s)", "pid", "group"]);
}

#[test]
fn a_status_is_one_line() {
    assert_eq!(
        status_text(&redis(), false),
        "core/redis/3.2.4/20170514150022\tstandalone\tup\t42\t1234\tredis.default\n"
    );
    assert_eq!(
        status_text(&redis(), true),
        "package\ttype\tstate\tuptime (s)\tpid\tgroup\n\
         core/redis/3.2.4/20170514150022\tstandalone\tup\t42\t1234\tredis.default\n"
    );
}

#[test]
fn a_status_without_process_or_with_composite_says_so() {
    let status = ServiceStatus {
        ident: "a/b".to_string(),
        composite: Some("builder".to_string()),
        state: "down".to_string(),
        elapsed: -7,
        pid: None,
        service_group: "b.default".to_string(),
    };
    assert_eq!(status_text(&status, false), "a/b\tbuilder\tdown\t-7\t<none>\tb.default\n");
}

#[test]
fn the_table_is_aligned() {
    match print_svc_status::<String>(StatusReply::ServiceStatus(redis()), true) {
        StatusAction::Print(out) => assert_eq!(
            out,
            "package                          type        state  uptime (s)  pid   group\n\
             core/redis/3.2.4/20170514150022  standalone  up     42          1234  redis.default\n"
        ),
        _ => panic!(),
    }
}

#[test]
fn other_status_replies_are_handled() {
    assert!(matches!(
        print_svc_status::<String>(StatusReply::NetOk, true),
        StatusAction::Print(s) if s == "No services loaded.\n"
    ));
    assert!(matches!(
        print_svc_status(StatusReply::NetErr("bad".to_string()), true),
        StatusAction::Fail(e) if e == "bad"
    ));
    assert!(matches!(
        print_svc_status::<String>(StatusReply::Other, false),
        StatusAction::WarnUnexpected
    ));
}

#[test]
fn the_header_stands_above_the_first_reply_alone() {
    let mut stream = StatusStream::new();
    match stream.next::<String>(Some(StatusReply::ServiceStatus(redis()))) {
        StatusAction::Print(out) => assert!(out.starts_with("package ")),
        _ => panic!(),
    }
    match stream.next::<String>(Some(StatusReply::ServiceStatus(redis()))) {
        StatusAction::Print(out) => assert!(out.starts_with("core/redis")),
        _ => panic!(),
    }
    assert!(matches!(stream.next::<String>(None), StatusAction::Finish));
}

#[test]
fn an_error_ends_the_table() {
    let mut stream = StatusStream::new();
    match stream.next::<String>(Some(StatusReply::ServiceStatus(redis()))) {
        StatusAction::Print(out) => assert!(out.starts_with("package ")),
        _ => panic!(),
    }
    assert!(matches!(
        stream.next(Some(StatusReply::NetErr("gone".to_string()))),
        StatusAction::Fail(e) if e == "gone"
    ));
}

#[test]
fn a_stream_without_replies_is_an_error() {
    let mut stream = StatusStream::new();
    assert!(matches!(stream.next::<String>(None), StatusAction::FailUnexpectedEof));
}
