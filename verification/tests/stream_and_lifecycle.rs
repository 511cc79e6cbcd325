use x_monitor::lifecycle::{
    delete_outcome_tolerant, edit_commit_followup, is_rule_not_found_error, monitor_from_pending,
    restore_finish, rule_ids_with_tag, rule_ids_with_tag_prefix, terminate_summary, StreamRule,
    TerminateData,
};
use x_monitor::models::{AnalysisSettings, Monitor, MonitorKind, PendingMonitor};
use x_monitor::msg::Msg;
use x_monitor::stream::{
    classify_stream_failure, format_errors, handle_envelope, ApiErrorInfo, EnvelopePost,
    EnvelopeUser, RetryState, StreamEnvelope, StreamErrorKind,
};

fn analysis_off() -> AnalysisSettings {
    AnalysisSettings {
        enabled: false,
        provider: "grok".to_owned(),
        model: String::new(),
        endpoint: String::new(),
        api_key: String::new(),
        prompt: "p".to_owned(),
    }
}

fn pending(label: &str) -> PendingMonitor {
    PendingMonitor {
        id: "id1".to_owned(),
        label: label.to_owned(),
        kind: MonitorKind::Phrase,
        enabled: true,
        input_value: "rust".to_owned(),
        query: "rust".to_owned(),
        rule_tag: "xmon:id1".to_owned(),
        analysis: analysis_off(),
    }
}

fn monitor(id: &str, label: &str, rule_id: &str, enabled: bool) -> Monitor {
    Monitor {
        id: id.to_owned(),
        label: label.to_owned(),
        kind: MonitorKind::Phrase,
        enabled,
        input_value: "rust".to_owned(),
        query: "rust".to_owned(),
        rule_id: rule_id.to_owned(),
        rule_tag: format!("xmon:{id}"),
        analysis: analysis_off(),
        created_at_ms: 7,
    }
}

// The wait before attempt k is min(2^k, 60) seconds, and a success resets
// the next wait to 2.
#[test]
fn backoff_doubles_and_caps() {
    let mut st = RetryState::new();
    let boom = StreamErrorKind::Other("connection reset".to_owned());
    let mut waits: Vec<u64> = Vec::new();
    for _ in 0..7 {
        let d = st.on_failure(&boom);
        waits.push(d.wait_seconds);
        assert_eq!(d.error.as_deref(), Some("stream disconnected: connection reset"));
    }
    assert_eq!(waits, vec![2, 4, 8, 16, 32, 60, 60]);
    st.on_connected();
    let d = st.on_failure(&boom);
    assert_eq!(d.wait_seconds, 2);
    assert_eq!(d.info.as_deref(), Some("retrying stream connection in 2s"));
}

// Each classified condition announces itself at most once per streak; a
// different condition or a success resets all three flags.
#[test]
fn classified_conditions_announce_once_per_streak() {
    let mut st = RetryState::new();
    let d1 = st.on_failure(&StreamErrorKind::MissingRules);
    assert_eq!(
        d1.info.as_deref(),
        Some("No stream rules are configured yet. Press 'a' to add a monitor.")
    );
    assert_eq!(d1.wait_seconds, 5);
    assert!(d1.error.is_none());
    let d2 = st.on_failure(&StreamErrorKind::MissingRules);
    assert!(d2.info.is_none());
    let d3 = st.on_failure(&StreamErrorKind::Provisioning);
    assert!(d3.info.is_some());
    assert_eq!(d3.wait_seconds, 60);
    let d4 = st.on_failure(&StreamErrorKind::MissingRules);
    assert!(d4.info.is_some());
    let mut st2 = RetryState::new();
    let d5 = st2.on_failure(&StreamErrorKind::TooManyConnections);
    assert_eq!(d5.wait_seconds, 60);
    assert!(d5.info.is_some());
    let boom = StreamErrorKind::Other("x".to_owned());
    let d6 = st2.on_failure(&boom);
    assert_eq!(d6.wait_seconds, 60, "connection-limit condition pins the backoff to 60");
    let d7 = st2.on_failure(&StreamErrorKind::TooManyConnections);
    assert!(d7.info.is_some(), "a generic failure lets the condition announce again");
}

#[test]
fn classify_by_status_and_body() {
    assert!(matches!(classify_stream_failure(401, "x"), StreamErrorKind::Unauthorized));
    assert!(matches!(
        classify_stream_failure(409, "RuleConfigurationIssue: none"),
        StreamErrorKind::MissingRules
    ));
    assert!(matches!(
        classify_stream_failure(503, "A Subscription Change Is Currently Being Provisioned."),
        StreamErrorKind::Provisioning
    ));
    assert!(matches!(
        classify_stream_failure(429, "TooManyConnections"),
        StreamErrorKind::TooManyConnections
    ));
    match classify_stream_failure(500, "oops") {
        StreamErrorKind::Other(m) => assert_eq!(m, "stream request failed (500): oops"),
        _ => panic!("expected the generic classification"),
    }
}

// Deleting a rule whose remote status is "not found" is success, not error.
#[test]
fn not_found_delete_counts_as_success() {
    assert!(is_rule_not_found_error("thing Not Found"));
    assert!(is_rule_not_found_error("status 404"));
    assert!(!is_rule_not_found_error("forbidden"));
    assert!(delete_outcome_tolerant(&Ok(()), "ctx").is_ok());
    assert!(delete_outcome_tolerant(&Err("404 Not Found".to_owned()), "ctx").is_ok());
    assert_eq!(
        delete_outcome_tolerant(&Err("boom".to_owned()), "ctx").unwrap_err(),
        "ctx"
    );
}

#[test]
fn created_monitor_carries_pending_identity() {
    let m = monitor_from_pending(pending("L"), "rule9".to_owned(), 1234);
    assert_eq!(m.id, "id1");
    assert_eq!(m.rule_id, "rule9");
    assert_eq!(m.rule_tag, "xmon:id1");
    assert!(m.enabled);
    assert_eq!(m.created_at_ms, 1234);
}

// Editing a monitor whose commit fails causes exactly one restore attempt
// from the pre-edit monitor; both outcomes stay visible.
#[test]
fn edit_commit_failure_restores_original() {
    let original = monitor("m7", "Orig", "r-old", true);
    let restore = restore_finish(&original, Ok("r-new".to_owned()));
    let msgs = edit_commit_followup(&"commit broke".to_owned(), restore);
    assert_eq!(msgs.len(), 2);
    match &msgs[0] {
        Msg::MonitorReconnected(Ok((id, label, rule))) => {
            assert_eq!(id, "m7");
            assert_eq!(label, "Orig");
            assert_eq!(rule, "r-new");
        },
        _ => panic!("expected the restored activation first"),
    }
    match &msgs[1] {
        Msg::MonitorEdited(Err(m)) => {
            assert_eq!(m, "commit broke; original target was restored")
        },
        _ => panic!("expected the commit error"),
    }
    let failed = restore_finish(&original, Err("down".to_owned()));
    let msgs2 = edit_commit_followup(&"commit broke".to_owned(), failed);
    assert_eq!(msgs2.len(), 1);
    match &msgs2[0] {
        Msg::MonitorEdited(Err(m)) => assert_eq!(
            m,
            "commit broke; restore failed: x rule creation failed while reconnecting after edit"
        ),
        _ => panic!("expected one message carrying both errors"),
    }
}

#[test]
fn rule_filters_select_by_tag() {
    let rules = vec![
        StreamRule { id: "1".to_owned(), tag: Some("xmon:a".to_owned()) },
        StreamRule { id: "2".to_owned(), tag: None },
        StreamRule { id: "3".to_owned(), tag: Some("xmon:b".to_owned()) },
        StreamRule { id: "4".to_owned(), tag: Some("other".to_owned()) },
    ];
    assert_eq!(rule_ids_with_tag(&rules, "xmon:b"), vec!["3".to_owned()]);
    assert_eq!(
        rule_ids_with_tag_prefix(&rules, "xmon:"),
        vec!["1".to_owned(), "3".to_owned()]
    );
}

#[test]
fn terminate_summaries() {
    let counted = TerminateData {
        killed_connections: None,
        successful_kills: Some(2),
        failed_kills: None,
    };
    assert_eq!(
        terminate_summary(&Some(counted), &None).unwrap(),
        "terminate-all complete (successful: 2, failed: 0)"
    );
    let none_active = TerminateData {
        killed_connections: Some(false),
        successful_kills: None,
        failed_kills: None,
    };
    assert_eq!(
        terminate_summary(&Some(none_active), &None).unwrap(),
        "terminate-all complete (no active stream connections)"
    );
    let errs = vec![ApiErrorInfo {
        title: Some("T".to_owned()),
        detail: Some("D".to_owned()),
        value: Some("v".to_owned()),
    }];
    assert_eq!(
        terminate_summary(&None, &Some(errs.clone())).unwrap_err(),
        "terminate-all returned errors: T | D | value=v"
    );
    let plain = TerminateData { killed_connections: None, successful_kills: None, failed_kills: None };
    assert_eq!(
        terminate_summary(&Some(plain), &Some(errs)).unwrap(),
        "terminated all active stream connections; warnings: T | D | value=v"
    );
    assert_eq!(
        terminate_summary(&None, &Some(Vec::new())).unwrap(),
        "terminated all active stream connections"
    );
}

#[test]
fn empty_error_object_renders_unknown() {
    let errs = vec![ApiErrorInfo { title: None, detail: None, value: None }];
    assert_eq!(format_errors(&errs), "unknown error");
}

#[test]
fn envelope_with_errors_surfaces_them() {
    let env = StreamEnvelope {
        post: Some(EnvelopePost { id: "1".to_owned(), text: "t".to_owned(), author_id: None }),
        users: Vec::new(),
        tags: Vec::new(),
        errors: Some(vec![ApiErrorInfo {
            title: Some("Oops".to_owned()),
            detail: None,
            value: None,
        }]),
    };
    match handle_envelope(env) {
        Some(Msg::Error(m)) => assert_eq!(m, "stream response errors: Oops"),
        _ => panic!("expected the error message, even with a post present"),
    }
}

#[test]
fn envelope_post_resolves_author_and_tags() {
    let env = StreamEnvelope {
        post: Some(EnvelopePost {
            id: "9".to_owned(),
            text: "hi".to_owned(),
            author_id: Some("u1".to_owned()),
        }),
        users: vec![
            EnvelopeUser { id: "u1".to_owned(), username: "first".to_owned() },
            EnvelopeUser { id: "u1".to_owned(), username: "second".to_owned() },
        ],
        tags: vec![Some("xmon:a".to_owned()), None, Some("xmon:b".to_owned())],
        errors: None,
    };
    match handle_envelope(env) {
        Some(Msg::StreamPost(p)) => {
            assert_eq!(p.id, "9");
            assert_eq!(p.author_username.as_deref(), Some("second"));
            assert_eq!(p.matching_tags, vec!["xmon:a".to_owned(), "xmon:b".to_owned()]);
        },
        _ => panic!("expected a stream post"),
    }
}

#[test]
fn keepalive_envelope_is_ignored() {
    let env = StreamEnvelope { post: None, users: Vec::new(), tags: Vec::new(), errors: None };
    assert!(handle_envelope(env).is_none());
}
