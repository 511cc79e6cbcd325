use x_monitor::ai::{chat_endpoint, interpret_chat_response, prepare_prompts, ChatApiErrorInfo, ChatResponseData};
use x_monitor::app::{AddMonitorForm, App, MonitorFormMode};
use x_monitor::bus::{apply_message, plan_analysis};
use x_monitor::config::{default_ai_providers, AiProvider, AppConfig};
use x_monitor::keys::{handle_key, Intent, KeyInput};
use x_monitor::lifecycle::monitor_from_pending;
use x_monitor::models::{AnalysisSettings, FeedItem, FeedKind, Monitor, MonitorKind, StreamPost};
use x_monitor::msg::Msg;
use x_monitor::target_files::{finish_target_file, parse_kind, clean_opt, RawAiConfig, RawTargetFile};

fn ts() -> String {
    "12:00:00".to_owned()
}

fn config() -> AppConfig {
    AppConfig {
        x_bearer_token: Some("token".to_owned()),
        state_path: "state.json".to_owned(),
        monitor_config_dir: "monitor-configs".to_owned(),
        default_ai_provider: "grok".to_owned(),
        ai_providers: default_ai_providers(),
    }
}

fn monitor(id: &str, label: &str, tag: &str, enabled: bool, analysis_on: bool) -> Monitor {
    Monitor {
        id: id.to_owned(),
        label: label.to_owned(),
        kind: MonitorKind::Phrase,
        enabled,
        input_value: "rust".to_owned(),
        query: "rust".to_owned(),
        rule_id: "r1".to_owned(),
        rule_tag: tag.to_owned(),
        analysis: AnalysisSettings {
            enabled: analysis_on,
            provider: "grok".to_owned(),
            model: "model-x".to_owned(),
            endpoint: String::new(),
            api_key: String::new(),
            prompt: "p".to_owned(),
        },
        created_at_ms: 0,
    }
}

fn info_item(n: u64) -> FeedItem {
    FeedItem {
        at: ts(),
        kind: FeedKind::Info(format!("n{n}")),
        url: None,
    }
}

// The feed never exceeds 500 items; item 501 evicts the oldest; order is
// kept, newest first.
#[test]
fn feed_caps_at_five_hundred() {
    let mut app = App::new(config(), Vec::new());
    for n in 0..501u64 {
        app.push_feed(info_item(n));
    }
    assert_eq!(app.feed.len(), 500);
    match &app.feed[0].kind {
        FeedKind::Info(m) => assert_eq!(m, "n500"),
        _ => panic!("newest entry first"),
    }
    match &app.feed[499].kind {
        FeedKind::Info(m) => assert_eq!(m, "n1", "the oldest entry was evicted"),
        _ => panic!("oldest surviving entry last"),
    }
}

// A post matching no known enabled monitor still produces a post entry with
// an empty label set and plans no analysis.
#[test]
fn unmatched_post_is_logged_without_analysis() {
    let mut app = App::new(config(), vec![monitor("a", "A", "xmon:a", false, true)]);
    let post = StreamPost {
        id: "1".to_owned(),
        author_id: None,
        author_username: Some("u".to_owned()),
        text: "t".to_owned(),
        matching_tags: vec!["xmon:a".to_owned(), "xmon:zzz".to_owned()],
    };
    let fx = apply_message(&mut app, Msg::StreamPost(post), &ts());
    assert!(!fx.save);
    assert_eq!(fx.analyses.len(), 0);
    match &app.feed[0].kind {
        FeedKind::Post { monitors, .. } => assert!(monitors.is_empty()),
        _ => panic!("expected a post entry"),
    }
}

// A post matching two enabled monitors with analysis enabled plans two
// independent analyses.
#[test]
fn two_matches_plan_two_analyses() {
    let mut app = App::new(
        config(),
        vec![
            monitor("a", "A", "xmon:a", true, true),
            monitor("b", "B", "xmon:b", true, true),
        ],
    );
    let post = StreamPost {
        id: "1".to_owned(),
        author_id: None,
        author_username: None,
        text: "t".to_owned(),
        matching_tags: vec!["xmon:a".to_owned(), "xmon:b".to_owned()],
    };
    let fx = apply_message(&mut app, Msg::StreamPost(post), &ts());
    assert_eq!(fx.analyses.len(), 2);
    assert_eq!(fx.analyses[0].label, "A");
    assert_eq!(fx.analyses[1].label, "B");
    match &app.feed[0].kind {
        FeedKind::Post { monitors, .. } => {
            assert_eq!(monitors, &vec!["A".to_owned(), "B".to_owned()])
        },
        _ => panic!("expected a post entry"),
    }
    let env_key = Some("k1".to_owned());
    let job_a = plan_analysis(&app.config, &fx.analyses[0], env_key.clone(), None).unwrap();
    let job_b = plan_analysis(&app.config, &fx.analyses[1], env_key, None).unwrap();
    assert_eq!(job_a.monitor_label, "A");
    assert_eq!(job_b.monitor_label, "B");
    assert_eq!(job_a.model, "model-x");
}

// Deactivating a monitor ends with rule_id cleared and enabled false; a
// not-found delete produced success, so no error entry appears.
#[test]
fn deactivate_after_not_found_delete() {
    let m = monitor("m1", "L", "xmon:m1", true, false);
    let delete_result = Some(Err("404 rule not found".to_owned()));
    let out = x_monitor::lifecycle::deactivate_finish(&m, &delete_result);
    let ok = out.unwrap();
    assert_eq!(ok.0, "m1");
    let mut app = App::new(config(), vec![m]);
    let fx = apply_message(&mut app, Msg::MonitorDeactivated(Ok(ok)), &ts());
    assert!(fx.save);
    assert_eq!(app.monitors[0].rule_id, "");
    assert!(!app.monitors[0].enabled);
    for item in app.feed.iter() {
        assert!(!matches!(item.kind, FeedKind::Error(_)), "no error was emitted");
    }
}

// Creating a phrase monitor quotes the target, generates a fresh tag, and
// ends enabled with a non-empty rule id.
#[test]
fn create_phrase_monitor_end_to_end() {
    let cfg = config();
    let names = cfg.provider_names();
    let mut form = AddMonitorForm::new(&cfg, &names, "grok");
    form.kind = MonitorKind::Phrase;
    form.target = "rust rewrite".to_owned();
    let pending = form.to_pending_monitor(&names).unwrap();
    assert_eq!(pending.query, "\"rust rewrite\"");
    assert_eq!(pending.id.len(), 32);
    assert_eq!(pending.rule_tag, format!("xmon:{}", pending.id));
    assert_eq!(pending.label, "rust rewrite");
    assert!(pending.enabled);
    let m = monitor_from_pending(pending, "rule-77".to_owned(), 5);
    assert!(m.enabled);
    assert!(!m.rule_id.is_empty());
}

#[test]
fn form_validation_errors() {
    let cfg = config();
    let names = cfg.provider_names();
    let mut form = AddMonitorForm::new(&cfg, &names, "grok");
    form.kind = MonitorKind::Phrase;
    form.target = "x".to_owned();
    form.ai_enabled = true;
    form.ai_model = " ".to_owned();
    let e = form.to_pending_monitor(&names).unwrap_err();
    assert_eq!(e, "AI model ID cannot be empty when analysis is enabled");
    form.ai_model = "m".to_owned();
    form.ai_provider_index = 4;
    form.ai_endpoint = String::new();
    let e2 = form.to_pending_monitor(&names).unwrap_err();
    assert_eq!(e2, "custom AI provider requires an endpoint");
    form.ai_endpoint = "http://e".to_owned();
    form.ai_api_key = String::new();
    let e3 = form.to_pending_monitor(&names).unwrap_err();
    assert_eq!(e3, "custom AI provider requires an API key");
}

#[test]
fn form_cycles_kind_provider_and_fields() {
    let cfg = config();
    let names = cfg.provider_names();
    let mut form = AddMonitorForm::new(&cfg, &names, "grok");
    assert_eq!(form.mode, MonitorFormMode::Add);
    assert_eq!(form.ai_model, "grok-4-1-fast-non-reasoning");
    assert_eq!(form.ai_api_key, "XAI_API_KEY");
    form.cycle_kind(1);
    assert_eq!(form.kind, MonitorKind::Phrase);
    form.cycle_provider(&names, -1);
    assert_eq!(form.ai_provider_index, 4);
    form.apply_provider_defaults(&cfg, &names);
    assert_eq!(form.ai_api_key, "", "the custom provider starts blank");
    form.move_field(-1);
    assert_eq!(form.field_index, 9);
    form.move_field(1);
    assert_eq!(form.field_index, 0);
}

#[test]
fn selected_provider_falls_back() {
    let cfg = config();
    let names = cfg.provider_names();
    let mut form = AddMonitorForm::new(&cfg, &names, "nope-nope");
    assert_eq!(form.ai_provider_index, 0);
    form.ai_provider_index = 99;
    assert_eq!(form.selected_provider(&names), "grok");
    let empty: Vec<String> = Vec::new();
    assert_eq!(form.selected_provider(&empty), "grok");
}

#[test]
fn quit_and_clear_keys() {
    let mut app = App::new(config(), Vec::new());
    app.push_info("hello".to_owned(), ts());
    let intent = handle_key(&mut app, KeyInput::Char('c'), true, &ts());
    assert!(matches!(intent, Intent::Nothing));
    assert_eq!(app.feed.len(), 0);
    assert_eq!(app.status, "Feed cleared");
    handle_key(&mut app, KeyInput::Char('q'), true, &ts());
    assert!(app.should_quit);
}

#[test]
fn typing_into_the_form() {
    let mut app = App::new(config(), Vec::new());
    handle_key(&mut app, KeyInput::Char('a'), true, &ts());
    assert!(app.add_form.is_some());
    // move to the target field, then type
    handle_key(&mut app, KeyInput::Down, true, &ts());
    handle_key(&mut app, KeyInput::Char('h'), true, &ts());
    handle_key(&mut app, KeyInput::Char('i'), true, &ts());
    handle_key(&mut app, KeyInput::Backspace, true, &ts());
    let form = app.add_form.as_ref().unwrap();
    assert_eq!(form.field_index, 1);
    assert_eq!(form.target, "h");
}

#[test]
fn edit_key_requires_client_and_selection() {
    let mut app = App::new(config(), Vec::new());
    let intent = handle_key(&mut app, KeyInput::Char('e'), false, &ts());
    assert!(matches!(intent, Intent::Nothing));
    assert_eq!(app.status, "cannot edit target without X bearer token");
    let m = monitor("m1", "L", "xmon:m1", true, false);
    let mut app2 = App::new(config(), vec![m]);
    let intent2 = handle_key(&mut app2, KeyInput::Char('e'), true, &ts());
    match intent2 {
        Intent::PrepareEdit(mon) => assert_eq!(mon.id, "m1"),
        _ => panic!("expected the edit preparation intent"),
    }
    assert!(!app2.monitor_is_active("m1"));
}

#[test]
fn provider_lookup_and_resolution() {
    let cfg = config();
    let p = cfg.provider_by_name("GROK").unwrap();
    assert_eq!(p.name, "grok");
    assert!(cfg.provider_by_name("nope").is_none());
    let resolved = cfg.resolve_provider("grok", Some("secret".to_owned())).unwrap();
    assert_eq!(resolved.api_key, "secret");
    assert!(cfg.resolve_provider("grok", None).is_none());
    let own_key = AiProvider {
        name: "mine".to_owned(),
        base_url: "b".to_owned(),
        model: "m".to_owned(),
        api_key: Some("inline".to_owned()),
        api_key_env: None,
    };
    assert_eq!(own_key.resolved_api_key(None).as_deref(), Some("inline"));
}

#[test]
fn provider_merge_keeps_builtin_order() {
    let mut providers = vec![
        AiProvider {
            name: "extra".to_owned(),
            base_url: "e".to_owned(),
            model: "m".to_owned(),
            api_key: None,
            api_key_env: None,
        },
        AiProvider {
            name: "GROK".to_owned(),
            base_url: "mine".to_owned(),
            model: "my-model".to_owned(),
            api_key: None,
            api_key_env: None,
        },
    ];
    x_monitor::config::merge_default_providers(&mut providers);
    assert_eq!(providers.len(), 6);
    assert_eq!(providers[0].name, "GROK");
    assert_eq!(providers[0].base_url, "mine");
    assert_eq!(providers[1].name, "openrouter");
    assert_eq!(providers[5].name, "extra");
}

#[test]
fn default_provider_falls_back_to_first() {
    let mut cfg = config();
    cfg.default_ai_provider = "gone".to_owned();
    cfg.ensure_default_provider();
    assert_eq!(cfg.default_ai_provider, "grok");
}

#[test]
fn prompts_and_endpoint() {
    let (system, mp, user) = prepare_prompts("  ", "  post body ");
    assert_eq!(mp, "Summarize why this post matters and what to watch next.");
    assert!(system.starts_with("You are an analyst"));
    assert_eq!(
        user,
        "Summarize why this post matters and what to watch next.\n\nTwitter post:\npost body"
    );
    assert_eq!(chat_endpoint("https://api.x.ai/v1/").unwrap(), "https://api.x.ai/v1/chat/completions");
    assert_eq!(chat_endpoint("  ").unwrap_err(), "AI endpoint is empty");
}

#[test]
fn chat_response_interpretation() {
    let ok = ChatResponseData { first_content: Some("  summary  ".to_owned()), error: None };
    assert_eq!(interpret_chat_response(ok).unwrap(), "summary");
    let empty = ChatResponseData { first_content: Some("  ".to_owned()), error: None };
    assert_eq!(
        interpret_chat_response(empty).unwrap_err(),
        "ai response did not contain a message"
    );
    let err = ChatResponseData {
        first_content: None,
        error: Some(ChatApiErrorInfo {
            kind: Some("rate_limit".to_owned()),
            message: Some("slow down".to_owned()),
        }),
    };
    assert_eq!(interpret_chat_response(err).unwrap_err(), "ai api error: rate_limit: slow down");
}

#[test]
fn target_file_rules() {
    assert_eq!(parse_kind(" Accounts ").unwrap(), MonitorKind::Account);
    assert_eq!(parse_kind("KEYWORD").unwrap(), MonitorKind::Phrase);
    assert_eq!(parse_kind("thing").unwrap_err(), "kind must be 'account' or 'phrase'");
    assert_eq!(clean_opt(Some("  x ".to_owned())).as_deref(), Some("x"));
    assert_eq!(clean_opt(Some("   ".to_owned())), None);
    let raw = RawTargetFile {
        label: None,
        display_name: Some("Disp".to_owned()),
        kind: "account".to_owned(),
        target: " @a ".to_owned(),
        ai: Some(RawAiConfig {
            enabled: None,
            provider: Some("grok".to_owned()),
            model: None,
            endpoint: None,
            api_key: None,
            prompt: None,
        }),
        ai_enabled: None,
        ai_provider: None,
        ai_model: Some("m2".to_owned()),
        ai_endpoint: None,
        ai_api_key: None,
        ai_prompt: None,
    };
    let t = finish_target_file(raw).unwrap();
    assert_eq!(t.target, "@a");
    assert_eq!(t.label.as_deref(), Some("Disp"));
    assert!(t.ai_enabled, "present analysis fields enable analysis by default");
    assert_eq!(t.ai_provider.as_deref(), Some("grok"));
    assert_eq!(t.ai_model.as_deref(), Some("m2"));
}

#[test]
fn analysis_failure_is_isolated_to_its_monitor() {
    let mut app = App::new(config(), Vec::new());
    let fx = apply_message(
        &mut app,
        Msg::AnalysisCompleted {
            monitor_label: "A".to_owned(),
            provider: "grok".to_owned(),
            model: "g".to_owned(),
            output: Ok("fine".to_owned()),
            url: None,
        },
        &ts(),
    );
    assert!(!fx.save);
    let fx2 = apply_message(
        &mut app,
        Msg::AnalysisCompleted {
            monitor_label: "B".to_owned(),
            provider: "grok".to_owned(),
            model: "g".to_owned(),
            output: Err("bad".to_owned()),
            url: None,
        },
        &ts(),
    );
    assert!(!fx2.save);
    match &app.feed[0].kind {
        FeedKind::Error(m) => assert_eq!(m, "analysis failed for 'B' via grok:g: bad"),
        _ => panic!("expected the per-monitor error"),
    }
    match &app.feed[1].kind {
        FeedKind::Analysis { monitor, output, .. } => {
            assert_eq!(monitor, "A");
            assert_eq!(output, "fine");
        },
        _ => panic!("the earlier analysis entry is untouched"),
    }
}

#[test]
fn restore_success_reactivates_original() {
    let m = monitor("m1", "L", "xmon:m1", true, false);
    let mut app = App::new(config(), vec![m]);
    app.deactivate_monitor(&"m1".to_owned());
    assert!(!app.monitors[0].enabled);
    let fx = apply_message(
        &mut app,
        Msg::MonitorReconnected(Ok(("m1".to_owned(), "L".to_owned(), "r-new".to_owned()))),
        &ts(),
    );
    assert!(fx.save);
    assert!(app.monitors[0].enabled);
    assert_eq!(app.monitors[0].rule_id, "r-new");
}

#[test]
fn selection_moves_and_clamps() {
    let mut app = App::new(
        config(),
        vec![
            monitor("a", "A", "xmon:a", true, false),
            monitor("b", "B", "xmon:b", true, false),
        ],
    );
    assert_eq!(app.selected_monitor, 0);
    app.move_selection_down();
    assert_eq!(app.selected_monitor, 1);
    app.move_selection_down();
    assert_eq!(app.selected_monitor, 1, "the selection stops at the last monitor");
    app.move_selection_up();
    assert_eq!(app.selected_monitor, 0);
    app.move_selection_up();
    assert_eq!(app.selected_monitor, 0);
    app.toggle_focus();
    app.push_feed(info_item(1));
    app.push_feed(info_item(2));
    app.move_selection_down();
    assert_eq!(app.selected_feed, 1);
}

#[test]
fn stream_connection_recomputes_flags() {
    let mut app = App::new(
        config(),
        vec![
            monitor("a", "A", "xmon:a", true, false),
            monitor("b", "B", "xmon:b", false, false),
        ],
    );
    assert!(!app.monitor_is_active("a"));
    app.set_monitor_initiating(&"a".to_owned(), true);
    assert!(app.has_initiating_monitors());
    let fx = apply_message(&mut app, Msg::StreamConnectionState(true), &ts());
    assert!(!fx.save);
    assert!(app.monitor_is_active("a"), "enabled monitors go active on connect");
    assert!(!app.monitor_is_active("b"), "disabled monitors stay inactive");
    assert!(!app.has_initiating_monitors(), "a connection clears the initiating marks");
    apply_message(&mut app, Msg::StreamConnectionState(false), &ts());
    assert!(!app.monitor_is_active("a"));
}

#[test]
fn pruning_initiating_marks_on_refresh() {
    let mut app = App::new(
        config(),
        vec![
            monitor("a", "A", "xmon:a", true, false),
            monitor("b", "B", "xmon:b", false, false),
        ],
    );
    app.set_monitor_initiating(&"a".to_owned(), true);
    app.set_monitor_initiating(&"b".to_owned(), true);
    app.set_monitor_initiating(&"gone".to_owned(), true);
    app.refresh_monitor_connection_state();
    assert!(app.monitor_is_initiating("a"));
    assert!(!app.monitor_is_initiating("b"), "disabled monitors lose the mark");
    assert!(!app.monitor_is_initiating("gone"), "removed monitors lose the mark");
}

#[test]
fn added_monitor_is_deleted_again() {
    let mut app = App::new(config(), Vec::new());
    let m = monitor("m9", "Nine", "xmon:m9", true, false);
    let fx = apply_message(&mut app, Msg::MonitorAdded(Ok(m)), &ts());
    assert!(fx.save);
    assert_eq!(app.monitors.len(), 1);
    assert_eq!(app.status, "monitor added: Nine");
    let fx2 = apply_message(
        &mut app,
        Msg::MonitorDeleted(Ok(("m9".to_owned(), "Nine".to_owned()))),
        &ts(),
    );
    assert!(fx2.save);
    assert!(app.monitors.is_empty());
    assert_eq!(app.status, "monitor removed: Nine");
}

#[test]
fn edit_prepare_failure_restores_activity() {
    let mut app = App::new(config(), vec![monitor("m1", "L", "xmon:m1", true, false)]);
    apply_message(&mut app, Msg::StreamConnectionState(true), &ts());
    let fx = apply_message(
        &mut app,
        Msg::MonitorEditPrepared { monitor_id: "m1".to_owned(), result: Err("boom".to_owned()) },
        &ts(),
    );
    assert!(!fx.save);
    assert!(app.monitor_is_active("m1"), "the monitor follows the connection state again");
    assert_eq!(app.status, "failed to prepare target edit: boom");
    assert!(app.add_form.is_none());
}
