use x_monitor::models::{build_query, parse_account_handles, FeedItem, FeedKind, MonitorKind, StreamPost};
use x_monitor::text::u64_to_string;
use x_monitor::uitext::{api_key_input_display, find_unquoted_colon, is_env_var_name, mask_secret, split_yaml_comment, with_blink_cursor};

fn post(username: Option<&str>, author_id: Option<&str>) -> StreamPost {
    StreamPost {
        id: "123".to_owned(),
        author_id: author_id.map(|s| s.to_owned()),
        author_username: username.map(|s| s.to_owned()),
        text: "hello".to_owned(),
        matching_tags: Vec::new(),
    }
}

#[test]
fn build_query_single_account() {
    let q = build_query(&MonitorKind::Account, "@rustlang").unwrap();
    assert_eq!(q, "from:rustlang");
}

#[test]
fn build_query_many_accounts() {
    let q = build_query(&MonitorKind::Account, "a, @b, c").unwrap();
    assert_eq!(q, "(from:a OR from:b OR from:c)");
}

#[test]
fn build_query_dedups_case_insensitively() {
    let q = build_query(&MonitorKind::Account, "Alice, alice, ALICE, bob").unwrap();
    assert_eq!(q, "(from:Alice OR from:bob)");
}

#[test]
fn build_query_rejects_empty_target() {
    let e = build_query(&MonitorKind::Phrase, "   ").unwrap_err();
    assert_eq!(e, "target cannot be empty");
}

#[test]
fn build_query_phrase_with_space_is_quoted() {
    let q = build_query(&MonitorKind::Phrase, "rust rewrite").unwrap();
    assert_eq!(q, "\"rust rewrite\"");
}

#[test]
fn build_query_phrase_escapes_inner_quotes() {
    let q = build_query(&MonitorKind::Phrase, "say \"hi\" now").unwrap();
    assert_eq!(q, "\"say \\\"hi\\\" now\"");
}

#[test]
fn build_query_phrase_already_quoted_kept() {
    let q = build_query(&MonitorKind::Phrase, "\"exact phrase\"").unwrap();
    assert_eq!(q, "\"exact phrase\"");
}

#[test]
fn build_query_single_word_phrase_unquoted() {
    let q = build_query(&MonitorKind::Phrase, " verus ").unwrap();
    assert_eq!(q, "verus");
}

#[test]
fn parse_handles_strips_and_orders() {
    let hs = parse_account_handles(" @alpha , beta,, @gamma ").unwrap();
    assert_eq!(hs, vec!["alpha".to_owned(), "beta".to_owned(), "gamma".to_owned()]);
}

#[test]
fn parse_handles_rejects_spaces() {
    let e = parse_account_handles("a b").unwrap_err();
    assert_eq!(e, "account handles cannot contain spaces");
}

#[test]
fn parse_handles_rejects_foreign_characters() {
    let e = parse_account_handles("na-me").unwrap_err();
    assert_eq!(e, "account handles may only use letters, numbers, and underscores");
}

#[test]
fn parse_handles_requires_one_handle() {
    let e = parse_account_handles(" , ,").unwrap_err();
    assert_eq!(e, "account target requires at least one handle");
}

#[test]
fn post_url_uses_username_when_known() {
    assert_eq!(post(Some("alice"), None).post_url(), "https://x.com/alice/status/123");
    assert_eq!(post(None, Some("77")).post_url(), "https://x.com/i/web/status/123");
}

#[test]
fn summary_of_post_without_monitors() {
    let item = FeedItem {
        at: "10:00:00".to_owned(),
        kind: FeedKind::Post {
            author: "alice".to_owned(),
            text: "line one\nline two".to_owned(),
            monitors: Vec::new(),
        },
        url: None,
    };
    assert_eq!(item.summary(), "[10:00:00] POST @alice | monitor: unknown | line one line two");
}

#[test]
fn summary_of_post_with_monitors() {
    let item = FeedItem {
        at: "10:00:01".to_owned(),
        kind: FeedKind::Post {
            author: "bob".to_owned(),
            text: "t".to_owned(),
            monitors: vec!["m1".to_owned(), "m2".to_owned()],
        },
        url: None,
    };
    assert_eq!(item.summary(), "[10:00:01] POST @bob | monitor: m1, m2 | t");
}

#[test]
fn summary_of_analysis_info_error() {
    let a = FeedItem {
        at: "09:00:00".to_owned(),
        kind: FeedKind::Analysis {
            monitor: "m".to_owned(),
            provider: "grok".to_owned(),
            model: "g1".to_owned(),
            output: "ok\nfine".to_owned(),
        },
        url: None,
    };
    assert_eq!(a.summary(), "[09:00:00] AI (grok:g1) [m] ok fine");
    let i = FeedItem { at: "09:00:01".to_owned(), kind: FeedKind::Info("hi".to_owned()), url: None };
    assert_eq!(i.summary(), "[09:00:01] INFO hi");
    let e = FeedItem { at: "09:00:02".to_owned(), kind: FeedKind::Error("bad".to_owned()), url: None };
    assert_eq!(e.summary(), "[09:00:02] ERROR bad");
}

#[test]
fn kind_display_names() {
    assert_eq!(MonitorKind::Account.display(), "Account");
    assert_eq!(MonitorKind::Phrase.display(), "Phrase");
}

#[test]
fn decimal_rendering() {
    assert_eq!(u64_to_string(0), "0");
    assert_eq!(u64_to_string(42), "42");
    assert_eq!(u64_to_string(60), "60");
    assert_eq!(u64_to_string(18446744073709551615), "18446744073709551615");
}

#[test]
fn secrets_are_masked() {
    assert_eq!(mask_secret(""), "");
    assert_eq!(mask_secret("abcd"), "****");
}

#[test]
fn api_key_display_keeps_env_references() {
    assert_eq!(api_key_input_display("  XAI_API_KEY "), "XAI_API_KEY");
    assert_eq!(api_key_input_display("$MY_KEY"), "$MY_KEY");
    assert_eq!(api_key_input_display("sk-secret"), "*********");
    assert_eq!(api_key_input_display("  "), "");
}

#[test]
fn env_var_name_shape() {
    assert!(is_env_var_name("A_B2"));
    assert!(!is_env_var_name(""));
    assert!(!is_env_var_name("lower"));
}

#[test]
fn blink_cursor_appends_only_when_active() {
    assert_eq!(with_blink_cursor("abc", false, true), "abc");
    assert_eq!(with_blink_cursor("abc", true, true), "abc_");
    assert_eq!(with_blink_cursor("abc", true, false), "abc ");
}

#[test]
fn yaml_comment_split_respects_quotes() {
    let (content, comment) = split_yaml_comment("key: 'a # b' # tail");
    assert_eq!(content, "key: 'a # b' ");
    assert_eq!(comment.as_deref(), Some("# tail"));
    let (c2, none) = split_yaml_comment("plain: value");
    assert_eq!(c2, "plain: value");
    assert!(none.is_none());
}

#[test]
fn unquoted_colon_found() {
    assert_eq!(find_unquoted_colon("key: v"), Some(3));
    assert_eq!(find_unquoted_colon("'a:b' c: d"), Some(7));
    assert_eq!(find_unquoted_colon("no colon here"), None);
}

#[test]
fn clock_label_is_eight_characters() {
    let hms = x_monitor::clock::local_clock_hms();
    assert_eq!(hms.chars().count(), 8);
    let b: Vec<char> = hms.chars().collect();
    assert_eq!(b[2], ':');
    assert_eq!(b[5], ':');
}

#[test]
fn wrapping_fills_lines_greedily() {
    let lines = x_monitor::uitext::wrap_for_width("alpha beta gamma", 11);
    assert_eq!(lines, vec!["alpha beta".to_owned(), "gamma".to_owned()]);
}

#[test]
fn wrapping_cuts_overlong_words() {
    let lines = x_monitor::uitext::wrap_for_width("abcdefgh xy", 3);
    assert_eq!(
        lines,
        vec!["abc".to_owned(), "def".to_owned(), "gh".to_owned(), "xy".to_owned()]
    );
}

#[test]
fn wrapping_keeps_empty_lines_and_zero_width() {
    assert_eq!(
        x_monitor::uitext::wrap_for_width("a\n\nb", 10),
        vec!["a".to_owned(), String::new(), "b".to_owned()]
    );
    assert_eq!(x_monitor::uitext::wrap_for_width("", 10), vec![String::new()]);
    assert_eq!(
        x_monitor::uitext::wrap_for_width("anything at all", 0),
        vec!["anything at all".to_owned()]
    );
}

#[test]
fn split_word_appends_chunks() {
    let mut lines = vec!["head".to_owned()];
    x_monitor::uitext::push_split_word("abcdefg", 3, &mut lines);
    assert_eq!(
        lines,
        vec!["head".to_owned(), "abc".to_owned(), "def".to_owned(), "g".to_owned()]
    );
}

#[test]
fn target_entries_sort_case_insensitively() {
    let entry = |name: &str| x_monitor::target_files::TargetFileEntry {
        file_name: name.to_owned(),
        path: name.to_owned(),
        raw: String::new(),
        parsed: Err("unread".to_owned()),
    };
    let sorted = x_monitor::target_files::sort_target_entries(vec![
        entry("b.yaml"),
        entry("A.yaml"),
        entry("c.yaml"),
        entry("B2.yaml"),
    ]);
    let names: Vec<String> = sorted.into_iter().map(|e| e.file_name).collect();
    assert_eq!(
        names,
        vec!["A.yaml".to_owned(), "b.yaml".to_owned(), "B2.yaml".to_owned(), "c.yaml".to_owned()]
    );
}
