//! The single-consumer application loop: every message drained from the
//! bus is applied to the store here, and nothing else mutates it.

use vstd::prelude::*;
use crate::app::{
    activity_set, feed_pushed, find_monitor_idx, find_tag_idx, same_feed, same_flags, same_forms,
    same_monitor_list, same_shell, App,
};
use crate::config::{find_provider_idx, resolved_key_spec, AppConfig, ResolvedAiProvider};
use crate::models::{FeedItem, FeedKind, Monitor, StreamPost};
use crate::msg::Msg;
use crate::text::{str_concat, trim_seq, trim_str};

verus! {

/// What the loop must do after applying one message: persist the store,
/// and plan analyses for the matched monitors of a post.
#[derive(Debug)]
pub struct Effects {
    pub save: bool,
    pub analyses: Vec<Monitor>,
}

/// The enabled monitors matched by a post's rule tags, in tag order.
pub open spec fn matched_spec(ms: Seq<Monitor>, tags: Seq<String>) -> Seq<Monitor>
    decreases tags.len(),
{
    if tags.len() == 0 {
        Seq::<Monitor>::empty()
    } else {
        (
        {
            let idx = find_tag_idx(ms, tags[0]@);
            if idx < ms.len() && ms[idx].enabled {
                seq![ms[idx]]
            } else {
                Seq::<Monitor>::empty()
            }
        }) + matched_spec(ms, tags.drop_first())
    }
}

/// The matched monitors that want analysis.
pub open spec fn with_analysis(ms: Seq<Monitor>) -> Seq<Monitor>
    decreases ms.len(),
{
    if ms.len() == 0 {
        Seq::<Monitor>::empty()
    } else {
        (if ms[0].analysis.enabled {
            seq![ms[0]]
        } else {
            Seq::<Monitor>::empty()
        }) + with_analysis(ms.drop_first())
    }
}

/// An `INFO` entry carrying `text` was pushed, and became the status line.
pub open spec fn info_pushed(a: App, b: App, text: Seq<char>, ts: String) -> bool {
    &&& b.feed@.len() > 0
    &&& feed_pushed(a, b, b.feed@[0])
    &&& b.feed@[0].at == ts
    &&& b.feed@[0].kind matches FeedKind::Info(m) && m@ == text
    &&& b.feed@[0].url is None
    &&& b.status@ == text
    &&& b.focus == a.focus
}

/// An `ERROR` entry carrying `text` was pushed, and became the status line.
pub open spec fn error_pushed(a: App, b: App, text: Seq<char>, ts: String) -> bool {
    &&& b.feed@.len() > 0
    &&& feed_pushed(a, b, b.feed@[0])
    &&& b.feed@[0].at == ts
    &&& b.feed@[0].kind matches FeedKind::Error(m) && m@ == text
    &&& b.feed@[0].url is None
    &&& b.status@ == text
    &&& b.focus == a.focus
}

/// The feed did not move.
pub open spec fn feed_untouched(a: App, b: App) -> bool {
    same_feed(a, b) && b.status == a.status && b.focus == a.focus
}

/// The monitor table and the transient flags did not move.
pub open spec fn monitors_untouched(a: App, b: App) -> bool {
    same_monitor_list(a, b) && same_flags(a, b) && same_forms(a, b) && same_shell(a, b)
}

fn collect_matched(app: &App, tags: &Vec<String>) -> (r: Vec<Monitor>)
    ensures
        r@ == matched_spec(app.monitors@, tags@),
{
    let mut r: Vec<Monitor> = Vec::new();
    let mut i: usize = 0;
    proof {
        assert(tags@.skip(0) =~= tags@);
        assert(r@ =~= Seq::<Monitor>::empty());
    }
    while i < tags.len()
        invariant
            i <= tags@.len(),
            matched_spec(app.monitors@, tags@) == r@ + matched_spec(
                app.monitors@,
                tags@.skip(i as int),
            ),
        decreases tags@.len() - i,
    {
        proof {
            assert(tags@.skip(i as int)[0] == tags@[i as int]);
            assert(tags@.skip(i as int).drop_first() =~= tags@.skip(i + 1));
        }
        match app.monitor_by_tag(tags[i].as_str()) {
            Some(m) => {
                if m.enabled {
                    let c = m.clone();
                    r.push(c);
                    proof {
                        assert(r@ =~= r@.drop_last() + (seq![
                            app.monitors@[find_tag_idx(app.monitors@, tags@[i as int]@)],
                        ] + Seq::<Monitor>::empty()));
                        assert(r@.drop_last() + (seq![
                            app.monitors@[find_tag_idx(app.monitors@, tags@[i as int]@)],
                        ] + matched_spec(app.monitors@, tags@.skip(i + 1))) =~= r@ + matched_spec(
                            app.monitors@,
                            tags@.skip(i + 1),
                        ));
                    }
                } else {
                    proof {
                        assert(r@ + (Seq::<Monitor>::empty() + matched_spec(
                            app.monitors@,
                            tags@.skip(i + 1),
                        )) =~= r@ + matched_spec(app.monitors@, tags@.skip(i + 1)));
                    }
                }
            },
            None => {
                proof {
                    assert(r@ + (Seq::<Monitor>::empty() + matched_spec(
                        app.monitors@,
                        tags@.skip(i + 1),
                    )) =~= r@ + matched_spec(app.monitors@, tags@.skip(i + 1)));
                }
            },
        }
        i += 1;
    }
    proof {
        assert(tags@.skip(tags@.len() as int) =~= Seq::<String>::empty());
        assert(matched_spec(app.monitors@, tags@) =~= r@);
    }
    r
}

fn labels_of(ms: &Vec<Monitor>) -> (r: Vec<String>)
    ensures
        r@ == ms@.map_values(|m: Monitor| m.label),
{
    let ghost mapped = ms@.map_values(|m: Monitor| m.label);
    let mut r: Vec<String> = Vec::new();
    let mut i: usize = 0;
    while i < ms.len()
        invariant
            i <= ms@.len(),
            mapped == ms@.map_values(|m: Monitor| m.label),
            mapped.len() == ms@.len(),
            r@ == mapped.take(i as int),
        decreases ms@.len() - i,
    {
        r.push(ms[i].label.clone());
        proof {
            assert(mapped.take(i + 1) =~= mapped.take(i as int).push(mapped[i as int]));
        }
        i += 1;
    }
    proof {
        assert(mapped.take(mapped.len() as int) =~= mapped);
    }
    r
}

fn filter_analysis(ms: Vec<Monitor>) -> (r: Vec<Monitor>)
    ensures
        r@ == with_analysis(ms@),
{
    let mut r: Vec<Monitor> = Vec::new();
    let mut i: usize = 0;
    proof {
        assert(ms@.skip(0) =~= ms@);
        assert(r@ =~= Seq::<Monitor>::empty());
    }
    while i < ms.len()
        invariant
            i <= ms@.len(),
            with_analysis(ms@) == r@ + with_analysis(ms@.skip(i as int)),
        decreases ms@.len() - i,
    {
        proof {
            assert(ms@.skip(i as int)[0] == ms@[i as int]);
            assert(ms@.skip(i as int).drop_first() =~= ms@.skip(i + 1));
        }
        if ms[i].analysis.enabled {
            let c = ms[i].clone();
            r.push(c);
            proof {
                assert(r@.drop_last() + (seq![ms@[i as int]] + with_analysis(ms@.skip(i + 1)))
                    =~= r@ + with_analysis(ms@.skip(i + 1)));
            }
        } else {
            proof {
                assert(r@ + (Seq::<Monitor>::empty() + with_analysis(ms@.skip(i + 1))) =~= r@
                    + with_analysis(ms@.skip(i + 1)));
            }
        }
        i += 1;
    }
    proof {
        assert(ms@.skip(ms@.len() as int) =~= Seq::<Monitor>::empty());
        assert(with_analysis(ms@) =~= r@);
    }
    r
}

/// Apply one bus message to the store — the only place shared state
/// changes. Returns whether the store must be persisted, and which matched
/// monitors want an analysis dispatched for the post just recorded.
pub fn apply_message(app: &mut App, msg: Msg, ts: &String) -> (fx: Effects)
    requires
        old(app).wf(),
    ensures
        final(app).wf(),
        match msg {
            Msg::Info(m) => monitors_untouched(*old(app), *final(app)) && info_pushed(
                *old(app),
                *final(app),
                m@,
                *ts,
            ) && fx.save == false && fx.analyses@.len() == 0,
            Msg::Error(e) => monitors_untouched(*old(app), *final(app)) && error_pushed(
                *old(app),
                *final(app),
                e@,
                *ts,
            ) && fx.save == false && fx.analyses@.len() == 0,
            Msg::StreamConnectionState(c) => same_shell(*old(app), *final(app)) && same_forms(
                *old(app),
                *final(app),
            ) && same_monitor_list(*old(app), *final(app)) && feed_untouched(
                *old(app),
                *final(app),
            ) && final(app).stream_connected == c && final(app).monitor_activity@
                == crate::app::set_all_activity(
                old(app).monitor_activity@,
                old(app).monitors@,
                c,
            ) && (c ==> final(app).monitor_initiating@.len() == 0) && (!c ==> final(app).monitor_initiating == old(app).monitor_initiating) && fx.save == false
                && fx.analyses@.len() == 0,
            Msg::MonitorAdded(res) => match res {
                Ok(m) => final(app).monitors@ == old(app).monitors@.push(m) && final(app).monitor_activity@ == activity_set(
                    old(app).monitor_activity@,
                    m.id,
                    m.enabled && old(app).stream_connected,
                ) && info_pushed(
                    *old(app),
                    *final(app),
                    "monitor added: "@ + m.label@,
                    *ts,
                ) && fx.save == true && fx.analyses@.len() == 0,
                Err(e) => monitors_untouched(*old(app), *final(app)) && error_pushed(
                    *old(app),
                    *final(app),
                    "failed to add monitor: "@ + e@,
                    *ts,
                ) && fx.save == false && fx.analyses@.len() == 0,
            },
            Msg::MonitorEditPrepared { monitor_id, result } => match result {
                Ok(m) => final(app).edit_session matches Some(s) && s.original_monitor == m
                    && final(app).add_form is Some && same_monitor_list(*old(app), *final(app))
                    && same_flags(*old(app), *final(app)) && info_pushed(
                    *old(app),
                    *final(app),
                    "editing target '"@ + m.label@ + "'"@,
                    *ts,
                ) && fx.save == false && fx.analyses@.len() == 0,
                Err(e) => same_monitor_list(*old(app), *final(app)) && same_forms(
                    *old(app),
                    *final(app),
                ) && final(app).monitor_activity@ == activity_set(
                    old(app).monitor_activity@,
                    monitor_id,
                    old(app).stream_connected,
                ) && error_pushed(
                    *old(app),
                    *final(app),
                    "failed to prepare target edit: "@ + e@,
                    *ts,
                ) && fx.save == false && fx.analyses@.len() == 0,
            },
            Msg::MonitorEdited(res) => match res {
                Ok(m) => ({
                    let idx = find_monitor_idx(old(app).monitors@, m.id@);
                    if idx < old(app).monitors@.len() {
                        final(app).monitors@ == old(app).monitors@.update(idx, m) && info_pushed(
                            *old(app),
                            *final(app),
                            "target updated: "@ + m.label@,
                            *ts,
                        ) && fx.save == true
                    } else {
                        same_monitor_list(*old(app), *final(app)) && error_pushed(
                            *old(app),
                            *final(app),
                            "target update completed but monitor no longer exists"@,
                            *ts,
                        ) && fx.save == false
                    }
                }) && fx.analyses@.len() == 0,
                Err(e) => monitors_untouched(*old(app), *final(app)) && error_pushed(
                    *old(app),
                    *final(app),
                    "failed to update target: "@ + e@,
                    *ts,
                ) && fx.save == false && fx.analyses@.len() == 0,
            },
            Msg::MonitorActivated(res) => match res {
                Ok(t) => ({
                    let idx = find_monitor_idx(old(app).monitors@, t.0@);
                    if idx < old(app).monitors@.len() {
                        final(app).monitors@[idx].rule_id == t.2 && final(app).monitors@[idx].enabled == true && info_pushed(
                            *old(app),
                            *final(app),
                            "target activated: "@ + t.1@,
                            *ts,
                        ) && fx.save == true
                    } else {
                        monitors_untouched(*old(app), *final(app)) && feed_untouched(
                            *old(app),
                            *final(app),
                        ) && fx.save == false
                    }
                }) && fx.analyses@.len() == 0,
                Err(e) => monitors_untouched(*old(app), *final(app)) && error_pushed(
                    *old(app),
                    *final(app),
                    "failed to activate target: "@ + e@,
                    *ts,
                ) && fx.save == false && fx.analyses@.len() == 0,
            },
            Msg::MonitorDeactivated(res) => match res {
                Ok(t) => ({
                    let idx = find_monitor_idx(old(app).monitors@, t.0@);
                    if idx < old(app).monitors@.len() {
                        final(app).monitors@[idx].enabled == false && final(app).monitors@[idx].rule_id@.len() == 0 && info_pushed(
                            *old(app),
                            *final(app),
                            "target deactivated: "@ + t.1@,
                            *ts,
                        ) && fx.save == true
                    } else {
                        monitors_untouched(*old(app), *final(app)) && feed_untouched(
                            *old(app),
                            *final(app),
                        ) && fx.save == false
                    }
                }) && fx.analyses@.len() == 0,
                Err(e) => monitors_untouched(*old(app), *final(app)) && error_pushed(
                    *old(app),
                    *final(app),
                    "failed to deactivate target: "@ + e@,
                    *ts,
                ) && fx.save == false && fx.analyses@.len() == 0,
            },
            Msg::MonitorDeleted(res) => match res {
                Ok(t) => ({
                    let idx = find_monitor_idx(old(app).monitors@, t.0@);
                    if idx < old(app).monitors@.len() {
                        final(app).monitors@ == old(app).monitors@.remove(idx) && info_pushed(
                            *old(app),
                            *final(app),
                            "monitor removed: "@ + t.1@,
                            *ts,
                        ) && fx.save == true
                    } else {
                        monitors_untouched(*old(app), *final(app)) && feed_untouched(
                            *old(app),
                            *final(app),
                        ) && fx.save == false
                    }
                }) && fx.analyses@.len() == 0,
                Err(e) => monitors_untouched(*old(app), *final(app)) && error_pushed(
                    *old(app),
                    *final(app),
                    "failed to delete monitor: "@ + e@,
                    *ts,
                ) && fx.save == false && fx.analyses@.len() == 0,
            },
            Msg::MonitorReconnected(res) => match res {
                Ok(t) => ({
                    let idx = find_monitor_idx(old(app).monitors@, t.0@);
                    if idx < old(app).monitors@.len() {
                        final(app).monitors@[idx].rule_id == t.2 && final(app).monitors@[idx].enabled == true && info_pushed(
                            *old(app),
                            *final(app),
                            "target reconnected: "@ + t.1@,
                            *ts,
                        ) && fx.save == true
                    } else {
                        monitors_untouched(*old(app), *final(app)) && feed_untouched(
                            *old(app),
                            *final(app),
                        ) && fx.save == false
                    }
                }) && fx.analyses@.len() == 0,
                Err(e) => monitors_untouched(*old(app), *final(app)) && error_pushed(
                    *old(app),
                    *final(app),
                    "failed to reconnect target: "@ + e@,
                    *ts,
                ) && fx.save == false && fx.analyses@.len() == 0,
            },
            Msg::StreamPost(post) => {
                let matched = matched_spec(old(app).monitors@, post.matching_tags@);
                &&& same_monitor_list(*old(app), *final(app))
                &&& same_flags(*old(app), *final(app))
                &&& same_forms(*old(app), *final(app))
                &&& same_shell(*old(app), *final(app))
                &&& final(app).feed@.len() > 0
                &&& feed_pushed(*old(app), *final(app), final(app).feed@[0])
                &&& final(app).feed@[0].at == *ts
                &&& final(app).feed@[0].kind matches FeedKind::Post { author, text, monitors: ls }
                    && author@ == crate::app::post_author(post) && text == post.text && ls@
                    == matched.map_values(|m: Monitor| m.label)
                &&& final(app).feed@[0].url matches Some(u) && u@ == crate::models::post_url_spec(
                    post,
                )
                &&& fx.save == false
                &&& fx.analyses@ == with_analysis(matched)
            },
            Msg::AnalysisCompleted { monitor_label, provider, model, output, url } => match output {
                Ok(text) => monitors_untouched(*old(app), *final(app)) && feed_pushed(
                    *old(app),
                    *final(app),
                    FeedItem {
                        at: *ts,
                        kind: FeedKind::Analysis { monitor: monitor_label, provider, model, output: text },
                        url,
                    },
                ) && final(app).status == old(app).status && fx.save == false
                    && fx.analyses@.len() == 0,
                Err(e) => monitors_untouched(*old(app), *final(app)) && error_pushed(
                    *old(app),
                    *final(app),
                    "analysis failed for '"@ + monitor_label@ + "' via "@ + provider@ + ":"@
                        + model@ + ": "@ + e@,
                    *ts,
                ) && fx.save == false && fx.analyses@.len() == 0,
            },
        },
{
    match msg {
        Msg::Info(m) => {
            app.push_info(m, ts.clone());
            Effects { save: false, analyses: Vec::new() }
        },
        Msg::Error(e) => {
            app.push_error(e, ts.clone());
            Effects { save: false, analyses: Vec::new() }
        },
        Msg::StreamConnectionState(c) => {
            app.set_stream_connected(c);
            Effects { save: false, analyses: Vec::new() }
        },
        Msg::MonitorAdded(res) => match res {
            Ok(m) => {
                let label = m.label.clone();
                app.add_monitor(m);
                let text = str_concat("monitor added: ", label.as_str());
                app.push_info(text, ts.clone());
                Effects { save: true, analyses: Vec::new() }
            },
            Err(e) => {
                let text = str_concat("failed to add monitor: ", e.as_str());
                app.push_error(text, ts.clone());
                Effects { save: false, analyses: Vec::new() }
            },
        },
        Msg::MonitorEditPrepared { monitor_id, result } => match result {
            Ok(m) => {
                let label = m.label.clone();
                app.open_edit_form(m);
                let mut text = str_concat("editing target '", label.as_str());
                text.append("'");
                app.push_info(text, ts.clone());
                Effects { save: false, analyses: Vec::new() }
            },
            Err(e) => {
                let connected = app.stream_connected();
                app.set_monitor_active(&monitor_id, connected);
                let text = str_concat("failed to prepare target edit: ", e.as_str());
                app.push_error(text, ts.clone());
                Effects { save: false, analyses: Vec::new() }
            },
        },
        Msg::MonitorEdited(res) => match res {
            Ok(m) => {
                let label = m.label.clone();
                if app.replace_monitor(m) {
                    let text = str_concat("target updated: ", label.as_str());
                    app.push_info(text, ts.clone());
                    Effects { save: true, analyses: Vec::new() }
                } else {
                    app.push_error(
                        "target update completed but monitor no longer exists".to_owned(),
                        ts.clone(),
                    );
                    Effects { save: false, analyses: Vec::new() }
                }
            },
            Err(e) => {
                let text = str_concat("failed to update target: ", e.as_str());
                app.push_error(text, ts.clone());
                Effects { save: false, analyses: Vec::new() }
            },
        },
        Msg::MonitorActivated(res) => match res {
            Ok(t) => {
                let (id, label, rule_id) = t;
                if app.activate_monitor_with_rule(&id, rule_id) {
                    let text = str_concat("target activated: ", label.as_str());
                    app.push_info(text, ts.clone());
                    Effects { save: true, analyses: Vec::new() }
                } else {
                    Effects { save: false, analyses: Vec::new() }
                }
            },
            Err(e) => {
                let text = str_concat("failed to activate target: ", e.as_str());
                app.push_error(text, ts.clone());
                Effects { save: false, analyses: Vec::new() }
            },
        },
        Msg::MonitorDeactivated(res) => match res {
            Ok(t) => {
                let (id, label) = t;
                if app.deactivate_monitor(&id) {
                    let text = str_concat("target deactivated: ", label.as_str());
                    app.push_info(text, ts.clone());
                    Effects { save: true, analyses: Vec::new() }
                } else {
                    Effects { save: false, analyses: Vec::new() }
                }
            },
            Err(e) => {
                let text = str_concat("failed to deactivate target: ", e.as_str());
                app.push_error(text, ts.clone());
                Effects { save: false, analyses: Vec::new() }
            },
        },
        Msg::MonitorDeleted(res) => match res {
            Ok(t) => {
                let (id, label) = t;
                match app.remove_monitor_by_id(id.as_str()) {
                    Some(_removed) => {
                        let text = str_concat("monitor removed: ", label.as_str());
                        app.push_info(text, ts.clone());
                        Effects { save: true, analyses: Vec::new() }
                    },
                    None => Effects { save: false, analyses: Vec::new() },
                }
            },
            Err(e) => {
                let text = str_concat("failed to delete monitor: ", e.as_str());
                app.push_error(text, ts.clone());
                Effects { save: false, analyses: Vec::new() }
            },
        },
        Msg::MonitorReconnected(res) => match res {
            Ok(t) => {
                let (id, label, rule_id) = t;
                if app.update_monitor_rule_id(&id, rule_id) {
                    let text = str_concat("target reconnected: ", label.as_str());
                    app.push_info(text, ts.clone());
                    Effects { save: true, analyses: Vec::new() }
                } else {
                    Effects { save: false, analyses: Vec::new() }
                }
            },
            Err(e) => {
                let text = str_concat("failed to reconnect target: ", e.as_str());
                app.push_error(text, ts.clone());
                Effects { save: false, analyses: Vec::new() }
            },
        },
        Msg::StreamPost(post) => {
            let matched = collect_matched(app, &post.matching_tags);
            let labels = labels_of(&matched);
            app.push_post(&post, labels, ts.clone());
            let analyses = filter_analysis(matched);
            Effects { save: false, analyses }
        },
        Msg::AnalysisCompleted { monitor_label, provider, model, output, url } => match output {
            Ok(text) => {
                app.push_analysis(monitor_label, provider, model, text, url, ts.clone());
                Effects { save: false, analyses: Vec::new() }
            },
            Err(e) => {
                let mut text = str_concat("analysis failed for '", monitor_label.as_str());
                text.append("' via ");
                text.append(provider.as_str());
                text.append(":");
                text.append(model.as_str());
                text.append(": ");
                text.append(e.as_str());
                app.push_error(text, ts.clone());
                Effects { save: false, analyses: Vec::new() }
            },
        },
    }
}

/// Everything one analysis call needs.
#[derive(Debug)]
pub struct AnalysisJob {
    pub provider: ResolvedAiProvider,
    pub model: String,
    pub prompt: String,
    pub monitor_label: String,
}

/// The effective provider and model for one matched monitor, resolved by
/// precedence: the monitor's endpoint and key override the named
/// provider's configured defaults, and the monitor's model overrides the
/// provider's; an empty model after resolution fails that monitor alone.
/// `provider_env_value` is what the provider's key variable held, and
/// `key_override` the monitor's already-resolved key override.
pub fn plan_analysis(
    config: &AppConfig,
    monitor: &Monitor,
    provider_env_value: Option<String>,
    key_override: Option<String>,
) -> (r: Result<AnalysisJob, String>)
    ensures
        ({
            let idx = find_provider_idx(config.ai_providers@, monitor.analysis.provider@);
            if idx >= config.ai_providers@.len() {
                r matches Err(e) && e@ == "AI provider '"@ + monitor.analysis.provider@
                    + "' is not configured"@
            } else {
                let p = config.ai_providers@[idx];
                let base_key = resolved_key_spec(p, provider_env_value);
                if base_key is None && key_override is None {
                    r matches Err(e) && e@ == "AI provider '"@ + monitor.analysis.provider@
                        + "' missing or no API key available"@
                } else {
                    let model = if trim_seq(monitor.analysis.model@).len() != 0 {
                        trim_seq(monitor.analysis.model@)
                    } else {
                        p.model@
                    };
                    if model.len() == 0 {
                        r matches Err(e) && e@ == "analysis skipped for '"@ + monitor.label@
                            + "' because model ID is empty"@
                    } else {
                        r matches Ok(job) && job.provider.name@ == p.name@ && job.provider.base_url@
                            == (if trim_seq(monitor.analysis.endpoint@).len() != 0 {
                            trim_seq(monitor.analysis.endpoint@)
                        } else {
                            p.base_url@
                        }) && job.provider.api_key@ == (match key_override {
                            Some(k) => k@,
                            None => base_key->0,
                        }) && job.provider.model@ == p.model@ && job.model@ == model
                            && job.prompt == monitor.analysis.prompt && job.monitor_label
                            == monitor.label
                    }
                }
            }
        }),
{
    let provider_cfg = match config.provider_by_name(monitor.analysis.provider.as_str()) {
        Some(p) => p,
        None => {
            let mut e = str_concat("AI provider '", monitor.analysis.provider.as_str());
            e.append("' is not configured");
            return Err(e);
        },
    };
    let base_key = provider_cfg.resolved_api_key(provider_env_value);
    let resolved: ResolvedAiProvider = match base_key {
        Some(api_key) => ResolvedAiProvider {
            name: provider_cfg.name.clone(),
            base_url: provider_cfg.base_url.clone(),
            model: provider_cfg.model.clone(),
            api_key,
        },
        None => match &key_override {
            Some(k) => ResolvedAiProvider {
                name: provider_cfg.name.clone(),
                base_url: provider_cfg.base_url.clone(),
                model: provider_cfg.model.clone(),
                api_key: k.clone(),
            },
            None => {
                let mut e = str_concat("AI provider '", monitor.analysis.provider.as_str());
                e.append("' missing or no API key available");
                return Err(e);
            },
        },
    };
    let trimmed_model = trim_str(monitor.analysis.model.as_str());
    let model_id: String = if trimmed_model.as_str().is_empty() {
        resolved.model.clone()
    } else {
        trimmed_model
    };
    if model_id.as_str().is_empty() {
        let mut e = str_concat("analysis skipped for '", monitor.label.as_str());
        e.append("' because model ID is empty");
        return Err(e);
    }
    let mut provider = resolved;
    let trimmed_endpoint = trim_str(monitor.analysis.endpoint.as_str());
    if !trimmed_endpoint.as_str().is_empty() {
        provider.base_url = trimmed_endpoint;
    }
    match key_override {
        Some(k) => {
            provider.api_key = k;
        },
        None => {},
    }
    Ok(
        AnalysisJob {
            provider,
            model: model_id,
            prompt: monitor.analysis.prompt.clone(),
            monitor_label: monitor.label.clone(),
        },
    )
}

/// A post whose tags match no known enabled monitor still yields a feed
/// entry with an empty label set, and plans no analysis.
pub proof fn lemma_unmatched_post_is_inert(ms: Seq<Monitor>, tags: Seq<String>)
    requires
        forall|t: int|
            0 <= t < tags.len() ==> {
                let idx = find_tag_idx(ms, #[trigger] tags[t]@);
                idx >= ms.len() || !ms[idx].enabled
            },
    ensures
        matched_spec(ms, tags).len() == 0,
        with_analysis(matched_spec(ms, tags)).len() == 0,
    decreases tags.len(),
{
    if tags.len() == 0 {
    } else {
        assert(tags[0]@ == tags[0]@);
        lemma_unmatched_post_is_inert(ms, tags.drop_first());
        assert(forall|t: int|
            0 <= t < tags.drop_first().len() ==> tags.drop_first()[t] == tags[t + 1]);
    }
}

/// A post matching exactly two enabled monitors, both with analysis
/// enabled, plans exactly two independent analyses — one per monitor.
pub proof fn lemma_two_matches_two_analyses(ms: Seq<Monitor>, tags: Seq<String>)
    requires
        matched_spec(ms, tags).len() == 2,
        forall|j: int|
            0 <= j < matched_spec(ms, tags).len() ==> (#[trigger] matched_spec(
                ms,
                tags,
            )[j]).analysis.enabled,
    ensures
        with_analysis(matched_spec(ms, tags)).len() == 2,
{
    lemma_with_analysis_all(matched_spec(ms, tags));
}

proof fn lemma_with_analysis_all(ms: Seq<Monitor>)
    requires
        forall|j: int| 0 <= j < ms.len() ==> (#[trigger] ms[j]).analysis.enabled,
    ensures
        with_analysis(ms).len() == ms.len(),
    decreases ms.len(),
{
    if ms.len() == 0 {
    } else {
        assert(ms[0].analysis.enabled);
        lemma_with_analysis_all(ms.drop_first());
    }
}

} // verus!
