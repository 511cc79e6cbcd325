//! Keyboard handling: every key press becomes store mutations plus at most
//! one intent for the surrounding loop to carry out (a remote operation, a
//! directory read, a browser open).

use vstd::prelude::*;
use crate::app::{
    activity_set, pending_error, pending_matches, same_feed, same_flags, same_forms,
    same_monitor_list, same_shell, App,
};
use crate::bus::{error_pushed, feed_untouched, info_pushed, monitors_untouched};
use crate::models::{Monitor, PendingMonitor};
use crate::target_files::TargetFileMonitor;
use crate::config::AppConfig;
use crate::text::str_concat;

verus! {

/// One decoded key press.
#[derive(Debug, Clone, Copy, PartialEq, Eq, Structural)]
pub enum KeyInput {
    Up,
    Down,
    Left,
    Right,
    Tab,
    BackTab,
    Enter,
    Esc,
    Backspace,
    Char(char),
    CtrlChar(char),
    Other,
}

/// What the surrounding loop must carry out after a key press.
#[derive(Debug)]
pub enum Intent {
    Nothing,
    /// Read the target-file directory and open the picker.
    LoadTargetFiles,
    /// Create the remote rule and monitor.
    SubmitCreate(PendingMonitor),
    /// Commit an edit: create the new rule, restoring `original` on failure.
    SubmitEdit { pending: PendingMonitor, original: Monitor },
    /// Disconnect the monitor's rule before opening the edit form.
    PrepareEdit(Monitor),
    /// Recreate the rule of the pre-edit monitor after a cancel.
    RestoreOriginal(Monitor),
    /// Create a rule for a disabled monitor.
    Activate(Monitor),
    /// Delete the rule of an enabled monitor, keeping the record.
    Deactivate(Monitor),
    /// Delete the rule and then the record.
    DeleteMonitor(Monitor),
    /// Delete and recreate the monitor's rule.
    Reconnect(Monitor),
    /// Ask the remote to drop every stream connection.
    TerminateAll,
    /// Open a feed entry's deep link.
    OpenUrl(String),
}

/// The selected monitor, when the selection is in range.
pub open spec fn sel_monitor(a: App) -> Monitor {
    a.monitors@[a.selected_monitor as int]
}

pub open spec fn has_selection(a: App) -> bool {
    a.selected_monitor < a.monitors@.len()
}

/// Disconnect-before-edit: mark the monitor inactive, announce, and hand
/// the loop the monitor whose rule must be deleted.
pub open spec fn edit_selected_outcome(
    a: App,
    b: App,
    intent: Intent,
    has_client: bool,
    ts: String,
) -> bool {
    if !has_client {
        &&& monitors_untouched(a, b)
        &&& error_pushed(a, b, "cannot edit target without X bearer token"@, ts)
        &&& intent is Nothing
    } else if !has_selection(a) {
        &&& monitors_untouched(a, b)
        &&& info_pushed(a, b, "no monitor selected"@, ts)
        &&& intent is Nothing
    } else {
        &&& same_monitor_list(a, b)
        &&& same_forms(a, b)
        &&& same_shell(a, b)
        &&& b.stream_connected == a.stream_connected
        &&& b.monitor_initiating == a.monitor_initiating
        &&& b.monitor_activity@ == activity_set(a.monitor_activity@, sel_monitor(a).id, false)
        &&& info_pushed(
            a,
            b,
            "disconnecting target '"@ + sel_monitor(a).label@ + "' before edit..."@,
            ts,
        )
        &&& intent matches Intent::PrepareEdit(m) && m == sel_monitor(a)
    }
}

/// Disconnect the selected monitor and ask for its edit to be prepared.
pub fn edit_selected_monitor(app: &mut App, has_client: bool, ts: &String) -> (intent: Intent)
    requires
        old(app).wf(),
    ensures
        final(app).wf(),
        edit_selected_outcome(*old(app), *final(app), intent, has_client, *ts),
{
    if !has_client {
        app.push_error("cannot edit target without X bearer token".to_owned(), ts.clone());
        return Intent::Nothing;
    }
    let selected = match app.selected_monitor() {
        Some(m) => m.clone(),
        None => {
            app.push_info("no monitor selected".to_owned(), ts.clone());
            return Intent::Nothing;
        },
    };
    app.set_monitor_active(&selected.id, false);
    let mut text = str_concat("disconnecting target '", selected.label.as_str());
    text.append("' before edit...");
    app.push_info(text, ts.clone());
    Intent::PrepareEdit(selected)
}

/// Cancel an edit: close the form, and when a session was open, mark the
/// original inactive and ask for its rule to be recreated.
pub open spec fn cancel_edit_outcome(
    a: App,
    b: App,
    intent: Intent,
    has_client: bool,
    ts: String,
) -> bool {
    if a.edit_session is None {
        &&& same_monitor_list(a, b)
        &&& same_flags(a, b)
        &&& same_shell(a, b)
        &&& feed_untouched(a, b)
        &&& b.add_form is None && b.edit_session is None && b.target_file_picker is None
        &&& intent is Nothing
    } else if !has_client {
        &&& same_monitor_list(a, b)
        &&& same_flags(a, b)
        &&& same_shell(a, b)
        &&& error_pushed(a, b, "cannot reconnect target without X bearer token"@, ts)
        &&& b.add_form is None && b.edit_session is None && b.target_file_picker is None
        &&& intent is Nothing
    } else {
        let orig = a.edit_session->0.original_monitor;
        &&& same_monitor_list(a, b)
        &&& same_shell(a, b)
        &&& b.stream_connected == a.stream_connected
        &&& b.monitor_initiating == a.monitor_initiating
        &&& b.monitor_activity@ == activity_set(a.monitor_activity@, orig.id, false)
        &&& b.add_form is None && b.edit_session is None && b.target_file_picker is None
        &&& info_pushed(
            a,
            b,
            "reconnecting target '"@ + orig.label@ + "' after edit cancel..."@,
            ts,
        )
        &&& intent matches Intent::RestoreOriginal(m) && m == orig
    }
}

/// Cancel the open edit, restoring the pre-edit monitor's rule.
pub fn cancel_monitor_edit(app: &mut App, has_client: bool, ts: &String) -> (intent: Intent)
    requires
        old(app).wf(),
    ensures
        final(app).wf(),
        cancel_edit_outcome(*old(app), *final(app), intent, has_client, *ts),
{
    let session = match &app.edit_session {
        Some(s) => s.clone(),
        None => {
            app.close_add_form();
            return Intent::Nothing;
        },
    };
    if !has_client {
        app.push_error("cannot reconnect target without X bearer token".to_owned(), ts.clone());
        app.close_add_form();
        return Intent::Nothing;
    }
    let monitor = session.original_monitor;
    app.close_add_form();
    app.set_monitor_active(&monitor.id, false);
    let mut text = str_concat("reconnecting target '", monitor.label.as_str());
    text.append("' after edit cancel...");
    app.push_info(text, ts.clone());
    Intent::RestoreOriginal(monitor)
}

/// Toggle the selected monitor: enabled monitors are deactivated, disabled
/// ones activated; either way the monitor is marked inactive while the
/// operation runs.
pub open spec fn toggle_outcome(
    a: App,
    b: App,
    intent: Intent,
    has_client: bool,
    ts: String,
) -> bool {
    if !has_client {
        &&& monitors_untouched(a, b)
        &&& error_pushed(a, b, "cannot toggle target without X bearer token"@, ts)
        &&& intent is Nothing
    } else if !has_selection(a) {
        &&& monitors_untouched(a, b)
        &&& info_pushed(a, b, "no monitor selected"@, ts)
        &&& intent is Nothing
    } else {
        let m = sel_monitor(a);
        &&& same_monitor_list(a, b)
        &&& same_forms(a, b)
        &&& same_shell(a, b)
        &&& b.stream_connected == a.stream_connected
        &&& b.monitor_initiating == a.monitor_initiating
        &&& b.monitor_activity@ == activity_set(a.monitor_activity@, m.id, false)
        &&& (m.enabled ==> info_pushed(a, b, "deactivating target '"@ + m.label@ + "'..."@, ts)
            && (intent matches Intent::Deactivate(x) && x == m))
        &&& (!m.enabled ==> info_pushed(a, b, "activating target '"@ + m.label@ + "'..."@, ts) && (
        intent matches Intent::Activate(x) && x == m))
    }
}

pub fn toggle_selected_monitor_activation(app: &mut App, has_client: bool, ts: &String) -> (intent:
    Intent)
    requires
        old(app).wf(),
    ensures
        final(app).wf(),
        toggle_outcome(*old(app), *final(app), intent, has_client, *ts),
{
    if !has_client {
        app.push_error("cannot toggle target without X bearer token".to_owned(), ts.clone());
        return Intent::Nothing;
    }
    let monitor = match app.selected_monitor() {
        Some(m) => m.clone(),
        None => {
            app.push_info("no monitor selected".to_owned(), ts.clone());
            return Intent::Nothing;
        },
    };
    app.set_monitor_active(&monitor.id, false);
    if monitor.enabled {
        let mut text = str_concat("deactivating target '", monitor.label.as_str());
        text.append("'...");
        app.push_info(text, ts.clone());
        Intent::Deactivate(monitor)
    } else {
        let mut text = str_concat("activating target '", monitor.label.as_str());
        text.append("'...");
        app.push_info(text, ts.clone());
        Intent::Activate(monitor)
    }
}

/// Ask for the selected monitor's rule and record to be removed.
pub open spec fn delete_selected_outcome(
    a: App,
    b: App,
    intent: Intent,
    has_client: bool,
    ts: String,
) -> bool {
    if !has_client {
        &&& monitors_untouched(a, b)
        &&& error_pushed(a, b, "cannot delete monitor without X bearer token"@, ts)
        &&& intent is Nothing
    } else if !has_selection(a) {
        &&& monitors_untouched(a, b)
        &&& info_pushed(a, b, "no monitor selected"@, ts)
        &&& intent is Nothing
    } else {
        let m = sel_monitor(a);
        &&& monitors_untouched(a, b)
        &&& info_pushed(a, b, "removing monitor '"@ + m.label@ + "'..."@, ts)
        &&& intent matches Intent::DeleteMonitor(x) && x == m
    }
}

pub fn delete_selected_monitor(app: &mut App, has_client: bool, ts: &String) -> (intent: Intent)
    requires
        old(app).wf(),
    ensures
        final(app).wf(),
        delete_selected_outcome(*old(app), *final(app), intent, has_client, *ts),
{
    if !has_client {
        app.push_error("cannot delete monitor without X bearer token".to_owned(), ts.clone());
        return Intent::Nothing;
    }
    let monitor = match app.selected_monitor() {
        Some(m) => m.clone(),
        None => {
            app.push_info("no monitor selected".to_owned(), ts.clone());
            return Intent::Nothing;
        },
    };
    let mut text = str_concat("removing monitor '", monitor.label.as_str());
    text.append("'...");
    app.push_info(text, ts.clone());
    Intent::DeleteMonitor(monitor)
}

/// Ask for the selected monitor's rule to be deleted and recreated.
pub open spec fn reconnect_selected_outcome(
    a: App,
    b: App,
    intent: Intent,
    has_client: bool,
    ts: String,
) -> bool {
    if !has_client {
        &&& monitors_untouched(a, b)
        &&& error_pushed(a, b, "cannot reconnect target without X bearer token"@, ts)
        &&& intent is Nothing
    } else if !has_selection(a) {
        &&& monitors_untouched(a, b)
        &&& info_pushed(a, b, "no monitor selected"@, ts)
        &&& intent is Nothing
    } else {
        let m = sel_monitor(a);
        &&& same_monitor_list(a, b)
        &&& same_forms(a, b)
        &&& same_shell(a, b)
        &&& b.stream_connected == a.stream_connected
        &&& b.monitor_initiating == a.monitor_initiating
        &&& b.monitor_activity@ == activity_set(a.monitor_activity@, m.id, false)
        &&& info_pushed(a, b, "reconnecting target '"@ + m.label@ + "'..."@, ts)
        &&& intent matches Intent::Reconnect(x) && x == m
    }
}

pub fn reconnect_selected_monitor(app: &mut App, has_client: bool, ts: &String) -> (intent: Intent)
    requires
        old(app).wf(),
    ensures
        final(app).wf(),
        reconnect_selected_outcome(*old(app), *final(app), intent, has_client, *ts),
{
    if !has_client {
        app.push_error("cannot reconnect target without X bearer token".to_owned(), ts.clone());
        return Intent::Nothing;
    }
    let monitor = match app.selected_monitor() {
        Some(m) => m.clone(),
        None => {
            app.push_info("no monitor selected".to_owned(), ts.clone());
            return Intent::Nothing;
        },
    };
    app.set_monitor_active(&monitor.id, false);
    let mut text = str_concat("reconnecting target '", monitor.label.as_str());
    text.append("'...");
    app.push_info(text, ts.clone());
    Intent::Reconnect(monitor)
}

/// Ask the remote to drop every stream connection; the local state is
/// marked disconnected at once.
pub open spec fn terminate_outcome(
    a: App,
    b: App,
    intent: Intent,
    has_client: bool,
    ts: String,
) -> bool {
    if !has_client {
        &&& monitors_untouched(a, b)
        &&& error_pushed(a, b, "cannot terminate connections without X bearer token"@, ts)
        &&& intent is Nothing
    } else {
        &&& same_monitor_list(a, b)
        &&& same_forms(a, b)
        &&& same_shell(a, b)
        &&& b.stream_connected == false
        &&& info_pushed(a, b, "terminating all filtered stream connections..."@, ts)
        &&& intent is TerminateAll
    }
}

pub fn terminate_all_connections(app: &mut App, has_client: bool, ts: &String) -> (intent: Intent)
    requires
        old(app).wf(),
    ensures
        final(app).wf(),
        terminate_outcome(*old(app), *final(app), intent, has_client, *ts),
{
    if !has_client {
        app.push_error(
            "cannot terminate connections without X bearer token".to_owned(),
            ts.clone(),
        );
        return Intent::Nothing;
    }
    app.set_stream_connected(false);
    app.push_info("terminating all filtered stream connections...".to_owned(), ts.clone());
    Intent::TerminateAll
}

/// Hand the loop the selected feed entry's deep link, if it has one.
pub open spec fn open_url_outcome(a: App, b: App, intent: Intent, ts: String) -> bool {
    if a.selected_feed >= a.feed@.len() {
        &&& monitors_untouched(a, b)
        &&& info_pushed(a, b, "no feed item selected"@, ts)
        &&& intent is Nothing
    } else {
        match a.feed@[a.selected_feed as int].url {
            Some(u) => monitors_untouched(a, b) && feed_untouched(a, b) && (intent matches
                Intent::OpenUrl(v) && v == u),
            None => monitors_untouched(a, b) && info_pushed(
                a,
                b,
                "selected feed item has no URL"@,
                ts,
            ) && intent is Nothing,
        }
    }
}

pub fn open_selected_feed_url(app: &mut App, ts: &String) -> (intent: Intent)
    requires
        old(app).wf(),
    ensures
        final(app).wf(),
        open_url_outcome(*old(app), *final(app), intent, *ts),
{
    let url: Option<String> = match app.selected_feed_item() {
        Some(item) => match &item.url {
            Some(u) => Some(u.clone()),
            None => None,
        },
        None => {
            app.push_info("no feed item selected".to_owned(), ts.clone());
            return Intent::Nothing;
        },
    };
    match url {
        Some(u) => Intent::OpenUrl(u),
        None => {
            app.push_info("selected feed item has no URL".to_owned(), ts.clone());
            Intent::Nothing
        },
    }
}

/// Submit the form in edit mode: a validated form closes the modal and
/// asks for the commit, carrying the pre-edit monitor for the rollback;
/// the pending monitor keeps the original's identity and correlation tag.
pub open spec fn submit_edit_outcome(
    a: App,
    b: App,
    intent: Intent,
    has_client: bool,
    ts: String,
) -> bool {
    if !has_client {
        &&& monitors_untouched(a, b)
        &&& error_pushed(a, b, "cannot edit target without X bearer token"@, ts)
        &&& intent is Nothing
    } else if a.add_form is None {
        &&& monitors_untouched(a, b)
        &&& feed_untouched(a, b)
        &&& intent is Nothing
    } else if a.edit_session is None {
        &&& monitors_untouched(a, b)
        &&& error_pushed(a, b, "internal error: edit session missing"@, ts)
        &&& intent is Nothing
    } else {
        let form = a.add_form->0;
        let orig = a.edit_session->0.original_monitor;
        match pending_error(form, a.provider_names@) {
            Some(e) => monitors_untouched(a, b) && error_pushed(
                a,
                b,
                "invalid monitor settings: "@ + e,
                ts,
            ) && intent is Nothing,
            None => {
                &&& same_monitor_list(a, b)
                &&& same_flags(a, b)
                &&& same_shell(a, b)
                &&& b.add_form is None && b.edit_session is None && b.target_file_picker is None
                &&& info_pushed(
                    a,
                    b,
                    "saving edits and reconnecting target '"@ + orig.label@ + "'..."@,
                    ts,
                )
                &&& intent matches Intent::SubmitEdit { pending, original } && original == orig
                    && pending.id == orig.id && pending.rule_tag == orig.rule_tag
                    && crate::app::pending_core(form, a.provider_names@, pending)
            },
        }
    }
}

pub fn submit_monitor_edit(app: &mut App, has_client: bool, ts: &String) -> (intent: Intent)
    requires
        old(app).wf(),
    ensures
        final(app).wf(),
        submit_edit_outcome(*old(app), *final(app), intent, has_client, *ts),
{
    if !has_client {
        app.push_error("cannot edit target without X bearer token".to_owned(), ts.clone());
        return Intent::Nothing;
    }
    let form = match &app.add_form {
        Some(f) => f.clone(),
        None => {
            return Intent::Nothing;
        },
    };
    let session = match &app.edit_session {
        Some(s) => s.clone(),
        None => {
            app.push_error("internal error: edit session missing".to_owned(), ts.clone());
            return Intent::Nothing;
        },
    };
    let mut pending = match form.to_pending_monitor(app.provider_names.as_slice()) {
        Ok(p) => p,
        Err(e) => {
            let text = str_concat("invalid monitor settings: ", e.as_str());
            app.push_error(text, ts.clone());
            return Intent::Nothing;
        },
    };
    pending.id = session.original_monitor.id.clone();
    pending.rule_tag = session.original_monitor.rule_tag.clone();
    app.close_add_form();
    let mut text = str_concat(
        "saving edits and reconnecting target '",
        session.original_monitor.label.as_str(),
    );
    text.append("'...");
    app.push_info(text, ts.clone());
    Intent::SubmitEdit { pending, original: session.original_monitor }
}

/// Submit the form: in edit mode the commit flow, otherwise a validated
/// form closes the modal and asks for the monitor to be created.
pub open spec fn submit_form_outcome(
    a: App,
    b: App,
    intent: Intent,
    has_client: bool,
    ts: String,
) -> bool {
    if a.edit_session is Some {
        submit_edit_outcome(a, b, intent, has_client, ts)
    } else if a.add_form is None {
        monitors_untouched(a, b) && feed_untouched(a, b) && intent is Nothing
    } else if !has_client {
        monitors_untouched(a, b) && error_pushed(
            a,
            b,
            "cannot add monitor without X bearer token"@,
            ts,
        ) && intent is Nothing
    } else {
        let form = a.add_form->0;
        match pending_error(form, a.provider_names@) {
            Some(e) => monitors_untouched(a, b) && error_pushed(
                a,
                b,
                "invalid monitor settings: "@ + e,
                ts,
            ) && intent is Nothing,
            None => {
                &&& same_monitor_list(a, b)
                &&& same_flags(a, b)
                &&& same_shell(a, b)
                &&& b.add_form is None && b.edit_session is None && b.target_file_picker is None
                &&& intent matches Intent::SubmitCreate(p) && p.id@.len() == 32 && pending_matches(
                    form,
                    a.provider_names@,
                    p,
                ) && info_pushed(a, b, "adding monitor '"@ + p.label@ + "'..."@, ts)
            },
        }
    }
}

pub fn submit_monitor_form(app: &mut App, has_client: bool, ts: &String) -> (intent: Intent)
    requires
        old(app).wf(),
    ensures
        final(app).wf(),
        submit_form_outcome(*old(app), *final(app), intent, has_client, *ts),
{
    if app.edit_session.is_some() {
        return submit_monitor_edit(app, has_client, ts);
    }
    let form = match &app.add_form {
        Some(f) => f.clone(),
        None => {
            return Intent::Nothing;
        },
    };
    if !has_client {
        app.push_error("cannot add monitor without X bearer token".to_owned(), ts.clone());
        return Intent::Nothing;
    }
    let pending = match form.to_pending_monitor(app.provider_names.as_slice()) {
        Ok(p) => p,
        Err(e) => {
            let text = str_concat("invalid monitor settings: ", e.as_str());
            app.push_error(text, ts.clone());
            return Intent::Nothing;
        },
    };
    app.close_add_form();
    let mut text = str_concat("adding monitor '", pending.label.as_str());
    text.append("'...");
    app.push_info(text, ts.clone());
    Intent::SubmitCreate(pending)
}

/// Copy a target file's definition into the open form: kind, target and
/// label always; with analysis on, the named provider must exist, its
/// defaults are applied, and each present field overrides them.
pub fn apply_target_file_to_form(app: &mut App, target: &TargetFileMonitor, ts: &String) -> (r:
    Result<(), String>)
    requires
        old(app).wf(),
    ensures
        final(app).wf(),
        old(app).add_form is None ==> (r matches Err(e) && e@ == "target form is not open"@),
        same_monitor_list(*old(app), *final(app)),
        same_flags(*old(app), *final(app)),
        same_shell(*old(app), *final(app)),
        same_feed(*old(app), *final(app)),
        r is Ok ==> old(app).add_form is Some,
        r is Ok ==> (final(app).add_form matches Some(f) && f.kind == target.kind && f.target@
            == crate::text::trim_seq(target.target@) && f.ai_enabled == target.ai_enabled),
        final(app).target_file_picker == old(app).target_file_picker,
        final(app).edit_session == old(app).edit_session,
{
    if app.add_form.is_none() {
        return Err("target form is not open".to_owned());
    }
    let provider_index: Option<usize> = if target.ai_enabled {
        match &target.ai_provider {
            Some(provider_name) => {
                let mut idx: Option<usize> = None;
                let mut i: usize = 0;
                while i < app.provider_names.len()
                    invariant
                        i <= app.provider_names@.len(),
                        idx matches Some(j) ==> j < app.provider_names@.len(),
                    decreases app.provider_names@.len() - i,
                {
                    if idx.is_none() && crate::config::names_match(
                        app.provider_names[i].as_str(),
                        provider_name.as_str(),
                    ) {
                        idx = Some(i);
                    }
                    i += 1;
                }
                match idx {
                    Some(j) => Some(j),
                    None => {
                        let mut e = str_concat("AI provider '", provider_name.as_str());
                        e.append("' is not configured");
                        return Err(e);
                    },
                }
            },
            None => None,
        }
    } else {
        None
    };
    let new_target = crate::text::trim_str(target.target.as_str());
    let config = app.config.clone();
    let names = crate::models::clone_string_vec(&app.provider_names);
    match &mut app.add_form {
        Some(form) => {
            form.kind = target.kind;
            form.target = new_target;
            form.display_name = match &target.label {
                Some(l) => l.clone(),
                None => String::new(),
            };
            form.ai_enabled = target.ai_enabled;
            if target.ai_enabled {
                match provider_index {
                    Some(j) => {
                        form.ai_provider_index = j;
                    },
                    None => {},
                }
                form.apply_provider_defaults(&config, names.as_slice());
                match &target.ai_model {
                    Some(m) => {
                        form.ai_model = m.clone();
                    },
                    None => {},
                }
                match &target.ai_endpoint {
                    Some(e) => {
                        form.ai_endpoint = e.clone();
                    },
                    None => {},
                }
                match &target.ai_api_key {
                    Some(k) => {
                        form.ai_api_key = k.clone();
                    },
                    None => {},
                }
                match &target.ai_prompt {
                    Some(p) => {
                        form.ai_prompt = p.clone();
                    },
                    None => {},
                }
            }
        },
        None => {},
    }
    Ok(())
}

/// Act on the picker selection: an invalid file is reported; a valid one
/// closes the picker, fills the form, and submits it.
pub fn select_target_file(app: &mut App, has_client: bool, ts: &String) -> (intent: Intent)
    requires
        old(app).wf(),
    ensures
        final(app).wf(),
        old(app).target_file_picker is None ==> monitors_untouched(*old(app), *final(app))
            && info_pushed(*old(app), *final(app), "no YAML target file selected"@, *ts) && intent
            is Nothing,
        old(app).target_file_picker matches Some(p) ==> (p.selected < p.entries@.len() ==> ((
        p.entries@[p.selected as int].parsed matches Err(e) ==> monitors_untouched(
            *old(app),
            *final(app),
        ) && error_pushed(
            *old(app),
            *final(app),
            "invalid YAML target file '"@ + p.entries@[p.selected as int].file_name@ + "': "@ + e@,
            *ts,
        ) && intent is Nothing) && (p.entries@[p.selected as int].parsed is Ok ==> final(app).target_file_picker is None))),
{
    let entry = match app.selected_target_file_entry() {
        Some(e) => e.clone(),
        None => {
            app.push_info("no YAML target file selected".to_owned(), ts.clone());
            return Intent::Nothing;
        },
    };
    let target = match entry.parsed {
        Ok(t) => t,
        Err(error) => {
            let mut text = str_concat("invalid YAML target file '", entry.file_name.as_str());
            text.append("': ");
            text.append(error.as_str());
            proof {
                assert(text@ =~= "invalid YAML target file '"@ + entry.file_name@ + "': "@
                    + error@);
            }
            app.push_error(text, ts.clone());
            return Intent::Nothing;
        },
    };
    app.close_target_file_picker();
    match apply_target_file_to_form(app, &target, ts) {
        Ok(_) => {},
        Err(error) => {
            let mut text = str_concat("failed to apply YAML target file '", entry.file_name.as_str());
            text.append("': ");
            text.append(error.as_str());
            app.push_error(text, ts.clone());
            return Intent::Nothing;
        },
    }
    let mut text = str_concat("selected YAML target file '", entry.file_name.as_str());
    text.append("'; connecting...");
    app.push_info(text, ts.clone());
    submit_monitor_form(app, has_client, ts)
}

/// Keys inside the target-file picker: navigate, pick, or close.
pub fn handle_target_file_picker_key(
    app: &mut App,
    key: KeyInput,
    has_client: bool,
    ts: &String,
) -> (intent: Intent)
    requires
        old(app).wf(),
    ensures
        final(app).wf(),
        key == KeyInput::Char('q') || key == KeyInput::Esc ==> final(app).target_file_picker
            is None && info_pushed(*old(app), *final(app), "closed YAML target picker"@, *ts),
{
    match key {
        KeyInput::Char(c) => {
            if c == 'q' {
                app.close_target_file_picker();
                app.push_info("closed YAML target picker".to_owned(), ts.clone());
                Intent::Nothing
            } else {
                Intent::Nothing
            }
        },
        KeyInput::Esc => {
            app.close_target_file_picker();
            app.push_info("closed YAML target picker".to_owned(), ts.clone());
            Intent::Nothing
        },
        KeyInput::Up => {
            app.move_target_file_selection(-1);
            Intent::Nothing
        },
        KeyInput::Down => {
            app.move_target_file_selection(1);
            Intent::Nothing
        },
        KeyInput::Enter => select_target_file(app, has_client, ts),
        _ => Intent::Nothing,
    }
}

/// The cancel keys: an open edit rolls back, a plain add form closes.
pub open spec fn cancel_or_close(a: App, b: App, intent: Intent, has_client: bool, ts: String) -> bool {
    if a.edit_session is Some {
        cancel_edit_outcome(a, b, intent, has_client, ts)
    } else {
        &&& same_monitor_list(a, b)
        &&& same_flags(a, b)
        &&& same_shell(a, b)
        &&& feed_untouched(a, b)
        &&& b.add_form is None && b.edit_session is None && b.target_file_picker is None
        &&& intent is Nothing
    }
}

/// Whether this form field is edited as free text.
pub open spec fn is_text_field(idx: usize) -> bool {
    idx == 1 || idx == 2 || idx == 5 || idx == 6 || idx == 7 || idx == 8
}

/// Keys inside the monitor form: `q` outside a text field and `Esc` cancel
/// (rolling an edit back); `y` in add mode opens the picker; arrows move
/// between fields, flip the kind and the analysis switch, and cycle the
/// provider (pulling its defaults in); typing and backspace edit the
/// focused text field; `Enter` advances, and submits from the last field.
/// Whether this key leaves the editing match: cancel, the picker, or the
/// submit from the last field.
pub open spec fn form_exit_key(a: App, f: crate::app::AddMonitorForm, key: KeyInput) -> bool {
    ||| (key == KeyInput::Char('q') && !is_text_field(f.field_index))
    ||| key == KeyInput::Esc
    ||| (key == KeyInput::Char('y') && a.edit_session is None && !is_text_field(f.field_index))
    ||| (key == KeyInput::Enter && f.field_index == 9)
}

/// One character removed from the end, as backspace does.
pub open spec fn popped(s: Seq<char>) -> Seq<char> {
    if s.len() > 0 {
        s.drop_last()
    } else {
        s
    }
}

/// What one editing key does to the form.
pub open spec fn form_key_effect(
    f: crate::app::AddMonitorForm,
    f2: crate::app::AddMonitorForm,
    key: KeyInput,
    config: AppConfig,
    names: Seq<String>,
) -> bool {
    match key {
        KeyInput::Up => crate::app::fields_eq_except(f2, f, crate::app::FormSlot::FieldIndex)
            && f2.field_index as int == (f.field_index - 1) % 10,
        KeyInput::BackTab => crate::app::fields_eq_except(f2, f, crate::app::FormSlot::FieldIndex)
            && f2.field_index as int == (f.field_index - 1) % 10,
        KeyInput::Down => crate::app::fields_eq_except(f2, f, crate::app::FormSlot::FieldIndex)
            && f2.field_index as int == (f.field_index + 1) % 10,
        KeyInput::Tab => crate::app::fields_eq_except(f2, f, crate::app::FormSlot::FieldIndex)
            && f2.field_index as int == (f.field_index + 1) % 10,
        KeyInput::Enter => crate::app::fields_eq_except(f2, f, crate::app::FormSlot::FieldIndex)
            && f2.field_index as int == (f.field_index + 1) % 10,
        KeyInput::Left => form_cycle_effect(f, f2, config, names, -1),
        KeyInput::Right => form_cycle_effect(f, f2, config, names, 1),
        KeyInput::Backspace => {
            if f.field_index == 1 {
                crate::app::fields_eq_except(f2, f, crate::app::FormSlot::Target) && f2.target@
                    == popped(f.target@)
            } else if f.field_index == 2 {
                crate::app::fields_eq_except(f2, f, crate::app::FormSlot::DisplayName)
                    && f2.display_name@ == popped(f.display_name@)
            } else if f.field_index == 5 {
                crate::app::fields_eq_except(f2, f, crate::app::FormSlot::AiModel) && f2.ai_model@
                    == popped(f.ai_model@)
            } else if f.field_index == 6 {
                crate::app::fields_eq_except(f2, f, crate::app::FormSlot::AiEndpoint)
                    && f2.ai_endpoint@ == popped(f.ai_endpoint@)
            } else if f.field_index == 7 {
                crate::app::fields_eq_except(f2, f, crate::app::FormSlot::AiApiKey)
                    && f2.ai_api_key@ == popped(f.ai_api_key@)
            } else if f.field_index == 8 {
                crate::app::fields_eq_except(f2, f, crate::app::FormSlot::AiPrompt) && f2.ai_prompt@
                    == popped(f.ai_prompt@)
            } else {
                f2 == f
            }
        },
        KeyInput::Char(c) => {
            if f.field_index == 1 {
                crate::app::fields_eq_except(f2, f, crate::app::FormSlot::Target) && f2.target@
                    == f.target@.push(c)
            } else if f.field_index == 2 {
                crate::app::fields_eq_except(f2, f, crate::app::FormSlot::DisplayName)
                    && f2.display_name@ == f.display_name@.push(c)
            } else if f.field_index == 5 {
                crate::app::fields_eq_except(f2, f, crate::app::FormSlot::AiModel) && f2.ai_model@
                    == f.ai_model@.push(c)
            } else if f.field_index == 6 {
                crate::app::fields_eq_except(f2, f, crate::app::FormSlot::AiEndpoint)
                    && f2.ai_endpoint@ == f.ai_endpoint@.push(c)
            } else if f.field_index == 7 {
                crate::app::fields_eq_except(f2, f, crate::app::FormSlot::AiApiKey)
                    && f2.ai_api_key@ == f.ai_api_key@.push(c)
            } else if f.field_index == 8 {
                crate::app::fields_eq_except(f2, f, crate::app::FormSlot::AiPrompt) && f2.ai_prompt@
                    == f.ai_prompt@.push(c)
            } else {
                f2 == f
            }
        },
        _ => f2 == f,
    }
}

/// The left/right keys: they flip the kind on the kind field, toggle
/// analysis on its switch, and on the provider field cycle the selection
/// and pull that provider's defaults in.
pub open spec fn form_cycle_effect(
    f: crate::app::AddMonitorForm,
    f2: crate::app::AddMonitorForm,
    config: AppConfig,
    names: Seq<String>,
    delta: int,
) -> bool {
    if f.field_index == 0 {
        crate::app::fields_eq_except(f2, f, crate::app::FormSlot::Kind) && f2.kind == (match f.kind {
            crate::models::MonitorKind::Account => crate::models::MonitorKind::Phrase,
            crate::models::MonitorKind::Phrase => crate::models::MonitorKind::Account,
        })
    } else if f.field_index == 3 {
        crate::app::fields_eq_except(f2, f, crate::app::FormSlot::AiEnabled) && f2.ai_enabled == !f.ai_enabled
    } else if f.field_index == 4 {
        &&& f2.mode == f.mode
        &&& f2.field_index == f.field_index
        &&& f2.kind == f.kind
        &&& f2.target == f.target
        &&& f2.display_name == f.display_name
        &&& f2.ai_enabled == f.ai_enabled
        &&& f2.ai_prompt == f.ai_prompt
        &&& (names.len() == 0 ==> f2.ai_provider_index == 0)
        &&& (names.len() > 0 ==> f2.ai_provider_index as int == (f.ai_provider_index + delta)
            % (names.len() as int))
        &&& crate::app::provider_defaults_outcome(
            f2,
            config,
            names,
            f.ai_model@,
            f.ai_endpoint@,
            f.ai_api_key@,
        )
    } else {
        f2 == f
    }
}

pub fn handle_add_form_key(app: &mut App, key: KeyInput, has_client: bool, ts: &String) -> (intent:
    Intent)
    requires
        old(app).wf(),
        old(app).add_form matches Some(f) ==> f.field_index < 10 && f.ai_provider_index
            < 0x8000_0000,
        old(app).provider_names@.len() < 0x8000_0000,
    ensures
        final(app).wf(),
        old(app).add_form is None ==> final(app).add_form is None,
        final(app).add_form matches Some(f2) ==> f2.field_index < 10 && f2.ai_provider_index
            < 0x8000_0000,
        old(app).add_form matches Some(f) ==> ((key == KeyInput::Char('q') && !is_text_field(
            f.field_index,
        )) || key == KeyInput::Esc) ==> cancel_or_close(*old(app), *final(app), intent, has_client, *ts),
        old(app).add_form matches Some(f) ==> !form_exit_key(*old(app), f, key) ==> (final(app).add_form matches Some(f2) && form_key_effect(
            f,
            f2,
            key,
            old(app).config,
            old(app).provider_names@,
        ) && same_monitor_list(*old(app), *final(app)) && same_flags(*old(app), *final(app))
            && feed_untouched(*old(app), *final(app)) && final(app).edit_session == old(app).edit_session && final(app).target_file_picker == old(app).target_file_picker && (intent
            is Nothing || (key == KeyInput::Char('y') && intent is LoadTargetFiles))),
        old(app).add_form matches Some(f) ==> (key == KeyInput::Enter && f.field_index == 9)
            ==> submit_form_outcome(*old(app), *final(app), intent, has_client, *ts),
{
    let (field_index, is_editing_monitor): (usize, bool) = {
        let fi = match &app.add_form {
            Some(f) => f.field_index,
            None => 0,
        };
        (fi, app.edit_session.is_some())
    };
    let editing_text = field_index == 1 || field_index == 2 || field_index == 5 || field_index == 6
        || field_index == 7 || field_index == 8;
    let is_q = key == KeyInput::Char('q');
    if is_q && !editing_text {
        if is_editing_monitor {
            return cancel_monitor_edit(app, has_client, ts);
        } else {
            app.close_add_form();
            return Intent::Nothing;
        }
    }
    if key == KeyInput::Esc {
        if is_editing_monitor {
            return cancel_monitor_edit(app, has_client, ts);
        } else {
            app.close_add_form();
            return Intent::Nothing;
        }
    }
    if key == KeyInput::Char('y') && !is_editing_monitor && !editing_text {
        if app.add_form.is_some() {
            return Intent::LoadTargetFiles;
        }
    }
    if app.add_form.is_none() {
        return Intent::Nothing;
    }
    let mut submit_form = false;
    let config = app.config.clone();
    let names = crate::models::clone_string_vec(&app.provider_names);
    match &mut app.add_form {
        Some(form) => {
            match key {
                KeyInput::Up => form.move_field(-1),
                KeyInput::Down => form.move_field(1),
                KeyInput::Tab => form.move_field(1),
                KeyInput::BackTab => form.move_field(-1),
                KeyInput::Left => {
                    if form.field_index == 0 {
                        form.cycle_kind(-1);
                    } else if form.field_index == 3 {
                        form.ai_enabled = !form.ai_enabled;
                    } else if form.field_index == 4 {
                        form.cycle_provider(names.as_slice(), -1);
                        form.apply_provider_defaults(&config, names.as_slice());
                    }
                },
                KeyInput::Right => {
                    if form.field_index == 0 {
                        form.cycle_kind(1);
                    } else if form.field_index == 3 {
                        form.ai_enabled = !form.ai_enabled;
                    } else if form.field_index == 4 {
                        form.cycle_provider(names.as_slice(), 1);
                        form.apply_provider_defaults(&config, names.as_slice());
                    }
                },
                KeyInput::Backspace => {
                    if form.field_index == 1 {
                        form.target.pop();
                    } else if form.field_index == 2 {
                        form.display_name.pop();
                    } else if form.field_index == 5 {
                        form.ai_model.pop();
                    } else if form.field_index == 6 {
                        form.ai_endpoint.pop();
                    } else if form.field_index == 7 {
                        form.ai_api_key.pop();
                    } else if form.field_index == 8 {
                        form.ai_prompt.pop();
                    }
                },
                KeyInput::Enter => {
                    if form.field_index == 9 {
                        submit_form = true;
                    } else {
                        form.move_field(1);
                    }
                },
                KeyInput::Char(ch) => {
                    if form.field_index == 1 {
                        form.target.push(ch);
                    } else if form.field_index == 2 {
                        form.display_name.push(ch);
                    } else if form.field_index == 5 {
                        form.ai_model.push(ch);
                    } else if form.field_index == 6 {
                        form.ai_endpoint.push(ch);
                    } else if form.field_index == 7 {
                        form.ai_api_key.push(ch);
                    } else if form.field_index == 8 {
                        form.ai_prompt.push(ch);
                    }
                },
                _ => {},
            }
        },
        None => {},
    }
    if submit_form {
        submit_monitor_form(app, has_client, ts)
    } else {
        Intent::Nothing
    }
}

/// One key press at the top level: the picker and the form take precedence;
/// otherwise keys select, open the form, and start lifecycle operations.
pub fn handle_key(app: &mut App, key: KeyInput, has_client: bool, ts: &String) -> (intent: Intent)
    requires
        old(app).wf(),
        old(app).add_form matches Some(f) ==> f.field_index < 10 && f.ai_provider_index
            < 0x8000_0000,
        old(app).provider_names@.len() < 0x8000_0000,
    ensures
        final(app).wf(),
        old(app).target_file_picker is None && old(app).add_form is None ==> match key {
            KeyInput::Char(c) => {
                if c == 'q' {
                    final(app).should_quit == true
                } else if c == 'e' {
                    edit_selected_outcome(*old(app), *final(app), intent, has_client, *ts)
                } else if c == 's' {
                    toggle_outcome(*old(app), *final(app), intent, has_client, *ts)
                } else if c == 'd' {
                    delete_selected_outcome(*old(app), *final(app), intent, has_client, *ts)
                } else if c == 'r' {
                    reconnect_selected_outcome(*old(app), *final(app), intent, has_client, *ts)
                } else if c == 'x' {
                    terminate_outcome(*old(app), *final(app), intent, has_client, *ts)
                } else if c == 'o' {
                    open_url_outcome(*old(app), *final(app), intent, *ts)
                } else if c == 'c' {
                    final(app).feed@.len() == 0 && final(app).status@ == "Feed cleared"@
                } else if c == 'a' {
                    final(app).add_form is Some && final(app).edit_session is None
                } else {
                    true
                }
            },
            KeyInput::Tab => final(app).focus == (match old(app).focus {
                crate::app::FocusPane::Monitors => crate::app::FocusPane::Feed,
                crate::app::FocusPane::Feed => crate::app::FocusPane::Monitors,
            }),
            _ => true,
        },
{
    if app.target_file_picker.is_some() {
        return handle_target_file_picker_key(app, key, has_client, ts);
    }
    if app.add_form.is_some() {
        return handle_add_form_key(app, key, has_client, ts);
    }
    match key {
        KeyInput::Char(c) => {
            if c == 'q' {
                app.should_quit = true;
                Intent::Nothing
            } else if c == 'a' {
                app.open_add_form();
                Intent::Nothing
            } else if c == 'e' {
                edit_selected_monitor(app, has_client, ts)
            } else if c == 's' {
                toggle_selected_monitor_activation(app, has_client, ts)
            } else if c == 'd' {
                delete_selected_monitor(app, has_client, ts)
            } else if c == 'r' {
                reconnect_selected_monitor(app, has_client, ts)
            } else if c == 'x' {
                terminate_all_connections(app, has_client, ts)
            } else if c == 'o' {
                open_selected_feed_url(app, ts)
            } else if c == 'c' {
                app.clear_feed();
                app.status = "Feed cleared".to_owned();
                Intent::Nothing
            } else {
                Intent::Nothing
            }
        },
        KeyInput::Tab => {
            app.toggle_focus();
            Intent::Nothing
        },
        KeyInput::Up => {
            app.move_selection_up();
            Intent::Nothing
        },
        KeyInput::Down => {
            app.move_selection_down();
            Intent::Nothing
        },
        _ => Intent::Nothing,
    }
}

} // verus!
