//! Rule lifecycle decisions: create, activate, deactivate, reconnect, and
//! the edit flow with its rollback, plus interpretation of remote rule-list
//! and terminate responses.
//!
//! Each user-triggered operation runs outside as an asynchronous unit of
//! work; the decisions in between its remote calls live here, as functions
//! from the call results to the one completion message the unit sends.

use vstd::prelude::*;
use crate::models::{Monitor, PendingMonitor};
use crate::msg::Msg;
use crate::stream::{format_errors, format_errors_spec, ApiErrorInfo};
use crate::text::{
    contains_seq, dec_of, lemma_push_deep_view, lower_seq, starts_with_seq, starts_with_sub,
    str_concat, str_to_chars, to_lower_chars, trim_seq, trim_chars, u64_to_string,
};

verus! {

/// Whether an error text reports the remote rule as already gone.
pub open spec fn is_not_found_spec(t: Seq<char>) -> bool {
    contains_seq(lower_seq(t), "404"@) || contains_seq(lower_seq(t), "not found"@)
}

/// Recognise a "rule not found" failure from a remote delete: such a delete
/// already reached the desired end state and counts as success.
pub fn is_rule_not_found_error(text: &str) -> (r: bool)
    ensures
        r == is_not_found_spec(text@),
{
    let v = str_to_chars(text);
    let lowered = to_lower_chars(&v);
    let n1 = str_to_chars("404");
    let n2 = str_to_chars("not found");
    crate::text::contains_sub(&lowered, &n1) || crate::text::contains_sub(&lowered, &n2)
}

/// A delete outcome folded through the idempotency rule: success stays
/// success, "not found" is reclassified as success (the rule is already
/// gone), and any other failure aborts with the operation's error text.
pub fn delete_outcome_tolerant(r: &Result<(), String>, ctx: &str) -> (out: Result<(), String>)
    ensures
        r is Ok ==> out is Ok,
        r matches Err(e) ==> (is_not_found_spec(e@) ==> out is Ok),
        r matches Err(e) ==> (!is_not_found_spec(e@) ==> (out matches Err(c) && c@ == ctx@)),
{
    match r {
        Ok(_) => Ok(()),
        Err(e) => {
            if is_rule_not_found_error(e.as_str()) {
                Ok(())
            } else {
                Err(ctx.to_owned())
            }
        },
    }
}

/// Whether this monitor currently holds a remote rule that a lifecycle
/// operation must delete first.
pub fn needs_rule_delete(monitor: &Monitor) -> (r: bool)
    ensures
        r == (trim_seq(monitor.rule_id@).len() != 0),
{
    let v = str_to_chars(monitor.rule_id.as_str());
    let t = trim_chars(&v);
    t.len() != 0
}

/// The monitor built from a validated pending monitor once the remote rule
/// exists.
pub fn monitor_from_pending(pending: PendingMonitor, rule_id: String, created_at_ms: u64) -> (m:
    Monitor)
    ensures
        m.id == pending.id,
        m.label == pending.label,
        m.kind == pending.kind,
        m.enabled == pending.enabled,
        m.input_value == pending.input_value,
        m.query == pending.query,
        m.rule_id == rule_id,
        m.rule_tag == pending.rule_tag,
        m.analysis == pending.analysis,
        m.created_at_ms == created_at_ms,
{
    Monitor {
        id: pending.id,
        label: pending.label,
        kind: pending.kind,
        enabled: pending.enabled,
        input_value: pending.input_value,
        query: pending.query,
        rule_id,
        rule_tag: pending.rule_tag,
        analysis: pending.analysis,
        created_at_ms,
    }
}

/// Finish the create operation: a created rule yields the new monitor,
/// carrying the pending monitor's identity and the fresh rule id; a failed
/// creation aborts with the operation's error text.
pub fn create_finish(pending: PendingMonitor, add_result: Result<String, String>, created_at_ms: u64) -> (out:
    Result<Monitor, String>)
    ensures
        add_result matches Ok(rid) ==> (out matches Ok(m) && m.id == pending.id && m.label
            == pending.label && m.kind == pending.kind && m.enabled == pending.enabled
            && m.input_value == pending.input_value && m.query == pending.query && m.rule_id == rid
            && m.rule_tag == pending.rule_tag && m.analysis == pending.analysis && m.created_at_ms
            == created_at_ms),
        add_result is Err ==> (out matches Err(e) && e@ == "x rule creation failed"@),
{
    match add_result {
        Ok(rule_id) => Ok(monitor_from_pending(pending, rule_id, created_at_ms)),
        Err(_) => Err("x rule creation failed".to_owned()),
    }
}

/// Gate between the delete and create phases of a reconnect: with no rule
/// to delete, or a delete that succeeded or found the rule already gone,
/// the operation proceeds; any other delete failure aborts it.
pub fn reconnect_delete_gate(delete_result: &Option<Result<(), String>>) -> (out: Result<
    (),
    String,
>)
    ensures
        delete_result is None ==> out is Ok,
        delete_result matches Some(r) ==> (r is Ok ==> out is Ok),
        delete_result matches Some(r) ==> (r matches Err(e) ==> (is_not_found_spec(e@) ==> out
            is Ok)),
        delete_result matches Some(r) ==> (r matches Err(e) ==> (!is_not_found_spec(e@) ==> (out
            matches Err(c) && c@ == "x rule deletion failed during reconnect"@))),
{
    match delete_result {
        None => Ok(()),
        Some(r) => delete_outcome_tolerant(r, "x rule deletion failed during reconnect"),
    }
}

/// Finish a reconnect: a created rule re-activates the monitor under its
/// new rule id; a failed creation aborts with the operation's error text.
pub fn reconnect_finish(monitor: &Monitor, add_result: Result<String, String>) -> (out: Result<
    (String, String, String),
    String,
>)
    ensures
        add_result matches Ok(rid) ==> (out matches Ok(t) && t.0@ == monitor.id@ && t.1@
            == monitor.label@ && t.2 == rid),
        add_result is Err ==> (out matches Err(e) && e@
            == "x rule creation failed during reconnect"@),
{
    match add_result {
        Ok(rule_id) => Ok((monitor.id.clone(), monitor.label.clone(), rule_id)),
        Err(_) => Err("x rule creation failed during reconnect".to_owned()),
    }
}

/// Finish an activate: the monitor had no remote rule; a created rule
/// activates it, a failed creation aborts.
pub fn activate_finish(monitor: &Monitor, add_result: Result<String, String>) -> (out: Result<
    (String, String, String),
    String,
>)
    ensures
        add_result matches Ok(rid) ==> (out matches Ok(t) && t.0@ == monitor.id@ && t.1@
            == monitor.label@ && t.2 == rid),
        add_result is Err ==> (out matches Err(e) && e@
            == "x rule creation failed while activating target"@),
{
    match add_result {
        Ok(rule_id) => Ok((monitor.id.clone(), monitor.label.clone(), rule_id)),
        Err(_) => Err("x rule creation failed while activating target".to_owned()),
    }
}

/// Finish a deactivate: only the remote rule is removed; the monitor record
/// stays. With no rule there is nothing to delete and the operation
/// succeeds at once; a delete that reports "not found" also succeeds.
pub fn deactivate_finish(monitor: &Monitor, delete_result: &Option<Result<(), String>>) -> (out:
    Result<(String, String), String>)
    ensures
        delete_result is None ==> (out matches Ok(t) && t.0@ == monitor.id@ && t.1@
            == monitor.label@),
        delete_result matches Some(r) ==> (r is Ok ==> (out matches Ok(t) && t.0@ == monitor.id@
            && t.1@ == monitor.label@)),
        delete_result matches Some(r) ==> (r matches Err(e) ==> (is_not_found_spec(e@) ==> (out
            matches Ok(t) && t.0@ == monitor.id@ && t.1@ == monitor.label@))),
        delete_result matches Some(r) ==> (r matches Err(e) ==> (!is_not_found_spec(e@) ==> (out
            matches Err(c) && c@ == "x rule deletion failed while deactivating target"@))),
{
    match delete_result {
        None => Ok((monitor.id.clone(), monitor.label.clone())),
        Some(r) => {
            match delete_outcome_tolerant(r, "x rule deletion failed while deactivating target") {
                Ok(_) => Ok((monitor.id.clone(), monitor.label.clone())),
                Err(e) => Err(e),
            }
        },
    }
}

/// Finish a delete: the remote rule was removed (or the monitor had none);
/// the local record is removed by the application loop on success. Unlike
/// deactivate, a remote failure other than "not found" keeps the record.
pub fn delete_monitor_finish(monitor: &Monitor, delete_result: &Option<Result<(), String>>) -> (out:
    Result<(String, String), String>)
    ensures
        delete_result is None ==> (out matches Ok(t) && t.0@ == monitor.id@ && t.1@
            == monitor.label@),
        delete_result matches Some(r) ==> (r is Ok ==> (out matches Ok(t) && t.0@ == monitor.id@
            && t.1@ == monitor.label@)),
        delete_result matches Some(r) ==> (r matches Err(e) ==> (out matches Err(c) && c@ == e@)),
{
    match delete_result {
        None => Ok((monitor.id.clone(), monitor.label.clone())),
        Some(r) => match r {
            Ok(_) => Ok((monitor.id.clone(), monitor.label.clone())),
            Err(e) => Err(e.clone()),
        },
    }
}

/// Outcome of the edit-prepare phase: the remote rule is disconnected
/// first, and the edit form opens only if that succeeded ("not found"
/// counting as success).
pub fn edit_prepare_outcome(monitor: Monitor, delete_result: &Result<(), String>) -> (out: Result<
    Monitor,
    String,
>)
    ensures
        delete_result is Ok ==> out == Ok::<Monitor, String>(monitor),
        delete_result matches Err(e) ==> (is_not_found_spec(e@) ==> out == Ok::<Monitor, String>(
            monitor,
        )),
        delete_result matches Err(e) ==> (!is_not_found_spec(e@) ==> (out matches Err(c) && c@
            == "x rule deletion failed before edit"@)),
{
    match delete_outcome_tolerant(delete_result, "x rule deletion failed before edit") {
        Ok(_) => Ok(monitor),
        Err(e) => Err(e),
    }
}

/// Finish the automatic restore that follows an edit cancel or a failed
/// commit: the rule is recreated from the pre-edit monitor, so a created
/// rule re-activates that monitor under its original identity.
pub fn restore_finish(original: &Monitor, add_result: Result<String, String>) -> (out: Result<
    (String, String, String),
    String,
>)
    ensures
        add_result matches Ok(rid) ==> (out matches Ok(t) && t.0@ == original.id@ && t.1@
            == original.label@ && t.2 == rid),
        add_result is Err ==> (out matches Err(e) && e@
            == "x rule creation failed while reconnecting after edit"@),
{
    match add_result {
        Ok(rule_id) => Ok((original.id.clone(), original.label.clone(), rule_id)),
        Err(_) => Err("x rule creation failed while reconnecting after edit".to_owned()),
    }
}

/// The messages a failed edit commit sends after its one restore attempt:
/// on restore success, the restored activation plus the commit error noting
/// the restore; on restore failure, one message carrying both errors, and
/// the monitor stays inactive.
pub fn edit_commit_followup(commit_error: &String, restore: Result<
    (String, String, String),
    String,
>) -> (msgs: Vec<Msg>)
    ensures
        restore matches Ok(t) ==> msgs@.len() == 2 && (msgs@[0] matches Msg::MonitorReconnected(r)
            && r == Ok::<(String, String, String), String>(t)) && (msgs@[1] matches
            Msg::MonitorEdited(r2) && r2 matches Err(m) && m@ == commit_error@
            + "; original target was restored"@),
        restore matches Err(re) ==> msgs@.len() == 1 && (msgs@[0] matches Msg::MonitorEdited(r)
            && r matches Err(m) && m@ == commit_error@ + "; restore failed: "@ + re@),
{
    let mut msgs: Vec<Msg> = Vec::new();
    match restore {
        Ok(t) => {
            msgs.push(Msg::MonitorReconnected(Ok(t)));
            let mut m = commit_error.clone();
            m.append("; original target was restored");
            msgs.push(Msg::MonitorEdited(Err(m)));
        },
        Err(re) => {
            let mut m = commit_error.clone();
            m.append("; restore failed: ");
            m.append(re.as_str());
            msgs.push(Msg::MonitorEdited(Err(m)));
        },
    }
    msgs
}

/// One remote filter rule, as the rule-list endpoint reports it.
#[derive(Debug, Clone)]
pub struct StreamRule {
    pub id: String,
    pub tag: Option<String>,
}

/// The ids of the rules whose tag equals `tag`.
pub open spec fn ids_with_tag(rules: Seq<StreamRule>, tag: Seq<char>) -> Seq<Seq<char>>
    decreases rules.len(),
{
    if rules.len() == 0 {
        Seq::<Seq<char>>::empty()
    } else {
        (match rules[0].tag {
            Some(t) => if t@ == tag {
                seq![rules[0].id@]
            } else {
                Seq::<Seq<char>>::empty()
            },
            None => Seq::<Seq<char>>::empty(),
        }) + ids_with_tag(rules.drop_first(), tag)
    }
}

/// The ids of the rules whose tag starts with `prefix`.
pub open spec fn ids_with_tag_prefix(rules: Seq<StreamRule>, prefix: Seq<char>) -> Seq<Seq<char>>
    decreases rules.len(),
{
    if rules.len() == 0 {
        Seq::<Seq<char>>::empty()
    } else {
        (match rules[0].tag {
            Some(t) => if starts_with_seq(t@, prefix) {
                seq![rules[0].id@]
            } else {
                Seq::<Seq<char>>::empty()
            },
            None => Seq::<Seq<char>>::empty(),
        }) + ids_with_tag_prefix(rules.drop_first(), prefix)
    }
}

/// Select the rules to delete when removing everything behind one tag.
pub fn rule_ids_with_tag(rules: &Vec<StreamRule>, tag: &str) -> (r: Vec<String>)
    ensures
        r.deep_view() == ids_with_tag(rules@, tag@),
{
    let tv = str_to_chars(tag);
    let mut r: Vec<String> = Vec::new();
    let mut i: usize = 0;
    proof {
        assert(rules@.skip(0) =~= rules@);
        assert(r.deep_view() =~= Seq::<Seq<char>>::empty());
    }
    while i < rules.len()
        invariant
            i <= rules@.len(),
            tv@ == tag@,
            ids_with_tag(rules@, tag@) == r.deep_view() + ids_with_tag(
                rules@.skip(i as int),
                tag@,
            ),
        decreases rules@.len() - i,
    {
        proof {
            assert(rules@.skip(i as int)[0] == rules@[i as int]);
            assert(rules@.skip(i as int).drop_first() =~= rules@.skip(i + 1));
        }
        let keep: bool = match &rules[i].tag {
            Some(t) => {
                let tc = str_to_chars(t.as_str());
                crate::text::eq_chars(&tc, &tv)
            },
            None => false,
        };
        if keep {
            let ghost pre = r;
            r.push(rules[i].id.clone());
            proof {
                lemma_push_deep_view(pre, r, r@[r@.len() - 1]);
                assert(pre.deep_view() + (seq![rules@[i as int].id@] + ids_with_tag(
                    rules@.skip(i + 1),
                    tag@,
                )) =~= r.deep_view() + ids_with_tag(rules@.skip(i + 1), tag@));
            }
        } else {
            proof {
                assert(r.deep_view() + (Seq::<Seq<char>>::empty() + ids_with_tag(
                    rules@.skip(i + 1),
                    tag@,
                )) =~= r.deep_view() + ids_with_tag(rules@.skip(i + 1), tag@));
            }
        }
        i += 1;
    }
    proof {
        assert(rules@.skip(rules@.len() as int) =~= Seq::<StreamRule>::empty());
        assert(ids_with_tag(rules@, tag@) =~= r.deep_view());
    }
    r
}

/// Select the rules to delete when removing everything behind a tag prefix.
pub fn rule_ids_with_tag_prefix(rules: &Vec<StreamRule>, prefix: &str) -> (r: Vec<String>)
    ensures
        r.deep_view() == ids_with_tag_prefix(rules@, prefix@),
{
    let pv = str_to_chars(prefix);
    let mut r: Vec<String> = Vec::new();
    let mut i: usize = 0;
    proof {
        assert(rules@.skip(0) =~= rules@);
        assert(r.deep_view() =~= Seq::<Seq<char>>::empty());
    }
    while i < rules.len()
        invariant
            i <= rules@.len(),
            pv@ == prefix@,
            ids_with_tag_prefix(rules@, prefix@) == r.deep_view() + ids_with_tag_prefix(
                rules@.skip(i as int),
                prefix@,
            ),
        decreases rules@.len() - i,
    {
        proof {
            assert(rules@.skip(i as int)[0] == rules@[i as int]);
            assert(rules@.skip(i as int).drop_first() =~= rules@.skip(i + 1));
        }
        let keep: bool = match &rules[i].tag {
            Some(t) => {
                let tc = str_to_chars(t.as_str());
                starts_with_sub(&tc, &pv)
            },
            None => false,
        };
        if keep {
            let ghost pre = r;
            r.push(rules[i].id.clone());
            proof {
                lemma_push_deep_view(pre, r, r@[r@.len() - 1]);
                assert(pre.deep_view() + (seq![rules@[i as int].id@] + ids_with_tag_prefix(
                    rules@.skip(i + 1),
                    prefix@,
                )) =~= r.deep_view() + ids_with_tag_prefix(rules@.skip(i + 1), prefix@));
            }
        } else {
            proof {
                assert(r.deep_view() + (Seq::<Seq<char>>::empty() + ids_with_tag_prefix(
                    rules@.skip(i + 1),
                    prefix@,
                )) =~= r.deep_view() + ids_with_tag_prefix(rules@.skip(i + 1), prefix@));
            }
        }
        i += 1;
    }
    proof {
        assert(rules@.skip(rules@.len() as int) =~= Seq::<StreamRule>::empty());
        assert(ids_with_tag_prefix(rules@, prefix@) =~= r.deep_view());
    }
    r
}

/// What the terminate-connections endpoint reported, already decoded.
#[derive(Debug, Clone)]
pub struct TerminateData {
    pub killed_connections: Option<bool>,
    pub successful_kills: Option<u64>,
    pub failed_kills: Option<u64>,
}

pub open spec fn terminate_core(d: TerminateData) -> Seq<char> {
    if d.successful_kills is Some || d.failed_kills is Some {
        "terminate-all complete (successful: "@ + dec_of(
            (match d.successful_kills {
                Some(n) => n,
                None => 0,
            }) as nat,
        ) + ", failed: "@ + dec_of(
            (match d.failed_kills {
                Some(n) => n,
                None => 0,
            }) as nat,
        ) + ")"@
    } else if d.killed_connections == Some(false) {
        "terminate-all complete (no active stream connections)"@
    } else {
        "terminated all active stream connections"@
    }
}

pub open spec fn has_warnings(errors: Option<Vec<ApiErrorInfo>>) -> bool {
    match errors {
        Some(es) => es@.len() > 0,
        None => false,
    }
}

/// Summarise a decoded terminate-connections response: kill counts or the
/// no-connections note when data is present, with any warnings appended;
/// errors without data fail the operation.
pub fn terminate_summary(data: &Option<TerminateData>, errors: &Option<Vec<ApiErrorInfo>>) -> (out:
    Result<String, String>)
    ensures
        data matches Some(d) ==> (out matches Ok(s) && (has_warnings(*errors) ==> (errors matches
            Some(es) && s@ == terminate_core(*d) + "; warnings: "@ + format_errors_spec(es@))) && (
        !has_warnings(*errors) ==> s@ == terminate_core(*d))),
        data is None && has_warnings(*errors) ==> (out matches Err(e) && (errors matches Some(es)
            && e@ == "terminate-all returned errors: "@ + format_errors_spec(es@))),
        data is None && !has_warnings(*errors) ==> (out matches Ok(s) && s@
            == "terminated all active stream connections"@),
{
    let warnings: Option<String> = match errors {
        Some(es) => {
            if es.len() > 0 {
                Some(format_errors(es))
            } else {
                None
            }
        },
        None => None,
    };
    let summary: String = match data {
        Some(d) => {
            if d.successful_kills.is_some() || d.failed_kills.is_some() {
                let successful: u64 = match d.successful_kills {
                    Some(n) => n,
                    None => 0,
                };
                let failed: u64 = match d.failed_kills {
                    Some(n) => n,
                    None => 0,
                };
                let mut s = "terminate-all complete (successful: ".to_owned();
                let sn = u64_to_string(successful);
                s.append(sn.as_str());
                s.append(", failed: ");
                let fnum = u64_to_string(failed);
                s.append(fnum.as_str());
                s.append(")");
                proof {
                    assert(s@ =~= terminate_core(*d));
                }
                s
            } else {
                let no_active: bool = match d.killed_connections {
                    Some(b) => !b,
                    None => false,
                };
                if no_active {
                    "terminate-all complete (no active stream connections)".to_owned()
                } else {
                    "terminated all active stream connections".to_owned()
                }
            }
        },
        None => {
            match &warnings {
                Some(rendered) => {
                    return Err(
                        str_concat("terminate-all returned errors: ", rendered.as_str()),
                    );
                },
                None => "terminated all active stream connections".to_owned(),
            }
        },
    };
    match warnings {
        Some(w) => {
            let mut s = summary;
            s.append("; warnings: ");
            s.append(w.as_str());
            Ok(s)
        },
        None => Ok(summary),
    }
}

} // verus!
