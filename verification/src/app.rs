//! The monitor form and the application state (monitor store, bounded
//! feed, selection and focus, transient per-monitor flags).

use vstd::prelude::*;
use vstd::arithmetic::div_mod::{lemma_add_mod_noop, lemma_mod_pos_bound, lemma_sub_mod_noop};
use crate::config::{find_provider_idx, name_matches, names_match, AppConfig};
use crate::ids::fresh_monitor_id;
use crate::models::{
    build_query, build_query_spec, parse_account_handles, parse_handles_spec, AnalysisSettings,
    FeedItem, FeedKind, Monitor, MonitorKind, PendingMonitor, StreamPost,
};
use crate::target_files::TargetFileEntry;
use crate::text::{
    join_seqs, join_strings, lemma_push_deep_view, str_concat, str_to_chars, trim_seq, trim_str,
};

verus! {

/// Which pane has keyboard focus.
#[derive(Debug, Clone, Copy, PartialEq, Eq, Structural)]
pub enum FocusPane {
    Monitors,
    Feed,
}

/// Whether the monitor form adds a new monitor or edits an existing one.
#[derive(Debug, Clone, Copy, PartialEq, Eq, Structural)]
pub enum MonitorFormMode {
    Add,
    Edit,
}

/// A label for one part of the form, used to say "every other field is
/// unchanged" in contracts.
#[derive(Debug, Clone, Copy, PartialEq, Eq, Structural)]
pub enum FormSlot {
    FieldIndex,
    Kind,
    Target,
    DisplayName,
    AiEnabled,
    ProviderIndex,
    AiModel,
    AiEndpoint,
    AiApiKey,
    AiPrompt,
    /// The three fields `apply_provider_defaults` rewrites.
    ProviderDefaults,
}

/// The in-progress monitor form.
#[derive(Debug)]
pub struct AddMonitorForm {
    pub mode: MonitorFormMode,
    pub field_index: usize,
    pub kind: MonitorKind,
    pub target: String,
    pub display_name: String,
    pub ai_enabled: bool,
    pub ai_provider_index: usize,
    pub ai_model: String,
    pub ai_endpoint: String,
    pub ai_api_key: String,
    pub ai_prompt: String,
}

impl Clone for AddMonitorForm {
    fn clone(&self) -> (r: Self)
        ensures
            r == *self,
    {
        AddMonitorForm {
            mode: self.mode,
            field_index: self.field_index,
            kind: self.kind,
            target: self.target.clone(),
            display_name: self.display_name.clone(),
            ai_enabled: self.ai_enabled,
            ai_provider_index: self.ai_provider_index,
            ai_model: self.ai_model.clone(),
            ai_endpoint: self.ai_endpoint.clone(),
            ai_api_key: self.ai_api_key.clone(),
            ai_prompt: self.ai_prompt.clone(),
        }
    }
}

/// All form fields outside the named slot agree.
pub open spec fn fields_eq_except(a: AddMonitorForm, b: AddMonitorForm, slot: FormSlot) -> bool {
    &&& a.mode == b.mode
    &&& slot != FormSlot::FieldIndex ==> a.field_index == b.field_index
    &&& slot != FormSlot::Kind ==> a.kind == b.kind
    &&& slot != FormSlot::Target ==> a.target == b.target
    &&& slot != FormSlot::DisplayName ==> a.display_name == b.display_name
    &&& slot != FormSlot::AiEnabled ==> a.ai_enabled == b.ai_enabled
    &&& slot != FormSlot::ProviderIndex ==> a.ai_provider_index == b.ai_provider_index
    &&& slot != FormSlot::AiModel && slot != FormSlot::ProviderDefaults ==> a.ai_model == b.ai_model
    &&& slot != FormSlot::AiEndpoint && slot != FormSlot::ProviderDefaults ==> a.ai_endpoint
        == b.ai_endpoint
    &&& slot != FormSlot::AiApiKey && slot != FormSlot::ProviderDefaults ==> a.ai_api_key
        == b.ai_api_key
    &&& slot != FormSlot::AiPrompt ==> a.ai_prompt == b.ai_prompt
}

/// First index of `names` equal to `target`, or the length.
pub open spec fn first_eq_idx(names: Seq<String>, target: Seq<char>) -> int
    decreases names.len(),
{
    if names.len() == 0 {
        0
    } else if names[0]@ == target {
        0
    } else {
        1 + first_eq_idx(names.drop_first(), target)
    }
}

proof fn lemma_first_eq_at(names: Seq<String>, target: Seq<char>, i: int)
    requires
        0 <= i <= names.len(),
        forall|k: int| 0 <= k < i ==> #[trigger] names[k]@ != target,
        i == names.len() || names[i]@ == target,
    ensures
        first_eq_idx(names, target) == i,
    decreases names.len(),
{
    if names.len() == 0 {
    } else if names[0]@ == target {
    } else {
        lemma_first_eq_at(names.drop_first(), target, i - 1);
    }
}

/// First index of `names` matching `target` up to ASCII case, or the
/// length.
pub open spec fn first_ci_idx(names: Seq<String>, target: Seq<char>) -> int
    decreases names.len(),
{
    if names.len() == 0 {
        0
    } else if name_matches(names[0]@, target) {
        0
    } else {
        1 + first_ci_idx(names.drop_first(), target)
    }
}

proof fn lemma_first_ci_at(names: Seq<String>, target: Seq<char>, i: int)
    requires
        0 <= i <= names.len(),
        forall|k: int| 0 <= k < i ==> !name_matches(#[trigger] names[k]@, target),
        i == names.len() || name_matches(names[i]@, target),
    ensures
        first_ci_idx(names, target) == i,
    decreases names.len(),
{
    if names.len() == 0 {
    } else if name_matches(names[0]@, target) {
    } else {
        lemma_first_ci_at(names.drop_first(), target, i - 1);
    }
}

fn position_eq(names: &[String], target: &str) -> (r: usize)
    ensures
        r == first_eq_idx(names@, target@),
        r <= names@.len(),
{
    let mut i: usize = 0;
    while i < names.len()
        invariant
            i <= names@.len(),
            forall|k: int| 0 <= k < i ==> #[trigger] names@[k]@ != target@,
        decreases names@.len() - i,
    {
        let nv = str_to_chars(names[i].as_str());
        let tv = str_to_chars(target);
        if crate::text::eq_chars(&nv, &tv) {
            proof {
                lemma_first_eq_at(names@, target@, i as int);
            }
            return i;
        }
        i += 1;
    }
    proof {
        lemma_first_eq_at(names@, target@, names@.len() as int);
    }
    names.len()
}

fn position_ci_names(names: &[String], target: &str) -> (r: usize)
    ensures
        r == first_ci_idx(names@, target@),
        r <= names@.len(),
{
    let mut i: usize = 0;
    while i < names.len()
        invariant
            i <= names@.len(),
            forall|k: int| 0 <= k < i ==> !name_matches(#[trigger] names@[k]@, target@),
        decreases names@.len() - i,
    {
        if names_match(names[i].as_str(), target) {
            proof {
                lemma_first_ci_at(names@, target@, i as int);
            }
            return i;
        }
        i += 1;
    }
    proof {
        lemma_first_ci_at(names@, target@, names@.len() as int);
    }
    names.len()
}

/// The provider name the form points at: the indexed name, else the first,
/// else the built-in default.
pub open spec fn selected_provider_spec(form: AddMonitorForm, names: Seq<String>) -> Seq<char> {
    if form.ai_provider_index < names.len() {
        names[form.ai_provider_index as int]@
    } else if names.len() > 0 {
        names[0]@
    } else {
        "grok"@
    }
}

/// Stepping an index by `delta` around a ring of `len` entries.
pub fn cycle_index(idx: usize, delta: i32, len: usize) -> (r: usize)
    requires
        0 < len < 0x8000_0000,
        idx < 0x8000_0000,
    ensures
        r < len,
        r as int == (idx + delta) % (len as int),
{
    let l: u64 = len as u64;
    let base: u64 = (idx as u64) % l;
    let r: u64 = if delta >= 0 {
        let d: u64 = (delta as u64) % l;
        proof {
            lemma_add_mod_noop(idx as int, delta as int, l as int);
        }
        (base + d) % l
    } else {
        let nd: u64 = ((-(delta as i64)) as u64) % l;
        proof {
            lemma_sub_mod_noop(idx as int, -(delta as int), l as int);
            vstd::arithmetic::div_mod::lemma_mod_add_multiples_vanish(
                idx as int % (l as int) - (-(delta as int)) % (l as int),
                l as int,
            );
        }
        (base + (l - nd)) % l
    };
    proof {
        vstd::arithmetic::div_mod::lemma_mod_bound(idx as int + delta as int, l as int);
    }
    r as usize
}

/// What a fresh add-monitor form holds: account kind, empty text fields,
/// the default prompt, the default provider selected, and that provider's
/// defaults applied.
pub open spec fn fresh_add_form(
    r: AddMonitorForm,
    config: AppConfig,
    names: Seq<String>,
    default_provider: Seq<char>,
) -> bool {
    &&& r.mode == MonitorFormMode::Add
    &&& r.field_index == 0
    &&& r.kind == MonitorKind::Account
    &&& r.target@.len() == 0
    &&& r.display_name@.len() == 0
    &&& r.ai_enabled == false
    &&& r.ai_provider_index == (if first_eq_idx(names, default_provider) < names.len() {
        first_eq_idx(names, default_provider)
    } else {
        0
    })
    &&& r.ai_prompt@ == "Summarize why this post matters and what to watch next."@
    &&& provider_defaults_outcome(
        r,
        config,
        names,
        Seq::<char>::empty(),
        Seq::<char>::empty(),
        Seq::<char>::empty(),
    )
}

impl AddMonitorForm {
    /// A fresh form for adding a monitor.
    pub fn new(config: &AppConfig, provider_names: &[String], default_provider: &str) -> (r: Self)
        ensures
            fresh_add_form(r, *config, provider_names@, default_provider@),
    {
        let ai_provider_index = {
            let p = position_eq(provider_names, default_provider);
            if p < provider_names.len() {
                p
            } else {
                0
            }
        };
        let mut form = AddMonitorForm {
            mode: MonitorFormMode::Add,
            field_index: 0,
            kind: MonitorKind::Account,
            target: String::new(),
            display_name: String::new(),
            ai_enabled: false,
            ai_provider_index,
            ai_model: String::new(),
            ai_endpoint: String::new(),
            ai_api_key: String::new(),
            ai_prompt: "Summarize why this post matters and what to watch next.".to_owned(),
        };
        form.apply_provider_defaults(config, provider_names);
        form
    }

    /// The form pre-filled from an existing monitor, for editing.
    pub fn from_monitor(config: &AppConfig, provider_names: &[String], monitor: &Monitor) -> (r:
        Self)
        ensures
            r.mode == MonitorFormMode::Edit,
            r.field_index == 0,
            r.kind == monitor.kind,
            r.target == monitor.input_value,
            r.display_name == monitor.label,
            r.ai_enabled == monitor.analysis.enabled,
            r.ai_provider_index == (if first_ci_idx(provider_names@, monitor.analysis.provider@)
                < provider_names@.len() {
                first_ci_idx(provider_names@, monitor.analysis.provider@)
            } else if first_ci_idx(provider_names@, config.default_ai_provider@)
                < provider_names@.len() {
                first_ci_idx(provider_names@, config.default_ai_provider@)
            } else {
                0
            }),
            r.ai_model == monitor.analysis.model,
            r.ai_endpoint == monitor.analysis.endpoint,
            r.ai_api_key == monitor.analysis.api_key,
            r.ai_prompt == monitor.analysis.prompt,
    {
        let default_index = {
            let p = position_ci_names(provider_names, config.default_ai_provider.as_str());
            if p < provider_names.len() {
                p
            } else {
                0
            }
        };
        let ai_provider_index = {
            let p = position_ci_names(provider_names, monitor.analysis.provider.as_str());
            if p < provider_names.len() {
                p
            } else {
                default_index
            }
        };
        AddMonitorForm {
            mode: MonitorFormMode::Edit,
            field_index: 0,
            kind: monitor.kind,
            target: monitor.input_value.clone(),
            display_name: monitor.label.clone(),
            ai_enabled: monitor.analysis.enabled,
            ai_provider_index,
            ai_model: monitor.analysis.model.clone(),
            ai_endpoint: monitor.analysis.endpoint.clone(),
            ai_api_key: monitor.analysis.api_key.clone(),
            ai_prompt: monitor.analysis.prompt.clone(),
        }
    }

    /// The provider name the form points at.
    pub fn selected_provider(&self, provider_names: &[String]) -> (r: String)
        ensures
            r@ == selected_provider_spec(*self, provider_names@),
    {
        if self.ai_provider_index < provider_names.len() {
            provider_names[self.ai_provider_index].clone()
        } else if provider_names.len() > 0 {
            provider_names[0].clone()
        } else {
            "grok".to_owned()
        }
    }

    /// Step the provider selection around the provider list.
    pub fn cycle_provider(&mut self, provider_names: &[String], delta: i32)
        requires
            old(self).ai_provider_index < 0x8000_0000,
            provider_names@.len() < 0x8000_0000,
        ensures
            fields_eq_except(*final(self), *old(self), FormSlot::ProviderIndex),
            provider_names@.len() == 0 ==> final(self).ai_provider_index == 0,
            provider_names@.len() > 0 ==> final(self).ai_provider_index as int == (old(self).ai_provider_index + delta) % (provider_names@.len() as int),
    {
        if provider_names.len() == 0 {
            self.ai_provider_index = 0;
            return ;
        }
        self.ai_provider_index = cycle_index(
            self.ai_provider_index,
            delta,
            provider_names.len(),
        );
    }

    /// Copy the selected provider's defaults into the form: its model and
    /// endpoint, and for the key the provider's environment-variable name,
    /// else its configured key; the `custom` provider starts blank. An
    /// unknown selection leaves the form unchanged.
    pub fn apply_provider_defaults(&mut self, config: &AppConfig, provider_names: &[String])
        ensures
            provider_defaults_outcome(
                *final(self),
                *config,
                provider_names@,
                old(self).ai_model@,
                old(self).ai_endpoint@,
                old(self).ai_api_key@,
            ),
            fields_eq_except(*final(self), *old(self), FormSlot::ProviderDefaults),
            selected_provider_spec(*final(self), provider_names@) == selected_provider_spec(
                *old(self),
                provider_names@,
            ),
    {
        let provider_name = self.selected_provider(provider_names);
        match config.provider_by_name(provider_name.as_str()) {
            Some(provider) => {
                let is_custom = names_match(provider.name.as_str(), "custom");
                let new_key: String = if is_custom {
                    String::new()
                } else {
                    match &provider.api_key_env {
                        Some(v) => v.clone(),
                        None => match &provider.api_key {
                            Some(k) => k.clone(),
                            None => String::new(),
                        },
                    }
                };
                self.ai_model = provider.model.clone();
                self.ai_endpoint = provider.base_url.clone();
                self.ai_api_key = new_key;
            },
            None => {},
        }
    }

    /// Flip the monitor kind.
    pub fn cycle_kind(&mut self, delta: i32)
        ensures
            fields_eq_except(*final(self), *old(self), FormSlot::Kind),
            final(self).kind == (match old(self).kind {
                MonitorKind::Account => MonitorKind::Phrase,
                MonitorKind::Phrase => MonitorKind::Account,
            }),
    {
        let _ = delta;
        self.kind = match self.kind {
            MonitorKind::Account => MonitorKind::Phrase,
            MonitorKind::Phrase => MonitorKind::Account,
        };
    }

    /// Step the focused field around the ten form fields.
    pub fn move_field(&mut self, delta: i32)
        requires
            old(self).field_index < 0x8000_0000,
        ensures
            fields_eq_except(*final(self), *old(self), FormSlot::FieldIndex),
            final(self).field_index as int == (old(self).field_index + delta) % 10,
            final(self).field_index < 10,
    {
        self.field_index = cycle_index(self.field_index, delta, 10);
    }
}

/// The label built for an account monitor: each handle prefixed with `@`,
/// joined with commas.
pub open spec fn account_label_of(hs: Seq<Seq<char>>) -> Seq<char> {
    join_seqs(hs.map_values(|h: Seq<char>| "@"@ + h), ", "@)
}

/// The stored input value of the monitor a form describes.
pub open spec fn pending_input_value(form: AddMonitorForm) -> Seq<char> {
    match form.kind {
        MonitorKind::Account => join_seqs(parse_handles_spec(form.target@)->Ok_0, ", "@),
        MonitorKind::Phrase => trim_seq(form.target@),
    }
}

/// The label used when the display name is blank.
pub open spec fn pending_default_label(form: AddMonitorForm) -> Seq<char> {
    match form.kind {
        MonitorKind::Account => account_label_of(parse_handles_spec(form.target@)->Ok_0),
        MonitorKind::Phrase => trim_seq(form.target@),
    }
}

/// The label of the monitor a form describes.
pub open spec fn pending_label(form: AddMonitorForm) -> Seq<char> {
    if trim_seq(form.display_name@).len() == 0 {
        pending_default_label(form)
    } else {
        trim_seq(form.display_name@)
    }
}

/// The first reason a form is rejected, or `None` when it validates: an
/// invalid target, a blank label, a blank model with analysis enabled, or
/// the `custom` provider without endpoint or key.
pub open spec fn pending_error(form: AddMonitorForm, names: Seq<String>) -> Option<Seq<char>> {
    let q = build_query_spec(form.kind, form.target@);
    if q is Err {
        Some(q->Err_0)
    } else if form.kind == MonitorKind::Account && parse_handles_spec(form.target@) is Err {
        Some(parse_handles_spec(form.target@)->Err_0)
    } else if pending_label(form).len() == 0 {
        Some("display name cannot be empty"@)
    } else if form.ai_enabled && trim_seq(form.ai_model@).len() == 0 {
        Some("AI model ID cannot be empty when analysis is enabled"@)
    } else if form.ai_enabled && name_matches(selected_provider_spec(form, names), "custom"@)
        && trim_seq(form.ai_endpoint@).len() == 0 {
        Some("custom AI provider requires an endpoint"@)
    } else if form.ai_enabled && name_matches(selected_provider_spec(form, names), "custom"@)
        && trim_seq(form.ai_api_key@).len() == 0 {
        Some("custom AI provider requires an API key"@)
    } else {
        None
    }
}

/// Everything `to_pending_monitor` promises of a produced pending monitor,
/// apart from the identifier and the correlation tag.
pub open spec fn pending_core(form: AddMonitorForm, names: Seq<String>, p: PendingMonitor) -> bool {
    &&& p.label@ == pending_label(form)
    &&& p.kind == form.kind
    &&& p.enabled == true
    &&& p.input_value@ == pending_input_value(form)
    &&& p.query@ == build_query_spec(form.kind, form.target@)->Ok_0
    &&& p.analysis.enabled == form.ai_enabled
    &&& p.analysis.provider@ == selected_provider_spec(form, names)
    &&& p.analysis.model@ == trim_seq(form.ai_model@)
    &&& p.analysis.endpoint@ == trim_seq(form.ai_endpoint@)
    &&& p.analysis.api_key@ == trim_seq(form.ai_api_key@)
    &&& p.analysis.prompt@ == trim_seq(form.ai_prompt@)
}

/// Everything `to_pending_monitor` promises of a produced pending monitor,
/// except the fresh identifier itself.
pub open spec fn pending_matches(
    form: AddMonitorForm,
    names: Seq<String>,
    p: PendingMonitor,
) -> bool {
    pending_core(form, names, p) && p.rule_tag@ == "xmon:"@ + p.id@
}

impl AddMonitorForm {
    /// Validate the form into a pending monitor under the given identifier:
    /// the compiled query, the normalized input value and label, trimmed
    /// analysis settings, and the permanent correlation tag `xmon:<id>`.
    pub fn to_pending_monitor_with_id(&self, provider_names: &[String], id: String) -> (r: Result<
        PendingMonitor,
        String,
    >)
        ensures
            pending_error(*self, provider_names@) matches Some(e) ==> (r matches Err(e2) && e2@
                == e),
            pending_error(*self, provider_names@) is None ==> (r matches Ok(p) && p.id == id
                && pending_matches(*self, provider_names@, p)),
    {
        let query = match build_query(&self.kind, self.target.as_str()) {
            Ok(q) => q,
            Err(e) => {
                return Err(e);
            },
        };
        let (input_value, default_label): (String, String) = match self.kind {
            MonitorKind::Account => {
                match parse_account_handles(self.target.as_str()) {
                    Ok(handles) => {
                        let ghost hs = parse_handles_spec(self.target@)->Ok_0;
                        let input = join_strings(&handles, ", ");
                        let ghost mapped = hs.map_values(|h: Seq<char>| "@"@ + h);
                        let mut labeled: Vec<String> = Vec::new();
                        let mut i: usize = 0;
                        proof {
                            assert(labeled.deep_view() =~= mapped.take(0));
                        }
                        while i < handles.len()
                            invariant
                                i <= handles@.len(),
                                handles.deep_view() == hs,
                                handles@.len() == hs.len(),
                                mapped == hs.map_values(|h: Seq<char>| "@"@ + h),
                                mapped.len() == hs.len(),
                                labeled.deep_view() == mapped.take(i as int),
                            decreases handles@.len() - i,
                        {
                            let ghost pre = labeled;
                            labeled.push(str_concat("@", handles[i].as_str()));
                            proof {
                                lemma_push_deep_view(pre, labeled, labeled@[labeled@.len() - 1]);
                                assert(handles@[i as int].deep_view() == hs[i as int]);
                                assert(mapped.take(i + 1) =~= mapped.take(i as int).push(
                                    mapped[i as int],
                                ));
                                assert(labeled.deep_view() =~= mapped.take(i + 1));
                            }
                            i += 1;
                        }
                        proof {
                            assert(mapped.take(mapped.len() as int) =~= mapped);
                        }
                        let label = join_strings(&labeled, ", ");
                        (input, label)
                    },
                    Err(e) => {
                        return Err(e);
                    },
                }
            },
            MonitorKind::Phrase => {
                let t = trim_str(self.target.as_str());
                (t.clone(), t)
            },
        };
        let trimmed_name = trim_str(self.display_name.as_str());
        let label: String = if trimmed_name.as_str().is_empty() {
            default_label
        } else {
            trimmed_name
        };
        if label.as_str().is_empty() {
            return Err("display name cannot be empty".to_owned());
        }
        let analysis = AnalysisSettings {
            enabled: self.ai_enabled,
            provider: self.selected_provider(provider_names),
            model: trim_str(self.ai_model.as_str()),
            endpoint: trim_str(self.ai_endpoint.as_str()),
            api_key: trim_str(self.ai_api_key.as_str()),
            prompt: trim_str(self.ai_prompt.as_str()),
        };
        if analysis.enabled {
            if analysis.model.as_str().is_empty() {
                return Err("AI model ID cannot be empty when analysis is enabled".to_owned());
            }
            let is_custom = names_match(analysis.provider.as_str(), "custom");
            if is_custom && analysis.endpoint.as_str().is_empty() {
                return Err("custom AI provider requires an endpoint".to_owned());
            }
            if is_custom && analysis.api_key.as_str().is_empty() {
                return Err("custom AI provider requires an API key".to_owned());
            }
        }
        let mut rule_tag = "xmon:".to_owned();
        rule_tag.append(id.as_str());
        Ok(
            PendingMonitor {
                id,
                label,
                kind: self.kind,
                enabled: true,
                input_value,
                query,
                rule_tag,
                analysis,
            },
        )
    }

    /// Validate the form into a pending monitor under a fresh identifier.
    pub fn to_pending_monitor(&self, provider_names: &[String]) -> (r: Result<
        PendingMonitor,
        String,
    >)
        ensures
            pending_error(*self, provider_names@) matches Some(e) ==> (r matches Err(e2) && e2@
                == e),
            pending_error(*self, provider_names@) is None ==> (r matches Ok(p) && p.id@.len() == 32
                && pending_matches(*self, provider_names@, p)),
    {
        let id = fresh_monitor_id();
        self.to_pending_monitor_with_id(provider_names, id)
    }
}

/// The form's edit session: the pre-edit monitor, kept for the rollback.
#[derive(Debug)]
pub struct EditSession {
    pub original_monitor: Monitor,
}

impl Clone for EditSession {
    fn clone(&self) -> (r: Self)
        ensures
            r == *self,
    {
        EditSession { original_monitor: self.original_monitor.clone() }
    }
}

/// The open target-file picker.
#[derive(Debug, Clone)]
pub struct TargetFilePicker {
    pub directory: String,
    pub entries: Vec<TargetFileEntry>,
    pub selected: usize,
}

// ---------------------------------------------------------------------
// The per-monitor transient flags, held as small association structures
// keyed by the monitor id.
// ---------------------------------------------------------------------

/// First-match lookup in the activity table.
pub open spec fn activity_get(m: Seq<(String, bool)>, id: Seq<char>) -> Option<bool>
    decreases m.len(),
{
    if m.len() == 0 {
        None
    } else if m[0].0@ == id {
        Some(m[0].1)
    } else {
        activity_get(m.drop_first(), id)
    }
}

/// Insert-or-replace in the activity table.
pub open spec fn activity_set(m: Seq<(String, bool)>, key: String, val: bool) -> Seq<
    (String, bool),
>
    decreases m.len(),
{
    if m.len() == 0 {
        seq![(key, val)]
    } else if m[0].0@ == key@ {
        seq![(key, val)] + m.drop_first()
    } else {
        seq![m[0]] + activity_set(m.drop_first(), key, val)
    }
}

/// Removal of the first entry under `id` from the activity table.
pub open spec fn activity_remove(m: Seq<(String, bool)>, id: Seq<char>) -> Seq<(String, bool)>
    decreases m.len(),
{
    if m.len() == 0 {
        m
    } else if m[0].0@ == id {
        m.drop_first()
    } else {
        seq![m[0]] + activity_remove(m.drop_first(), id)
    }
}

/// Membership in the initiating set.
pub open spec fn tagset_has(s: Seq<String>, id: Seq<char>) -> bool {
    exists|k: int| 0 <= k < s.len() && #[trigger] s[k]@ == id
}

pub open spec fn tagset_insert(s: Seq<String>, key: String) -> Seq<String> {
    if tagset_has(s, key@) {
        s
    } else {
        s.push(key)
    }
}

/// Removal of the first entry under `id` from the initiating set.
pub open spec fn tagset_remove(s: Seq<String>, id: Seq<char>) -> Seq<String>
    decreases s.len(),
{
    if s.len() == 0 {
        s
    } else if s[0]@ == id {
        s.drop_first()
    } else {
        seq![s[0]] + tagset_remove(s.drop_first(), id)
    }
}

proof fn lemma_activity_set_at(m: Seq<(String, bool)>, key: String, val: bool, i: int)
    requires
        0 <= i <= m.len(),
        forall|k: int| 0 <= k < i ==> (#[trigger] m[k]).0@ != key@,
        i == m.len() || m[i].0@ == key@,
    ensures
        i < m.len() ==> activity_set(m, key, val) == m.take(i) + seq![(key, val)] + m.skip(i + 1),
        i == m.len() ==> activity_set(m, key, val) == m.push((key, val)),
    decreases m.len(),
{
    if m.len() == 0 {
        assert(activity_set(m, key, val) =~= m.push((key, val)));
    } else if m[0].0@ == key@ {
        assert(activity_set(m, key, val) =~= m.take(0) + seq![(key, val)] + m.skip(1));
    } else {
        lemma_activity_set_at(m.drop_first(), key, val, i - 1);
        if i < m.len() {
            assert(m.drop_first().take(i - 1) =~= m.take(i as int).drop_first());
            assert(m.drop_first().skip(i) =~= m.skip(i + 1));
            assert(seq![m[0]] + (m.drop_first().take(i - 1) + seq![(key, val)] + m.drop_first().skip(
                i,
            )) =~= m.take(i as int) + seq![(key, val)] + m.skip(i + 1));
        } else {
            assert(seq![m[0]] + m.drop_first().push((key, val)) =~= m.push((key, val)));
        }
    }
}

fn assoc_set(v: &mut Vec<(String, bool)>, id: &String, val: bool)
    ensures
        final(v)@ == activity_set(old(v)@, *id, val),
{
    let ghost m = v@;
    let mut i: usize = 0;
    while i < v.len()
        invariant
            i <= v@.len(),
            v@ == m,
            m == old(v)@,
            forall|k: int| 0 <= k < i ==> (#[trigger] m[k]).0@ != id@,
        decreases v@.len() - i,
    {
        if v[i].0 == *id {
            proof {
                lemma_activity_set_at(m, *id, val, i as int);
            }
            v.remove(i);
            v.insert(i, (id.clone(), val));
            proof {
                assert(v@ =~= m.take(i as int) + seq![(*id, val)] + m.skip(i + 1));
                assert(activity_set(m, *id, val) == m.take(i as int) + seq![(*id, val)] + m.skip(
                    i + 1,
                ));
                assert(v@ == activity_set(m, *id, val));
            }
            return ;
        }
        i += 1;
    }
    proof {
        lemma_activity_set_at(m, *id, val, m.len() as int);
    }
    v.push((id.clone(), val));
}

proof fn lemma_activity_remove_at(m: Seq<(String, bool)>, id: Seq<char>, i: int)
    requires
        0 <= i <= m.len(),
        forall|k: int| 0 <= k < i ==> (#[trigger] m[k]).0@ != id,
        i == m.len() || m[i].0@ == id,
    ensures
        i < m.len() ==> activity_remove(m, id) == m.remove(i),
        i == m.len() ==> activity_remove(m, id) == m,
    decreases m.len(),
{
    if m.len() == 0 {
    } else if m[0].0@ == id {
        assert(activity_remove(m, id) =~= m.remove(0));
    } else {
        lemma_activity_remove_at(m.drop_first(), id, i - 1);
        if i < m.len() {
            assert(seq![m[0]] + m.drop_first().remove(i - 1) =~= m.remove(i));
        } else {
            assert(seq![m[0]] + m.drop_first() =~= m);
        }
    }
}

fn assoc_remove(v: &mut Vec<(String, bool)>, id: &str)
    ensures
        final(v)@ == activity_remove(old(v)@, id@),
{
    let ghost m = v@;
    let mut i: usize = 0;
    while i < v.len()
        invariant
            i <= v@.len(),
            v@ == m,
            m == old(v)@,
            forall|k: int| 0 <= k < i ==> (#[trigger] m[k]).0@ != id@,
        decreases v@.len() - i,
    {
        let hit = {
            let kv = str_to_chars(v[i].0.as_str());
            let idv = str_to_chars(id);
            crate::text::eq_chars(&kv, &idv)
        };
        if hit {
            proof {
                lemma_activity_remove_at(m, id@, i as int);
            }
            v.remove(i);
            return ;
        }
        i += 1;
    }
    proof {
        lemma_activity_remove_at(m, id@, m.len() as int);
    }
}

fn assoc_get_exec(v: &Vec<(String, bool)>, id: &str) -> (r: Option<bool>)
    ensures
        r == activity_get(v@, id@),
{
    let mut i: usize = 0;
    proof {
        assert(v@.skip(0) =~= v@);
    }
    while i < v.len()
        invariant
            i <= v@.len(),
            activity_get(v@, id@) == activity_get(v@.skip(i as int), id@),
        decreases v@.len() - i,
    {
        proof {
            assert(v@.skip(i as int)[0] == v@[i as int]);
            assert(v@.skip(i as int).drop_first() =~= v@.skip(i + 1));
        }
        let hit = {
            let kv = str_to_chars(v[i].0.as_str());
            let idv = str_to_chars(id);
            crate::text::eq_chars(&kv, &idv)
        };
        if hit {
            return Some(v[i].1);
        }
        i += 1;
    }
    proof {
        assert(v@.skip(v@.len() as int) =~= Seq::<(String, bool)>::empty());
    }
    None
}

fn tagset_has_exec(v: &Vec<String>, id: &str) -> (r: bool)
    ensures
        r == tagset_has(v@, id@),
{
    let mut i: usize = 0;
    while i < v.len()
        invariant
            i <= v@.len(),
            forall|k: int| 0 <= k < i ==> #[trigger] v@[k]@ != id@,
        decreases v@.len() - i,
    {
        let hit = {
            let kv = str_to_chars(v[i].as_str());
            let idv = str_to_chars(id);
            crate::text::eq_chars(&kv, &idv)
        };
        if hit {
            return true;
        }
        i += 1;
    }
    false
}

fn tagset_insert_exec(v: &mut Vec<String>, id: &String)
    ensures
        final(v)@ == tagset_insert(old(v)@, *id),
{
    if !tagset_has_exec(v, id.as_str()) {
        v.push(id.clone());
    }
}

proof fn lemma_tagset_remove_at(s: Seq<String>, id: Seq<char>, i: int)
    requires
        0 <= i <= s.len(),
        forall|k: int| 0 <= k < i ==> #[trigger] s[k]@ != id,
        i == s.len() || s[i]@ == id,
    ensures
        i < s.len() ==> tagset_remove(s, id) == s.remove(i),
        i == s.len() ==> tagset_remove(s, id) == s,
    decreases s.len(),
{
    if s.len() == 0 {
    } else if s[0]@ == id {
        assert(tagset_remove(s, id) =~= s.remove(0));
    } else {
        lemma_tagset_remove_at(s.drop_first(), id, i - 1);
        if i < s.len() {
            assert(seq![s[0]] + s.drop_first().remove(i - 1) =~= s.remove(i));
        } else {
            assert(seq![s[0]] + s.drop_first() =~= s);
        }
    }
}

fn tagset_remove_exec(v: &mut Vec<String>, id: &str)
    ensures
        final(v)@ == tagset_remove(old(v)@, id@),
{
    let ghost m = v@;
    let mut i: usize = 0;
    while i < v.len()
        invariant
            m == old(v)@,
            i <= v@.len(),
            v@ == m,
            forall|k: int| 0 <= k < i ==> #[trigger] m[k]@ != id@,
        decreases v@.len() - i,
    {
        let hit = {
            let kv = str_to_chars(v[i].as_str());
            let idv = str_to_chars(id);
            crate::text::eq_chars(&kv, &idv)
        };
        if hit {
            proof {
                lemma_tagset_remove_at(m, id@, i as int);
            }
            v.remove(i);
            return ;
        }
        i += 1;
    }
    proof {
        lemma_tagset_remove_at(m, id@, m.len() as int);
    }
}

// ---------------------------------------------------------------------
// The application state: the monitor store, the bounded feed, selection,
// and the transient per-monitor flags. Mutated only by the single consumer
// of the message bus.
// ---------------------------------------------------------------------

/// The application state. The store owns all monitor and feed data; other
/// components work on cloned snapshots and send messages.
#[derive(Debug)]
pub struct App {
    pub should_quit: bool,
    pub focus: FocusPane,
    pub monitors: Vec<Monitor>,
    pub selected_monitor: usize,
    pub feed: std::collections::VecDeque<FeedItem>,
    pub selected_feed: usize,
    pub add_form: Option<AddMonitorForm>,
    pub edit_session: Option<EditSession>,
    pub target_file_picker: Option<TargetFilePicker>,
    pub status: String,
    pub provider_names: Vec<String>,
    pub stream_connected: bool,
    pub monitor_activity: Vec<(String, bool)>,
    pub monitor_initiating: Vec<String>,
    pub config: AppConfig,
    pub feed_total: u64,
}

pub open spec fn same_shell(a: App, b: App) -> bool {
    &&& a.should_quit == b.should_quit
    &&& a.provider_names == b.provider_names
    &&& a.config == b.config
}

pub open spec fn same_forms(a: App, b: App) -> bool {
    &&& a.add_form == b.add_form
    &&& a.edit_session == b.edit_session
    &&& a.target_file_picker == b.target_file_picker
}

pub open spec fn same_monitor_list(a: App, b: App) -> bool {
    &&& a.monitors == b.monitors
    &&& a.selected_monitor == b.selected_monitor
}

pub open spec fn same_flags(a: App, b: App) -> bool {
    &&& a.stream_connected == b.stream_connected
    &&& a.monitor_activity == b.monitor_activity
    &&& a.monitor_initiating == b.monitor_initiating
}

pub open spec fn same_feed(a: App, b: App) -> bool {
    &&& a.feed == b.feed
    &&& a.selected_feed == b.selected_feed
    &&& a.feed_total == b.feed_total
}

/// The feed after one entry is pushed at the front: the newest first, and
/// once 500 entries are held the oldest is evicted.
pub open spec fn feed_after_push(feed: Seq<FeedItem>, item: FeedItem) -> Seq<FeedItem> {
    if feed.len() < 500 {
        seq![item] + feed
    } else {
        (seq![item] + feed).take(500)
    }
}

/// The feed never exceeds 500 entries: a push prepends the new entry,
/// keeps the existing entries in order, and once the feed is full the
/// oldest entry — and only it — is evicted.
pub proof fn lemma_feed_bounded(f: Seq<FeedItem>, x: FeedItem)
    requires
        f.len() <= 500,
    ensures
        feed_after_push(f, x).len() <= 500,
        feed_after_push(f, x).len() == if f.len() < 500 {
            f.len() + 1
        } else {
            500nat
        },
        feed_after_push(f, x)[0] == x,
        forall|k: int| 1 <= k < feed_after_push(f, x).len() ==> #[trigger] feed_after_push(f, x)[k]
            == f[k - 1],
{
    if f.len() < 500 {
        assert(feed_after_push(f, x) =~= seq![x] + f);
    } else {
        assert(feed_after_push(f, x) =~= (seq![x] + f).take(500));
    }
}

pub open spec fn clamp_sel(sel: int, len: int) -> int {
    if sel >= len {
        if len == 0 {
            0
        } else {
            len - 1
        }
    } else {
        sel
    }
}

pub open spec fn bump(t: u64) -> u64 {
    if t < u64::MAX {
        (t + 1) as u64
    } else {
        t
    }
}

/// The feed-related effect every push shares.
pub open spec fn feed_pushed(a: App, b: App, item: FeedItem) -> bool {
    &&& b.feed@ == feed_after_push(a.feed@, item)
    &&& b.selected_feed == clamp_sel(a.selected_feed as int, b.feed@.len() as int)
    &&& b.feed_total == bump(a.feed_total)
}

/// First index of a monitor with this id, or the length.
pub open spec fn find_monitor_idx(ms: Seq<Monitor>, id: Seq<char>) -> int
    decreases ms.len(),
{
    if ms.len() == 0 {
        0
    } else if ms[0].id@ == id {
        0
    } else {
        1 + find_monitor_idx(ms.drop_first(), id)
    }
}

proof fn lemma_find_monitor_at(ms: Seq<Monitor>, id: Seq<char>, i: int)
    requires
        0 <= i <= ms.len(),
        forall|k: int| 0 <= k < i ==> (#[trigger] ms[k]).id@ != id,
        i == ms.len() || ms[i].id@ == id,
    ensures
        find_monitor_idx(ms, id) == i,
    decreases ms.len(),
{
    if ms.len() == 0 {
    } else if ms[0].id@ == id {
    } else {
        lemma_find_monitor_at(ms.drop_first(), id, i - 1);
    }
}

/// First index of a monitor with this correlation tag, or the length.
pub open spec fn find_tag_idx(ms: Seq<Monitor>, tag: Seq<char>) -> int
    decreases ms.len(),
{
    if ms.len() == 0 {
        0
    } else if ms[0].rule_tag@ == tag {
        0
    } else {
        1 + find_tag_idx(ms.drop_first(), tag)
    }
}

proof fn lemma_find_tag_at(ms: Seq<Monitor>, tag: Seq<char>, i: int)
    requires
        0 <= i <= ms.len(),
        forall|k: int| 0 <= k < i ==> (#[trigger] ms[k]).rule_tag@ != tag,
        i == ms.len() || ms[i].rule_tag@ == tag,
    ensures
        find_tag_idx(ms, tag) == i,
    decreases ms.len(),
{
    if ms.len() == 0 {
    } else if ms[0].rule_tag@ == tag {
    } else {
        lemma_find_tag_at(ms.drop_first(), tag, i - 1);
    }
}

/// The activity table after every monitor's flag is recomputed: a monitor
/// is active exactly when it is enabled and the stream is connected.
pub open spec fn set_all_activity(
    act: Seq<(String, bool)>,
    ms: Seq<Monitor>,
    active: bool,
) -> Seq<(String, bool)>
    decreases ms.len(),
{
    if ms.len() == 0 {
        act
    } else {
        set_all_activity(
            activity_set(act, ms[0].id, ms[0].enabled && active),
            ms.drop_first(),
            active,
        )
    }
}

/// The initiating set pruned to monitors that still exist and are enabled.
pub open spec fn monitor_enabled_with_id(ms: Seq<Monitor>, id: Seq<char>) -> bool {
    exists|k: int| 0 <= k < ms.len() && (#[trigger] ms[k]).id@ == id && ms[k].enabled
}

pub open spec fn retain_enabled_initiating(s: Seq<String>, ms: Seq<Monitor>) -> Seq<String>
    decreases s.len(),
{
    if s.len() == 0 {
        s
    } else {
        (if monitor_enabled_with_id(ms, s[0]@) {
            seq![s[0]]
        } else {
            Seq::<String>::empty()
        }) + retain_enabled_initiating(s.drop_first(), ms)
    }
}

/// The initiating set after reconciliation: enabled monitors marked
/// initiating, disabled ones cleared.
pub open spec fn set_enabled_initiating(s: Seq<String>, ms: Seq<Monitor>) -> Seq<String>
    decreases ms.len(),
{
    if ms.len() == 0 {
        s
    } else if ms[0].enabled {
        set_enabled_initiating(tagset_insert(s, ms[0].id), ms.drop_first())
    } else {
        set_enabled_initiating(tagset_remove(s, ms[0].id@), ms.drop_first())
    }
}

impl App {
    /// Basic well-formedness: the feed is bounded and the picker selection
    /// stays in range.
    pub open spec fn wf(self) -> bool {
        &&& self.feed@.len() <= 500
        &&& match self.target_file_picker {
            Some(p) => p.entries@.len() < 0x8000_0000 && (p.selected < p.entries@.len()
                || p.selected == 0),
            None => true,
        }
    }

    /// A fresh application state over a configuration and the loaded
    /// monitors: nothing selected, an empty feed, every monitor inactive.
    pub fn new(config: AppConfig, monitors: Vec<Monitor>) -> (r: Self)
        ensures
            r.wf(),
            r.should_quit == false,
            r.focus == FocusPane::Monitors,
            r.monitors == monitors,
            r.selected_monitor == 0,
            r.feed@.len() == 0,
            r.selected_feed == 0,
            r.add_form is None,
            r.edit_session is None,
            r.target_file_picker is None,
            r.status@ == "Ready"@,
            r.provider_names.deep_view() == config.ai_providers@.map_values(
                |p: crate::config::AiProvider| p.name@,
            ),
            r.stream_connected == false,
            r.monitor_activity@ == monitors@.map_values(|m: Monitor| (m.id, false)),
            r.monitor_initiating@.len() == 0,
            r.config == config,
            r.feed_total == 0,
    {
        let ghost mapped = monitors@.map_values(|m: Monitor| (m.id, false));
        let mut activity: Vec<(String, bool)> = Vec::new();
        let mut i: usize = 0;
        proof {
            assert(activity@ =~= mapped.take(0));
        }
        while i < monitors.len()
            invariant
                i <= monitors@.len(),
                mapped == monitors@.map_values(|m: Monitor| (m.id, false)),
                mapped.len() == monitors@.len(),
                activity@ == mapped.take(i as int),
            decreases monitors@.len() - i,
        {
            activity.push((monitors[i].id.clone(), false));
            proof {
                assert(mapped.take(i + 1) =~= mapped.take(i as int).push(mapped[i as int]));
            }
            i += 1;
        }
        proof {
            assert(mapped.take(mapped.len() as int) =~= mapped);
        }
        let provider_names = config.provider_names();
        App {
            should_quit: false,
            focus: FocusPane::Monitors,
            monitors,
            selected_monitor: 0,
            feed: std::collections::VecDeque::new(),
            selected_feed: 0,
            add_form: None,
            edit_session: None,
            target_file_picker: None,
            status: "Ready".to_owned(),
            provider_names,
            stream_connected: false,
            monitor_activity: activity,
            monitor_initiating: Vec::new(),
            config,
            feed_total: 0,
        }
    }

    /// Prepend one entry to the feed, evicting the oldest past 500, and
    /// keep the feed selection in range.
    pub fn push_feed(&mut self, item: FeedItem)
        requires
            old(self).wf(),
        ensures
            final(self).wf(),
            same_shell(*old(self), *final(self)),
            same_forms(*old(self), *final(self)),
            same_monitor_list(*old(self), *final(self)),
            same_flags(*old(self), *final(self)),
            final(self).focus == old(self).focus,
            final(self).status == old(self).status,
            feed_pushed(*old(self), *final(self), item),
    {
        let ghost f0 = self.feed@;
        self.feed.push_front(item);
        while self.feed.len() > 500
            invariant
                self.feed@.len() <= f0.len() + 1,
                f0.len() <= 500,
                self.feed@.len() >= 500 || self.feed@.len() == f0.len() + 1,
                self.feed@ == (seq![item] + f0).take(self.feed@.len() as int),
                same_shell(*old(self), *self),
                same_forms(*old(self), *self),
                same_monitor_list(*old(self), *self),
                same_flags(*old(self), *self),
                self.focus == old(self).focus,
                self.status == old(self).status,
                self.selected_feed == old(self).selected_feed,
                self.feed_total == old(self).feed_total,
                f0 == old(self).feed@,
            decreases self.feed@.len(),
        {
            proof {
                let cur = self.feed@;
                assert(cur.drop_last() =~= (seq![item] + f0).take(cur.len() - 1));
            }
            self.feed.pop_back();
        }
        proof {
            assert((seq![item] + f0).take(self.feed@.len() as int) =~= feed_after_push(f0, item));
        }
        if self.feed_total < u64::MAX {
            self.feed_total = self.feed_total + 1;
        }
        let n = self.feed.len();
        if self.selected_feed >= n {
            self.selected_feed = if n == 0 {
                0
            } else {
                n - 1
            };
        }
    }

    /// Drop every feed entry and reset the feed selection.
    pub fn clear_feed(&mut self)
        requires
            old(self).wf(),
        ensures
            final(self).wf(),
            same_shell(*old(self), *final(self)),
            same_forms(*old(self), *final(self)),
            same_monitor_list(*old(self), *final(self)),
            same_flags(*old(self), *final(self)),
            final(self).focus == old(self).focus,
            final(self).status == old(self).status,
            final(self).feed@.len() == 0,
            final(self).selected_feed == 0,
            final(self).feed_total == old(self).feed_total,
    {
        self.feed.clear();
        self.selected_feed = 0;
    }

    /// Surface an informational message: it becomes the status line and an
    /// `INFO` feed entry stamped `ts`.
    pub fn push_info(&mut self, message: String, ts: String)
        requires
            old(self).wf(),
        ensures
            final(self).wf(),
            same_shell(*old(self), *final(self)),
            same_forms(*old(self), *final(self)),
            same_monitor_list(*old(self), *final(self)),
            same_flags(*old(self), *final(self)),
            final(self).focus == old(self).focus,
            final(self).status == message,
            feed_pushed(
                *old(self),
                *final(self),
                FeedItem { at: ts, kind: FeedKind::Info(message), url: None },
            ),
    {
        self.status = message.clone();
        self.push_feed(FeedItem { at: ts, kind: FeedKind::Info(message), url: None });
    }

    /// Surface an error: it becomes the status line and an `ERROR` feed
    /// entry stamped `ts`.
    pub fn push_error(&mut self, message: String, ts: String)
        requires
            old(self).wf(),
        ensures
            final(self).wf(),
            same_shell(*old(self), *final(self)),
            same_forms(*old(self), *final(self)),
            same_monitor_list(*old(self), *final(self)),
            same_flags(*old(self), *final(self)),
            final(self).focus == old(self).focus,
            final(self).status == message,
            feed_pushed(
                *old(self),
                *final(self),
                FeedItem { at: ts, kind: FeedKind::Error(message), url: None },
            ),
    {
        self.status = message.clone();
        self.push_feed(FeedItem { at: ts, kind: FeedKind::Error(message), url: None });
    }

    /// Record a matched post: a `POST` feed entry carrying the matched
    /// monitor labels and the deep link, its author falling back from
    /// username to author id to `unknown`.
    pub fn push_post(&mut self, post: &StreamPost, monitors: Vec<String>, ts: String)
        requires
            old(self).wf(),
        ensures
            final(self).wf(),
            same_shell(*old(self), *final(self)),
            same_forms(*old(self), *final(self)),
            same_monitor_list(*old(self), *final(self)),
            same_flags(*old(self), *final(self)),
            final(self).focus == old(self).focus,
            final(self).status == old(self).status,
            final(self).feed@.len() > 0,
            feed_pushed(*old(self), *final(self), final(self).feed@[0]),
            final(self).feed@[0].at == ts,
            final(self).feed@[0].kind matches FeedKind::Post { author, text, monitors: ms }
                && author@ == post_author(*post) && text == post.text && ms@ == monitors@,
            final(self).feed@[0].url matches Some(u) && u@ == crate::models::post_url_spec(*post),
    {
        let author: String = match &post.author_username {
            Some(u) => u.clone(),
            None => match &post.author_id {
                Some(a) => a.clone(),
                None => "unknown".to_owned(),
            },
        };
        let url = post.post_url();
        let item = FeedItem {
            at: ts,
            kind: FeedKind::Post { author, text: post.text.clone(), monitors },
            url: Some(url),
        };
        self.push_feed(item);
    }

    /// Record one analysis result as an `AI` feed entry.
    pub fn push_analysis(
        &mut self,
        monitor: String,
        provider: String,
        model: String,
        output: String,
        url: Option<String>,
        ts: String,
    )
        requires
            old(self).wf(),
        ensures
            final(self).wf(),
            same_shell(*old(self), *final(self)),
            same_forms(*old(self), *final(self)),
            same_monitor_list(*old(self), *final(self)),
            same_flags(*old(self), *final(self)),
            final(self).focus == old(self).focus,
            final(self).status == old(self).status,
            feed_pushed(
                *old(self),
                *final(self),
                FeedItem {
                    at: ts,
                    kind: FeedKind::Analysis { monitor, provider, model, output },
                    url,
                },
            ),
    {
        self.push_feed(
            FeedItem { at: ts, kind: FeedKind::Analysis { monitor, provider, model, output }, url },
        );
    }

    /// The first monitor carrying this correlation tag.
    pub fn monitor_by_tag(&self, tag: &str) -> (r: Option<&Monitor>)
        ensures
            ({
                let idx = find_tag_idx(self.monitors@, tag@);
                match r {
                    Some(m) => idx < self.monitors@.len() && *m == self.monitors@[idx],
                    None => idx == self.monitors@.len(),
                }
            }),
    {
        let mut i: usize = 0;
        while i < self.monitors.len()
            invariant
                i <= self.monitors@.len(),
                forall|k: int|
                    0 <= k < i ==> (#[trigger] self.monitors@[k]).rule_tag@ != tag@,
            decreases self.monitors@.len() - i,
        {
            let hit = {
                let tv = str_to_chars(self.monitors[i].rule_tag.as_str());
                let qv = str_to_chars(tag);
                crate::text::eq_chars(&tv, &qv)
            };
            if hit {
                proof {
                    lemma_find_tag_at(self.monitors@, tag@, i as int);
                }
                return Some(&self.monitors[i]);
            }
            i += 1;
        }
        proof {
            lemma_find_tag_at(self.monitors@, tag@, self.monitors@.len() as int);
        }
        None
    }

    /// Switch keyboard focus between the monitor list and the feed.
    pub fn toggle_focus(&mut self)
        ensures
            same_shell(*old(self), *final(self)),
            same_forms(*old(self), *final(self)),
            same_monitor_list(*old(self), *final(self)),
            same_flags(*old(self), *final(self)),
            same_feed(*old(self), *final(self)),
            final(self).status == old(self).status,
            final(self).focus == (match old(self).focus {
                FocusPane::Monitors => FocusPane::Feed,
                FocusPane::Feed => FocusPane::Monitors,
            }),
    {
        self.focus = match self.focus {
            FocusPane::Monitors => FocusPane::Feed,
            FocusPane::Feed => FocusPane::Monitors,
        };
    }
}

impl App {
    /// Move the selection one up in the focused pane.
    pub fn move_selection_up(&mut self)
        ensures
            same_shell(*old(self), *final(self)),
            same_forms(*old(self), *final(self)),
            same_flags(*old(self), *final(self)),
            final(self).focus == old(self).focus,
            final(self).status == old(self).status,
            final(self).monitors == old(self).monitors,
            final(self).feed == old(self).feed,
            final(self).feed_total == old(self).feed_total,
            old(self).focus == FocusPane::Monitors ==> final(self).selected_feed == old(
                self).selected_feed,
            old(self).focus == FocusPane::Feed ==> final(self).selected_monitor == old(
                self).selected_monitor,
            old(self).focus == FocusPane::Monitors ==> final(self).selected_monitor as int == (if
                old(self).monitors@.len() == 0 {
                old(self).selected_monitor as int
            } else {
                min_int(
                    sat_sub1(old(self).selected_monitor as int),
                    old(self).monitors@.len() - 1,
                )
            }),
            old(self).focus == FocusPane::Feed ==> final(self).selected_feed as int == (if old(
                self).feed@.len() == 0 {
                old(self).selected_feed as int
            } else {
                sat_sub1(old(self).selected_feed as int)
            }),
    {
        match self.focus {
            FocusPane::Monitors => {
                if self.monitors.len() != 0 {
                    let dec = if self.selected_monitor > 0 {
                        self.selected_monitor - 1
                    } else {
                        0
                    };
                    let cap = self.monitors.len() - 1;
                    self.selected_monitor = if dec <= cap {
                        dec
                    } else {
                        cap
                    };
                }
            },
            FocusPane::Feed => {
                if self.feed.len() != 0 {
                    self.selected_feed = if self.selected_feed > 0 {
                        self.selected_feed - 1
                    } else {
                        0
                    };
                }
            },
        }
    }

    /// Move the selection one down in the focused pane.
    pub fn move_selection_down(&mut self)
        ensures
            same_shell(*old(self), *final(self)),
            same_forms(*old(self), *final(self)),
            same_flags(*old(self), *final(self)),
            final(self).focus == old(self).focus,
            final(self).status == old(self).status,
            final(self).monitors == old(self).monitors,
            final(self).feed == old(self).feed,
            final(self).feed_total == old(self).feed_total,
            old(self).focus == FocusPane::Monitors ==> final(self).selected_feed == old(
                self).selected_feed,
            old(self).focus == FocusPane::Feed ==> final(self).selected_monitor == old(
                self).selected_monitor,
            old(self).focus == FocusPane::Monitors ==> final(self).selected_monitor as int == (if
                old(self).monitors@.len() == 0 {
                old(self).selected_monitor as int
            } else {
                min_int(old(self).selected_monitor + 1, old(self).monitors@.len() - 1)
            }),
            old(self).focus == FocusPane::Feed ==> final(self).selected_feed as int == (if old(
                self).feed@.len() == 0 {
                old(self).selected_feed as int
            } else {
                min_int(old(self).selected_feed + 1, old(self).feed@.len() - 1)
            }),
    {
        match self.focus {
            FocusPane::Monitors => {
                if self.monitors.len() != 0 {
                    let cap = self.monitors.len() - 1;
                    self.selected_monitor = if self.selected_monitor < cap {
                        self.selected_monitor + 1
                    } else {
                        cap
                    };
                }
            },
            FocusPane::Feed => {
                if self.feed.len() != 0 {
                    let cap = self.feed.len() - 1;
                    self.selected_feed = if self.selected_feed < cap {
                        self.selected_feed + 1
                    } else {
                        cap
                    };
                }
            },
        }
    }

    /// Open a fresh add-monitor form, closing any edit session or picker.
    pub fn open_add_form(&mut self)
        ensures
            same_shell(*old(self), *final(self)),
            same_monitor_list(*old(self), *final(self)),
            same_flags(*old(self), *final(self)),
            same_feed(*old(self), *final(self)),
            final(self).focus == old(self).focus,
            final(self).status == old(self).status,
            final(self).edit_session is None,
            final(self).target_file_picker is None,
            final(self).add_form matches Some(f) && fresh_add_form(
                f,
                old(self).config,
                old(self).provider_names@,
                old(self).config.default_ai_provider@,
            ),
    {
        let form = AddMonitorForm::new(
            &self.config,
            self.provider_names.as_slice(),
            self.config.default_ai_provider.as_str(),
        );
        self.add_form = Some(form);
        self.edit_session = None;
        self.target_file_picker = None;
    }

    /// Open the form pre-filled from a monitor and remember the pre-edit
    /// monitor for the rollback.
    pub fn open_edit_form(&mut self, monitor: Monitor)
        ensures
            same_shell(*old(self), *final(self)),
            same_monitor_list(*old(self), *final(self)),
            same_flags(*old(self), *final(self)),
            same_feed(*old(self), *final(self)),
            final(self).focus == old(self).focus,
            final(self).status == old(self).status,
            final(self).target_file_picker is None,
            final(self).add_form matches Some(f) && f.mode == MonitorFormMode::Edit && f.target
                == monitor.input_value && f.display_name == monitor.label && f.kind == monitor.kind,
            final(self).edit_session matches Some(s) && s.original_monitor == monitor,
    {
        let form = AddMonitorForm::from_monitor(
            &self.config,
            self.provider_names.as_slice(),
            &monitor,
        );
        self.add_form = Some(form);
        self.edit_session = Some(EditSession { original_monitor: monitor });
        self.target_file_picker = None;
    }

    /// Close the form, its edit session, and the picker.
    pub fn close_add_form(&mut self)
        ensures
            same_shell(*old(self), *final(self)),
            same_monitor_list(*old(self), *final(self)),
            same_flags(*old(self), *final(self)),
            same_feed(*old(self), *final(self)),
            final(self).focus == old(self).focus,
            final(self).status == old(self).status,
            final(self).add_form is None,
            final(self).edit_session is None,
            final(self).target_file_picker is None,
    {
        self.add_form = None;
        self.edit_session = None;
        self.target_file_picker = None;
    }

    /// Show the target-file picker over the entries the caller read from
    /// the configured directory; returns how many files were found.
    pub fn open_target_file_picker(&mut self, directory: String, entries: Vec<TargetFileEntry>) -> (count:
        usize)
        requires
            entries@.len() < 0x8000_0000,
        ensures
            same_shell(*old(self), *final(self)),
            same_monitor_list(*old(self), *final(self)),
            same_flags(*old(self), *final(self)),
            same_feed(*old(self), *final(self)),
            final(self).focus == old(self).focus,
            final(self).status == old(self).status,
            final(self).add_form == old(self).add_form,
            final(self).edit_session == old(self).edit_session,
            final(self).target_file_picker matches Some(p) && p.directory == directory
                && p.entries == entries && p.selected == 0,
            count == entries@.len(),
    {
        let count = entries.len();
        self.target_file_picker = Some(TargetFilePicker { directory, entries, selected: 0 });
        count
    }

    /// Close the target-file picker.
    pub fn close_target_file_picker(&mut self)
        ensures
            same_shell(*old(self), *final(self)),
            same_monitor_list(*old(self), *final(self)),
            same_flags(*old(self), *final(self)),
            same_feed(*old(self), *final(self)),
            final(self).focus == old(self).focus,
            final(self).status == old(self).status,
            final(self).add_form == old(self).add_form,
            final(self).edit_session == old(self).edit_session,
            final(self).target_file_picker is None,
    {
        self.target_file_picker = None;
    }

    /// Step the picker selection around its file list.
    pub fn move_target_file_selection(&mut self, delta: i32)
        requires
            old(self).wf(),
        ensures
            final(self).wf(),
            same_shell(*old(self), *final(self)),
            same_monitor_list(*old(self), *final(self)),
            same_flags(*old(self), *final(self)),
            same_feed(*old(self), *final(self)),
            final(self).focus == old(self).focus,
            final(self).status == old(self).status,
            final(self).add_form == old(self).add_form,
            final(self).edit_session == old(self).edit_session,
            old(self).target_file_picker is None ==> final(self).target_file_picker is None,
            old(self).target_file_picker matches Some(p) ==> (final(self).target_file_picker
                matches Some(q) && q.directory == p.directory && q.entries == p.entries && (
            p.entries@.len() == 0 ==> q.selected == 0) && (p.entries@.len() > 0 ==> q.selected as int
                == (p.selected + delta) % (p.entries@.len() as int))),
    {
        let picker = match &self.target_file_picker {
            Some(p) => p,
            None => {
                return ;
            },
        };
        let len = picker.entries.len();
        let sel = picker.selected;
        let next: usize = if len == 0 {
            0
        } else {
            cycle_index(sel, delta, len)
        };
        match &mut self.target_file_picker {
            Some(p) => {
                p.selected = next;
            },
            None => {},
        }
    }

    /// The entry the picker points at.
    pub fn selected_target_file_entry(&self) -> (r: Option<&TargetFileEntry>)
        ensures
            match self.target_file_picker {
                Some(p) => if p.selected < p.entries@.len() {
                    r matches Some(e) && *e == p.entries@[p.selected as int]
                } else {
                    r is None
                },
                None => r is None,
            },
    {
        match &self.target_file_picker {
            Some(p) => {
                if p.selected < p.entries.len() {
                    Some(&p.entries[p.selected])
                } else {
                    None
                }
            },
            None => None,
        }
    }

    /// The monitor the list selection points at.
    pub fn selected_monitor(&self) -> (r: Option<&Monitor>)
        ensures
            self.selected_monitor < self.monitors@.len() ==> (r matches Some(m) && *m
                == self.monitors@[self.selected_monitor as int]),
            self.selected_monitor >= self.monitors@.len() ==> r is None,
    {
        if self.selected_monitor < self.monitors.len() {
            Some(&self.monitors[self.selected_monitor])
        } else {
            None
        }
    }

    /// The feed entry the feed selection points at.
    pub fn selected_feed_item(&self) -> (r: Option<&FeedItem>)
        ensures
            self.selected_feed < self.feed@.len() ==> (r matches Some(x) && *x
                == self.feed@[self.selected_feed as int]),
            self.selected_feed >= self.feed@.len() ==> r is None,
    {
        if self.selected_feed < self.feed.len() {
            Some(&self.feed[self.selected_feed])
        } else {
            None
        }
    }

    /// Append a monitor, select it, and record its activity flag.
    pub fn add_monitor(&mut self, monitor: Monitor)
        ensures
            same_shell(*old(self), *final(self)),
            same_forms(*old(self), *final(self)),
            same_feed(*old(self), *final(self)),
            final(self).focus == old(self).focus,
            final(self).status == old(self).status,
            final(self).stream_connected == old(self).stream_connected,
            final(self).monitor_initiating == old(self).monitor_initiating,
            final(self).monitors@ == old(self).monitors@.push(monitor),
            final(self).selected_monitor == final(self).monitors@.len() - 1,
            final(self).monitor_activity@ == activity_set(
                old(self).monitor_activity@,
                monitor.id,
                monitor.enabled && old(self).stream_connected,
            ),
    {
        let key = monitor.id.clone();
        let active = monitor.enabled && self.stream_connected;
        assoc_set(&mut self.monitor_activity, &key, active);
        self.monitors.push(monitor);
        self.selected_monitor = self.monitors.len() - 1;
        proof {
            assert(activity_set(
                old(self).monitor_activity@,
                key,
                active,
            ) == self.monitor_activity@);
        }
    }

    /// Replace the monitor with the same id, if it exists, and recompute
    /// its activity flag.
    pub fn replace_monitor(&mut self, monitor: Monitor) -> (r: bool)
        ensures
            same_shell(*old(self), *final(self)),
            same_forms(*old(self), *final(self)),
            same_feed(*old(self), *final(self)),
            final(self).focus == old(self).focus,
            final(self).status == old(self).status,
            final(self).stream_connected == old(self).stream_connected,
            final(self).monitor_initiating == old(self).monitor_initiating,
            final(self).selected_monitor == old(self).selected_monitor,
            ({
                let idx = find_monitor_idx(old(self).monitors@, monitor.id@);
                if idx < old(self).monitors@.len() {
                    r == true && final(self).monitors@ == old(self).monitors@.update(idx, monitor)
                        && final(self).monitor_activity@ == activity_set(
                        old(self).monitor_activity@,
                        monitor.id,
                        monitor.enabled && old(self).stream_connected,
                    )
                } else {
                    r == false && final(self).monitors == old(self).monitors && final(
                        self).monitor_activity == old(self).monitor_activity
                }
            }),
    {
        let ghost ms = self.monitors@;
        let mut i: usize = 0;
        while i < self.monitors.len()
            invariant
                i <= ms.len(),
                self.monitors@ == ms,
                *self == *old(self),
                forall|k: int| 0 <= k < i ==> (#[trigger] ms[k]).id@ != monitor.id@,
            decreases ms.len() - i,
        {
            let hit = {
                let av = str_to_chars(self.monitors[i].id.as_str());
                let bv = str_to_chars(monitor.id.as_str());
                crate::text::eq_chars(&av, &bv)
            };
            if hit {
                proof {
                    lemma_find_monitor_at(ms, monitor.id@, i as int);
                }
                let key = monitor.id.clone();
                let active = monitor.enabled && self.stream_connected;
                self.monitors.remove(i);
                self.monitors.insert(i, monitor);
                assoc_set(&mut self.monitor_activity, &key, active);
                proof {
                    assert(self.monitors@ =~= ms.update(
                        find_monitor_idx(ms, key@),
                        self.monitors@[i as int],
                    ));
                }
                return true;
            }
            i += 1;
        }
        proof {
            lemma_find_monitor_at(ms, monitor.id@, ms.len() as int);
        }
        false
    }

    /// Remove the monitor with this id, dropping its transient flags and
    /// clamping the selection; returns the removed monitor.
    pub fn remove_monitor_by_id(&mut self, monitor_id: &str) -> (r: Option<Monitor>)
        ensures
            same_shell(*old(self), *final(self)),
            same_forms(*old(self), *final(self)),
            same_feed(*old(self), *final(self)),
            final(self).focus == old(self).focus,
            final(self).status == old(self).status,
            final(self).stream_connected == old(self).stream_connected,
            ({
                let idx = find_monitor_idx(old(self).monitors@, monitor_id@);
                if idx < old(self).monitors@.len() {
                    r matches Some(m) && m == old(self).monitors@[idx] && final(self).monitors@
                        == old(self).monitors@.remove(idx) && final(self).monitor_activity@
                        == activity_remove(old(self).monitor_activity@, m.id@) && final(self).monitor_initiating@ == tagset_remove(old(self).monitor_initiating@, m.id@)
                        && final(self).selected_monitor as int == (if old(self).selected_monitor
                        >= final(self).monitors@.len() && final(self).monitors@.len() > 0 {
                        final(self).monitors@.len() - 1
                    } else if final(self).monitors@.len() == 0 {
                        0int
                    } else {
                        old(self).selected_monitor as int
                    })
                } else {
                    r is None && final(self).monitors == old(self).monitors && final(
                        self).monitor_activity == old(self).monitor_activity && final(
                        self).monitor_initiating == old(self).monitor_initiating && final(
                        self).selected_monitor == old(self).selected_monitor
                }
            }),
    {
        let ghost ms = self.monitors@;
        let mut i: usize = 0;
        while i < self.monitors.len()
            invariant
                i <= ms.len(),
                self.monitors@ == ms,
                *self == *old(self),
                forall|k: int| 0 <= k < i ==> (#[trigger] ms[k]).id@ != monitor_id@,
            decreases ms.len() - i,
        {
            let hit = {
                let av = str_to_chars(self.monitors[i].id.as_str());
                let bv = str_to_chars(monitor_id);
                crate::text::eq_chars(&av, &bv)
            };
            if hit {
                proof {
                    lemma_find_monitor_at(ms, monitor_id@, i as int);
                }
                let removed = self.monitors.remove(i);
                assoc_remove(&mut self.monitor_activity, removed.id.as_str());
                tagset_remove_exec(&mut self.monitor_initiating, removed.id.as_str());
                if self.selected_monitor >= self.monitors.len() && self.monitors.len() != 0 {
                    self.selected_monitor = self.monitors.len() - 1;
                } else if self.monitors.len() == 0 {
                    self.selected_monitor = 0;
                }
                return Some(removed);
            }
            i += 1;
        }
        proof {
            lemma_find_monitor_at(ms, monitor_id@, ms.len() as int);
        }
        None
    }
}

impl App {
    /// Recompute every monitor's activity flag against one connection
    /// state: active exactly when enabled and connected.
    pub fn set_all_monitors_active(&mut self, active: bool)
        ensures
            same_shell(*old(self), *final(self)),
            same_forms(*old(self), *final(self)),
            same_monitor_list(*old(self), *final(self)),
            same_feed(*old(self), *final(self)),
            final(self).focus == old(self).focus,
            final(self).status == old(self).status,
            final(self).stream_connected == old(self).stream_connected,
            final(self).monitor_initiating == old(self).monitor_initiating,
            final(self).monitor_activity@ == set_all_activity(
                old(self).monitor_activity@,
                old(self).monitors@,
                active,
            ),
    {
        let mut i: usize = 0;
        proof {
            assert(old(self).monitors@.skip(0) =~= old(self).monitors@);
        }
        while i < self.monitors.len()
            invariant
                i <= self.monitors@.len(),
                self.monitors == old(self).monitors,
                same_shell(*old(self), *self),
                same_forms(*old(self), *self),
                same_monitor_list(*old(self), *self),
                same_feed(*old(self), *self),
                self.focus == old(self).focus,
                self.status == old(self).status,
                self.stream_connected == old(self).stream_connected,
                self.monitor_initiating == old(self).monitor_initiating,
                set_all_activity(old(self).monitor_activity@, old(self).monitors@, active)
                    == set_all_activity(
                    self.monitor_activity@,
                    self.monitors@.skip(i as int),
                    active,
                ),
            decreases self.monitors@.len() - i,
        {
            proof {
                assert(self.monitors@.skip(i as int)[0] == self.monitors@[i as int]);
                assert(self.monitors@.skip(i as int).drop_first() =~= self.monitors@.skip(i + 1));
            }
            let key = self.monitors[i].id.clone();
            let val = self.monitors[i].enabled && active;
            assoc_set(&mut self.monitor_activity, &key, val);
            i += 1;
        }
        proof {
            assert(self.monitors@.skip(self.monitors@.len() as int) =~= Seq::<Monitor>::empty());
        }
    }

    /// Record the stream connection state and recompute the per-monitor
    /// flags; a connection clears the initiating set.
    pub fn set_stream_connected(&mut self, connected: bool)
        ensures
            same_shell(*old(self), *final(self)),
            same_forms(*old(self), *final(self)),
            same_monitor_list(*old(self), *final(self)),
            same_feed(*old(self), *final(self)),
            final(self).focus == old(self).focus,
            final(self).status == old(self).status,
            final(self).stream_connected == connected,
            final(self).monitor_activity@ == set_all_activity(
                old(self).monitor_activity@,
                old(self).monitors@,
                connected,
            ),
            connected ==> final(self).monitor_initiating@.len() == 0,
            !connected ==> final(self).monitor_initiating == old(self).monitor_initiating,
    {
        self.stream_connected = connected;
        self.set_all_monitors_active(connected);
        if connected {
            self.monitor_initiating.clear();
        }
    }

    /// Whether the stream is currently connected.
    pub fn stream_connected(&self) -> (r: bool)
        ensures
            r == self.stream_connected,
    {
        self.stream_connected
    }

    /// Set one monitor's activity flag.
    pub fn set_monitor_active(&mut self, monitor_id: &String, active: bool)
        ensures
            same_shell(*old(self), *final(self)),
            same_forms(*old(self), *final(self)),
            same_monitor_list(*old(self), *final(self)),
            same_feed(*old(self), *final(self)),
            final(self).focus == old(self).focus,
            final(self).status == old(self).status,
            final(self).stream_connected == old(self).stream_connected,
            final(self).monitor_initiating == old(self).monitor_initiating,
            final(self).monitor_activity@ == activity_set(
                old(self).monitor_activity@,
                *monitor_id,
                active,
            ),
    {
        assoc_set(&mut self.monitor_activity, monitor_id, active);
    }

    /// Mark or unmark one monitor as having an operation in flight.
    pub fn set_monitor_initiating(&mut self, monitor_id: &String, initiating: bool)
        ensures
            same_shell(*old(self), *final(self)),
            same_forms(*old(self), *final(self)),
            same_monitor_list(*old(self), *final(self)),
            same_feed(*old(self), *final(self)),
            final(self).focus == old(self).focus,
            final(self).status == old(self).status,
            final(self).stream_connected == old(self).stream_connected,
            final(self).monitor_activity == old(self).monitor_activity,
            initiating ==> final(self).monitor_initiating@ == tagset_insert(
                old(self).monitor_initiating@,
                *monitor_id,
            ),
            !initiating ==> final(self).monitor_initiating@ == tagset_remove(
                old(self).monitor_initiating@,
                monitor_id@,
            ),
    {
        if initiating {
            tagset_insert_exec(&mut self.monitor_initiating, monitor_id);
        } else {
            tagset_remove_exec(&mut self.monitor_initiating, monitor_id.as_str());
        }
    }

    /// Mark every enabled monitor as initiating and clear the others.
    pub fn set_enabled_monitors_initiating(&mut self)
        ensures
            same_shell(*old(self), *final(self)),
            same_forms(*old(self), *final(self)),
            same_monitor_list(*old(self), *final(self)),
            same_feed(*old(self), *final(self)),
            final(self).focus == old(self).focus,
            final(self).status == old(self).status,
            final(self).stream_connected == old(self).stream_connected,
            final(self).monitor_activity == old(self).monitor_activity,
            final(self).monitor_initiating@ == set_enabled_initiating(
                old(self).monitor_initiating@,
                old(self).monitors@,
            ),
    {
        let mut i: usize = 0;
        proof {
            assert(old(self).monitors@.skip(0) =~= old(self).monitors@);
        }
        while i < self.monitors.len()
            invariant
                i <= self.monitors@.len(),
                self.monitors == old(self).monitors,
                same_shell(*old(self), *self),
                same_forms(*old(self), *self),
                same_monitor_list(*old(self), *self),
                same_feed(*old(self), *self),
                self.focus == old(self).focus,
                self.status == old(self).status,
                self.stream_connected == old(self).stream_connected,
                self.monitor_activity == old(self).monitor_activity,
                set_enabled_initiating(old(self).monitor_initiating@, old(self).monitors@)
                    == set_enabled_initiating(
                    self.monitor_initiating@,
                    self.monitors@.skip(i as int),
                ),
            decreases self.monitors@.len() - i,
        {
            proof {
                assert(self.monitors@.skip(i as int)[0] == self.monitors@[i as int]);
                assert(self.monitors@.skip(i as int).drop_first() =~= self.monitors@.skip(i + 1));
            }
            if self.monitors[i].enabled {
                let key = self.monitors[i].id.clone();
                tagset_insert_exec(&mut self.monitor_initiating, &key);
            } else {
                let key = self.monitors[i].id.clone();
                tagset_remove_exec(&mut self.monitor_initiating, key.as_str());
            }
            i += 1;
        }
        proof {
            assert(self.monitors@.skip(self.monitors@.len() as int) =~= Seq::<Monitor>::empty());
        }
    }

    /// Whether any operation is in flight.
    pub fn has_initiating_monitors(&self) -> (r: bool)
        ensures
            r == (self.monitor_initiating@.len() != 0),
    {
        self.monitor_initiating.len() != 0
    }

    /// Whether this monitor has an operation in flight.
    pub fn monitor_is_initiating(&self, monitor_id: &str) -> (r: bool)
        ensures
            r == tagset_has(self.monitor_initiating@, monitor_id@),
    {
        tagset_has_exec(&self.monitor_initiating, monitor_id)
    }

    /// Whether this monitor is currently live on the stream.
    pub fn monitor_is_active(&self, monitor_id: &str) -> (r: bool)
        ensures
            r == (activity_get(self.monitor_activity@, monitor_id@) == Some(true)),
    {
        match assoc_get_exec(&self.monitor_activity, monitor_id) {
            Some(b) => b,
            None => false,
        }
    }

    /// Recompute every activity flag from the current connection state,
    /// and prune initiating marks of monitors that are gone or disabled;
    /// a live connection clears the initiating set entirely.
    pub fn refresh_monitor_connection_state(&mut self)
        ensures
            same_shell(*old(self), *final(self)),
            same_forms(*old(self), *final(self)),
            same_monitor_list(*old(self), *final(self)),
            same_feed(*old(self), *final(self)),
            final(self).focus == old(self).focus,
            final(self).status == old(self).status,
            final(self).stream_connected == old(self).stream_connected,
            final(self).monitor_activity@ == set_all_activity(
                old(self).monitor_activity@,
                old(self).monitors@,
                old(self).stream_connected,
            ),
            old(self).stream_connected ==> final(self).monitor_initiating@.len() == 0,
            !old(self).stream_connected ==> final(self).monitor_initiating@
                == retain_enabled_initiating(old(self).monitor_initiating@, old(self).monitors@),
    {
        let connected = self.stream_connected;
        self.set_all_monitors_active(connected);
        if connected {
            self.monitor_initiating.clear();
            return ;
        }
        let ghost s0 = self.monitor_initiating@;
        let mut kept: Vec<String> = Vec::new();
        let mut i: usize = 0;
        proof {
            assert(s0.skip(0) =~= s0);
            assert(kept@ =~= Seq::<String>::empty());
        }
        while i < self.monitor_initiating.len()
            invariant
                i <= s0.len(),
                self.monitor_initiating@ == s0,
                self.monitors == old(self).monitors,
                retain_enabled_initiating(s0, self.monitors@) == kept@
                    + retain_enabled_initiating(s0.skip(i as int), self.monitors@),
            decreases s0.len() - i,
        {
            proof {
                assert(s0.skip(i as int)[0] == s0[i as int]);
                assert(s0.skip(i as int).drop_first() =~= s0.skip(i + 1));
            }
            let id = self.monitor_initiating[i].clone();
            if self.has_enabled_monitor_with_id(id.as_str()) {
                kept.push(id);
                proof {
                    assert(kept@ + retain_enabled_initiating(s0.skip(i + 1), self.monitors@) =~= (
                    kept@.drop_last() + (seq![s0[i as int]] + retain_enabled_initiating(
                        s0.skip(i + 1),
                        self.monitors@,
                    ))));
                }
            } else {
                proof {
                    assert(kept@ + (Seq::<String>::empty() + retain_enabled_initiating(
                        s0.skip(i + 1),
                        self.monitors@,
                    )) =~= kept@ + retain_enabled_initiating(s0.skip(i + 1), self.monitors@));
                }
            }
            i += 1;
        }
        proof {
            assert(s0.skip(s0.len() as int) =~= Seq::<String>::empty());
            assert(retain_enabled_initiating(s0, self.monitors@) =~= kept@);
        }
        self.monitor_initiating = kept;
    }

    /// Whether a monitor with this id exists and is enabled.
    pub fn has_enabled_monitor_with_id(&self, id: &str) -> (r: bool)
        ensures
            r == monitor_enabled_with_id(self.monitors@, id@),
    {
        let mut i: usize = 0;
        while i < self.monitors.len()
            invariant
                i <= self.monitors@.len(),
                forall|k: int|
                    0 <= k < i ==> !((#[trigger] self.monitors@[k]).id@ == id@
                        && self.monitors@[k].enabled),
            decreases self.monitors@.len() - i,
        {
            let hit = {
                let av = str_to_chars(self.monitors[i].id.as_str());
                let bv = str_to_chars(id);
                crate::text::eq_chars(&av, &bv)
            };
            if hit && self.monitors[i].enabled {
                return true;
            }
            i += 1;
        }
        false
    }

    /// Store a fresh rule id on a reconnected monitor; same as activating
    /// it under the new rule.
    pub fn update_monitor_rule_id(&mut self, monitor_id: &String, new_rule_id: String) -> (r: bool)
        ensures
            activate_outcome(*old(self), *final(self), *monitor_id, new_rule_id, r),
    {
        self.activate_monitor_with_rule(monitor_id, new_rule_id)
    }

    /// Record a created rule on the monitor: the rule id is stored, the
    /// monitor is enabled, its activity follows the connection state, and
    /// a live connection clears its initiating mark.
    pub fn activate_monitor_with_rule(&mut self, monitor_id: &String, new_rule_id: String) -> (r:
        bool)
        ensures
            activate_outcome(*old(self), *final(self), *monitor_id, new_rule_id, r),
    {
        let ghost ms = self.monitors@;
        let mut i: usize = 0;
        while i < self.monitors.len()
            invariant
                i <= ms.len(),
                self.monitors@ == ms,
                *self == *old(self),
                forall|k: int| 0 <= k < i ==> (#[trigger] ms[k]).id@ != monitor_id@,
            decreases ms.len() - i,
        {
            let hit = {
                let av = str_to_chars(self.monitors[i].id.as_str());
                let bv = str_to_chars(monitor_id.as_str());
                crate::text::eq_chars(&av, &bv)
            };
            if hit {
                proof {
                    lemma_find_monitor_at(ms, monitor_id@, i as int);
                }
                let m = self.monitors.remove(i);
                let key = m.id.clone();
                let updated = Monitor { rule_id: new_rule_id, enabled: true, ..m };
                self.monitors.insert(i, updated);
                let connected = self.stream_connected;
                assoc_set(&mut self.monitor_activity, monitor_id, connected);
                if connected {
                    tagset_remove_exec(&mut self.monitor_initiating, monitor_id.as_str());
                }
                proof {
                    assert(self.monitors@ =~= ms.update(i as int, self.monitors@[i as int]));
                }
                return true;
            }
            i += 1;
        }
        proof {
            lemma_find_monitor_at(ms, monitor_id@, ms.len() as int);
        }
        false
    }

    /// Disable the monitor and forget its rule id: the remote rule is
    /// gone, the record stays.
    pub fn deactivate_monitor(&mut self, monitor_id: &String) -> (r: bool)
        ensures
            same_shell(*old(self), *final(self)),
            same_forms(*old(self), *final(self)),
            same_feed(*old(self), *final(self)),
            final(self).focus == old(self).focus,
            final(self).status == old(self).status,
            final(self).stream_connected == old(self).stream_connected,
            final(self).selected_monitor == old(self).selected_monitor,
            ({
                let idx = find_monitor_idx(old(self).monitors@, monitor_id@);
                if idx < old(self).monitors@.len() {
                    let m0 = old(self).monitors@[idx];
                    r == true && final(self).monitors@.len() == old(self).monitors@.len() && (
                    forall|k: int|
                        0 <= k < old(self).monitors@.len() && k != idx
                            ==> #[trigger] final(self).monitors@[k] == old(self).monitors@[k])
                        && final(self).monitors@[idx].enabled == false && final(self).monitors@[idx].rule_id@.len() == 0 && final(self).monitors@[idx].id == m0.id
                        && final(self).monitors@[idx].label == m0.label && final(self).monitors@[idx].kind == m0.kind && final(self).monitors@[idx].input_value
                        == m0.input_value && final(self).monitors@[idx].query == m0.query && final(self).monitors@[idx].rule_tag == m0.rule_tag && final(self).monitors@[idx].analysis
                        == m0.analysis && final(self).monitors@[idx].created_at_ms
                        == m0.created_at_ms && final(self).monitor_activity@ == activity_set(
                        old(self).monitor_activity@,
                        *monitor_id,
                        false,
                    ) && final(self).monitor_initiating@ == tagset_remove(
                        old(self).monitor_initiating@,
                        monitor_id@,
                    )
                } else {
                    r == false && final(self).monitors == old(self).monitors && final(
                        self).monitor_activity == old(self).monitor_activity && final(
                        self).monitor_initiating == old(self).monitor_initiating
                }
            }),
    {
        let ghost ms = self.monitors@;
        let mut i: usize = 0;
        while i < self.monitors.len()
            invariant
                i <= ms.len(),
                self.monitors@ == ms,
                *self == *old(self),
                forall|k: int| 0 <= k < i ==> (#[trigger] ms[k]).id@ != monitor_id@,
            decreases ms.len() - i,
        {
            let hit = {
                let av = str_to_chars(self.monitors[i].id.as_str());
                let bv = str_to_chars(monitor_id.as_str());
                crate::text::eq_chars(&av, &bv)
            };
            if hit {
                proof {
                    lemma_find_monitor_at(ms, monitor_id@, i as int);
                }
                let m = self.monitors.remove(i);
                let updated = Monitor { rule_id: String::new(), enabled: false, ..m };
                self.monitors.insert(i, updated);
                assoc_set(&mut self.monitor_activity, monitor_id, false);
                tagset_remove_exec(&mut self.monitor_initiating, monitor_id.as_str());
                return true;
            }
            i += 1;
        }
        proof {
            lemma_find_monitor_at(ms, monitor_id@, ms.len() as int);
        }
        false
    }

    /// Disable the monitor but keep its rule id, as the edit flow's
    /// half-open state does.
    pub fn disable_monitor_preserve_rule(&mut self, monitor_id: &String) -> (r: bool)
        ensures
            same_shell(*old(self), *final(self)),
            same_forms(*old(self), *final(self)),
            same_feed(*old(self), *final(self)),
            final(self).focus == old(self).focus,
            final(self).status == old(self).status,
            final(self).stream_connected == old(self).stream_connected,
            final(self).selected_monitor == old(self).selected_monitor,
            ({
                let idx = find_monitor_idx(old(self).monitors@, monitor_id@);
                if idx < old(self).monitors@.len() {
                    let m0 = old(self).monitors@[idx];
                    r == true && final(self).monitors@.len() == old(self).monitors@.len() && (
                    forall|k: int|
                        0 <= k < old(self).monitors@.len() && k != idx
                            ==> #[trigger] final(self).monitors@[k] == old(self).monitors@[k])
                        && final(self).monitors@[idx].enabled == false && final(self).monitors@[idx].rule_id == m0.rule_id && final(self).monitors@[idx].id
                        == m0.id && final(self).monitor_activity@ == activity_set(
                        old(self).monitor_activity@,
                        *monitor_id,
                        false,
                    ) && final(self).monitor_initiating@ == tagset_remove(
                        old(self).monitor_initiating@,
                        monitor_id@,
                    )
                } else {
                    r == false && final(self).monitors == old(self).monitors && final(
                        self).monitor_activity == old(self).monitor_activity && final(
                        self).monitor_initiating == old(self).monitor_initiating
                }
            }),
    {
        let ghost ms = self.monitors@;
        let mut i: usize = 0;
        while i < self.monitors.len()
            invariant
                i <= ms.len(),
                self.monitors@ == ms,
                *self == *old(self),
                forall|k: int| 0 <= k < i ==> (#[trigger] ms[k]).id@ != monitor_id@,
            decreases ms.len() - i,
        {
            let hit = {
                let av = str_to_chars(self.monitors[i].id.as_str());
                let bv = str_to_chars(monitor_id.as_str());
                crate::text::eq_chars(&av, &bv)
            };
            if hit {
                proof {
                    lemma_find_monitor_at(ms, monitor_id@, i as int);
                }
                let m = self.monitors.remove(i);
                let updated = Monitor { enabled: false, ..m };
                self.monitors.insert(i, updated);
                assoc_set(&mut self.monitor_activity, monitor_id, false);
                tagset_remove_exec(&mut self.monitor_initiating, monitor_id.as_str());
                return true;
            }
            i += 1;
        }
        proof {
            lemma_find_monitor_at(ms, monitor_id@, ms.len() as int);
        }
        false
    }

    /// Whether at least one monitor is enabled — the "should stream" test.
    pub fn has_enabled_monitors(&self) -> (r: bool)
        ensures
            r == exists|k: int|
                0 <= k < self.monitors@.len() && (#[trigger] self.monitors@[k]).enabled,
    {
        let mut i: usize = 0;
        while i < self.monitors.len()
            invariant
                i <= self.monitors@.len(),
                forall|k: int| 0 <= k < i ==> !(#[trigger] self.monitors@[k]).enabled,
            decreases self.monitors@.len() - i,
        {
            if self.monitors[i].enabled {
                return true;
            }
            i += 1;
        }
        false
    }
}

/// What storing a fresh rule id on a monitor does: the monitor becomes
/// enabled under the new rule id, its activity follows the connection
/// state, and a live connection clears its initiating mark.
pub open spec fn activate_outcome(
    a: App,
    b: App,
    monitor_id: String,
    new_rule_id: String,
    r: bool,
) -> bool {
    &&& same_shell(a, b)
    &&& same_forms(a, b)
    &&& same_feed(a, b)
    &&& b.focus == a.focus
    &&& b.status == a.status
    &&& b.stream_connected == a.stream_connected
    &&& b.selected_monitor == a.selected_monitor
    &&& ({
        let idx = find_monitor_idx(a.monitors@, monitor_id@);
        if idx < a.monitors@.len() {
            let m0 = a.monitors@[idx];
            &&& r == true
            &&& b.monitors@.len() == a.monitors@.len()
            &&& forall|k: int|
                0 <= k < a.monitors@.len() && k != idx ==> #[trigger] b.monitors@[k]
                    == a.monitors@[k]
            &&& b.monitors@[idx].rule_id == new_rule_id
            &&& b.monitors@[idx].enabled == true
            &&& b.monitors@[idx].id == m0.id
            &&& b.monitors@[idx].label == m0.label
            &&& b.monitors@[idx].kind == m0.kind
            &&& b.monitors@[idx].input_value == m0.input_value
            &&& b.monitors@[idx].query == m0.query
            &&& b.monitors@[idx].rule_tag == m0.rule_tag
            &&& b.monitors@[idx].analysis == m0.analysis
            &&& b.monitors@[idx].created_at_ms == m0.created_at_ms
            &&& b.monitor_activity@ == activity_set(
                a.monitor_activity@,
                monitor_id,
                a.stream_connected,
            )
            &&& b.monitor_initiating@ == (if a.stream_connected {
                tagset_remove(a.monitor_initiating@, monitor_id@)
            } else {
                a.monitor_initiating@
            })
        } else {
            &&& r == false
            &&& b.monitors == a.monitors
            &&& b.monitor_activity == a.monitor_activity
            &&& b.monitor_initiating == a.monitor_initiating
        }
    })
}

pub open spec fn sat_sub1(x: int) -> int {
    if x > 0 {
        x - 1
    } else {
        0
    }
}

pub open spec fn min_int(a: int, b: int) -> int {
    if a <= b {
        a
    } else {
        b
    }
}

/// The author shown for a post: the username, else the author id, else
/// `unknown`.
pub open spec fn post_author(p: StreamPost) -> Seq<char> {
    match p.author_username {
        Some(u) => u@,
        None => match p.author_id {
            Some(a) => a@,
            None => "unknown"@,
        },
    }
}

/// What `apply_provider_defaults` leaves in the three provider-default
/// fields, given what they held before.
pub open spec fn provider_defaults_outcome(
    post: AddMonitorForm,
    config: AppConfig,
    names: Seq<String>,
    old_model: Seq<char>,
    old_endpoint: Seq<char>,
    old_key: Seq<char>,
) -> bool {
    let sel = selected_provider_spec(post, names);
    let idx = find_provider_idx(config.ai_providers@, sel);
    if idx < config.ai_providers@.len() {
        let p = config.ai_providers@[idx];
        &&& post.ai_model@ == p.model@
        &&& post.ai_endpoint@ == p.base_url@
        &&& post.ai_api_key@ == (if name_matches(p.name@, "custom"@) {
            Seq::<char>::empty()
        } else {
            match p.api_key_env {
                Some(v) => v@,
                None => match p.api_key {
                    Some(k) => k@,
                    None => Seq::<char>::empty(),
                },
            }
        })
    } else {
        &&& post.ai_model@ == old_model
        &&& post.ai_endpoint@ == old_endpoint
        &&& post.ai_api_key@ == old_key
    }
}

} // verus!
