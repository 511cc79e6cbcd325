//! Application configuration: the provider table and its normalization.
//! Reading the file and the environment happens outside; the rules applied
//! to what was read live here.

use vstd::prelude::*;
use crate::text::{lemma_push_deep_view, lower_seq, str_to_chars, trim_seq, trim_chars};

verus! {

/// One configured analysis provider.
#[derive(Debug)]
pub struct AiProvider {
    pub name: String,
    pub base_url: String,
    pub model: String,
    pub api_key: Option<String>,
    pub api_key_env: Option<String>,
}

impl Clone for AiProvider {
    fn clone(&self) -> (r: Self)
        ensures
            r == *self,
    {
        AiProvider {
            name: self.name.clone(),
            base_url: self.base_url.clone(),
            model: self.model.clone(),
            api_key: crate::models::clone_opt_string(&self.api_key),
            api_key_env: crate::models::clone_opt_string(&self.api_key_env),
        }
    }
}

/// A provider with its credential resolved, ready for one analysis call.
#[derive(Debug)]
pub struct ResolvedAiProvider {
    pub name: String,
    pub base_url: String,
    pub model: String,
    pub api_key: String,
}

impl Clone for ResolvedAiProvider {
    fn clone(&self) -> (r: Self)
        ensures
            r == *self,
    {
        ResolvedAiProvider {
            name: self.name.clone(),
            base_url: self.base_url.clone(),
            model: self.model.clone(),
            api_key: self.api_key.clone(),
        }
    }
}

/// The credential a provider resolves to, given what its environment
/// variable held: the configured key when it has content, else the
/// environment value when that has content.
pub open spec fn resolved_key_spec(p: AiProvider, env_value: Option<String>) -> Option<Seq<char>> {
    match p.api_key {
        Some(k) => if trim_seq(k@).len() != 0 {
            Some(k@)
        } else {
            env_key_part(env_value)
        },
        None => env_key_part(env_value),
    }
}

pub open spec fn env_key_part(env_value: Option<String>) -> Option<Seq<char>> {
    match env_value {
        Some(v) => if trim_seq(v@).len() != 0 {
            Some(v@)
        } else {
            None
        },
        None => None,
    }
}

fn nonblank(s: &String) -> (r: bool)
    ensures
        r == (trim_seq(s@).len() != 0),
{
    let v = str_to_chars(s.as_str());
    let t = trim_chars(&v);
    t.len() != 0
}

impl AiProvider {
    /// The key this provider uses. `env_value` is what the provider's
    /// `api_key_env` variable held, read by the caller (`None` when the
    /// provider names no variable or the variable is unset).
    pub fn resolved_api_key(&self, env_value: Option<String>) -> (r: Option<String>)
        ensures
            crate::msg::opt_view(r) == resolved_key_spec(*self, env_value),
    {
        match &self.api_key {
            Some(k) => {
                if nonblank(k) {
                    return Some(k.clone());
                }
            },
            None => {},
        }
        match env_value {
            Some(v) => {
                if nonblank(&v) {
                    Some(v)
                } else {
                    None
                }
            },
            None => None,
        }
    }
}

/// The application configuration, with paths as plain strings.
#[derive(Debug)]
pub struct AppConfig {
    pub x_bearer_token: Option<String>,
    pub state_path: String,
    pub monitor_config_dir: String,
    pub default_ai_provider: String,
    pub ai_providers: Vec<AiProvider>,
}

pub fn clone_providers(v: &Vec<AiProvider>) -> (r: Vec<AiProvider>)
    ensures
        r@ == v@,
{
    let mut r: Vec<AiProvider> = Vec::new();
    let mut i: usize = 0;
    while i < v.len()
        invariant
            i <= v@.len(),
            r@ == v@.take(i as int),
        decreases v@.len() - i,
    {
        r.push(v[i].clone());
        proof {
            assert(v@.take(i + 1) =~= v@.take(i as int).push(v@[i as int]));
        }
        i += 1;
    }
    proof {
        assert(v@.take(v@.len() as int) =~= v@);
    }
    r
}

impl Clone for AppConfig {
    fn clone(&self) -> (r: Self)
        ensures
            r.x_bearer_token == self.x_bearer_token,
            r.state_path == self.state_path,
            r.monitor_config_dir == self.monitor_config_dir,
            r.default_ai_provider == self.default_ai_provider,
            r.ai_providers@ == self.ai_providers@,
    {
        AppConfig {
            x_bearer_token: crate::models::clone_opt_string(&self.x_bearer_token),
            state_path: self.state_path.clone(),
            monitor_config_dir: self.monitor_config_dir.clone(),
            default_ai_provider: self.default_ai_provider.clone(),
            ai_providers: clone_providers(&self.ai_providers),
        }
    }
}

/// Case-insensitive name comparison, as provider names are matched.
pub open spec fn name_matches(a: Seq<char>, b: Seq<char>) -> bool {
    lower_seq(a) == lower_seq(b)
}

pub fn names_match(a: &str, b: &str) -> (r: bool)
    ensures
        r == name_matches(a@, b@),
{
    let av = str_to_chars(a);
    let bv = str_to_chars(b);
    crate::text::eq_ignore_case(&av, &bv)
}

/// The first index whose provider name matches `name` case-insensitively,
/// or the length when none does.
pub open spec fn find_provider_idx(ps: Seq<AiProvider>, name: Seq<char>) -> int
    decreases ps.len(),
{
    if ps.len() == 0 {
        0
    } else if name_matches(ps[0].name@, name) {
        0
    } else {
        1 + find_provider_idx(ps.drop_first(), name)
    }
}

pub proof fn lemma_find_provider_at(ps: Seq<AiProvider>, name: Seq<char>, i: int)
    requires
        0 <= i <= ps.len(),
        forall|k: int| 0 <= k < i ==> !name_matches(#[trigger] ps[k].name@, name),
        i == ps.len() || name_matches(ps[i].name@, name),
    ensures
        find_provider_idx(ps, name) == i,
    decreases ps.len(),
{
    if ps.len() == 0 {
    } else if name_matches(ps[0].name@, name) {
    } else {
        lemma_find_provider_at(ps.drop_first(), name, i - 1);
    }
}

impl AppConfig {
    /// The names of the configured providers, in order.
    pub fn provider_names(&self) -> (r: Vec<String>)
        ensures
            r.deep_view() == self.ai_providers@.map_values(|p: AiProvider| p.name@),
    {
        let ghost mapped = self.ai_providers@.map_values(|p: AiProvider| p.name@);
        let mut r: Vec<String> = Vec::new();
        let mut i: usize = 0;
        proof {
            assert(r.deep_view() =~= mapped.take(0));
        }
        while i < self.ai_providers.len()
            invariant
                i <= self.ai_providers@.len(),
                mapped == self.ai_providers@.map_values(|p: AiProvider| p.name@),
                mapped.len() == self.ai_providers@.len(),
                r.deep_view() == mapped.take(i as int),
            decreases self.ai_providers@.len() - i,
        {
            let ghost pre = r;
            r.push(self.ai_providers[i].name.clone());
            proof {
                lemma_push_deep_view(pre, r, r@[r@.len() - 1]);
                assert(mapped.take(i + 1) =~= mapped.take(i as int).push(mapped[i as int]));
                assert(r.deep_view() =~= mapped.take(i + 1));
            }
            i += 1;
        }
        proof {
            assert(mapped.take(mapped.len() as int) =~= mapped);
        }
        r
    }

    /// The first provider whose name matches, ignoring ASCII case.
    pub fn provider_by_name(&self, name: &str) -> (r: Option<&AiProvider>)
        ensures
            ({
                let idx = find_provider_idx(self.ai_providers@, name@);
                match r {
                    Some(p) => idx < self.ai_providers@.len() && *p == self.ai_providers@[idx],
                    None => idx == self.ai_providers@.len(),
                }
            }),
    {
        let mut i: usize = 0;
        while i < self.ai_providers.len()
            invariant
                i <= self.ai_providers@.len(),
                forall|k: int|
                    0 <= k < i ==> !name_matches(#[trigger] self.ai_providers@[k].name@, name@),
            decreases self.ai_providers@.len() - i,
        {
            if names_match(self.ai_providers[i].name.as_str(), name) {
                proof {
                    lemma_find_provider_at(self.ai_providers@, name@, i as int);
                }
                return Some(&self.ai_providers[i]);
            }
            i += 1;
        }
        proof {
            lemma_find_provider_at(self.ai_providers@, name@, self.ai_providers@.len() as int);
        }
        None
    }

    /// The provider under `name` with its credential resolved, or `None`
    /// when the provider is unknown or no key is available. `env_value` is
    /// what the provider's `api_key_env` variable held.
    pub fn resolve_provider(&self, name: &str, env_value: Option<String>) -> (r: Option<
        ResolvedAiProvider,
    >)
        ensures
            ({
                let idx = find_provider_idx(self.ai_providers@, name@);
                if idx < self.ai_providers@.len() {
                    match resolved_key_spec(self.ai_providers@[idx], env_value) {
                        Some(key) => r matches Some(rp) && rp.name@
                            == self.ai_providers@[idx].name@ && rp.base_url@
                            == self.ai_providers@[idx].base_url@ && rp.model@
                            == self.ai_providers@[idx].model@ && rp.api_key@ == key,
                        None => r is None,
                    }
                } else {
                    r is None
                }
            }),
    {
        match self.provider_by_name(name) {
            Some(provider) => {
                match provider.resolved_api_key(env_value) {
                    Some(api_key) => Some(
                        ResolvedAiProvider {
                            name: provider.name.clone(),
                            base_url: provider.base_url.clone(),
                            model: provider.model.clone(),
                            api_key,
                        },
                    ),
                    None => None,
                }
            },
            None => None,
        }
    }
}

/// The default state file path.
pub fn default_state_path() -> (r: String)
    ensures
        r@ == "x-monitor-state.json"@,
{
    "x-monitor-state.json".to_owned()
}

/// The default directory for target files.
pub fn default_monitor_config_dir() -> (r: String)
    ensures
        r@ == "monitor-configs"@,
{
    "monitor-configs".to_owned()
}

/// The provider selected when the configuration names none.
pub fn default_ai_provider_name() -> (r: String)
    ensures
        r@ == "grok"@,
{
    "grok".to_owned()
}

/// What the built-in provider table holds.
pub open spec fn is_default_providers(ps: Seq<AiProvider>) -> bool {
    &&& ps.len() == 5
    &&& ps[0].name@ == "grok"@ && ps[0].base_url@ == "https://api.x.ai/v1"@ && ps[0].model@
        == "grok-4-1-fast-non-reasoning"@ && ps[0].api_key is None && (ps[0].api_key_env matches
        Some(v) && v@ == "XAI_API_KEY"@)
    &&& ps[1].name@ == "openrouter"@ && ps[1].base_url@ == "https://openrouter.ai/api/v1"@
        && ps[1].model@ == "x-ai/grok-4.1-fast"@ && ps[1].api_key is None && (ps[1].api_key_env
        matches Some(v) && v@ == "OPENROUTER_API_KEY"@)
    &&& ps[2].name@ == "gemini"@ && ps[2].base_url@
        == "https://generativelanguage.googleapis.com/v1beta/openai"@ && ps[2].model@
        == "gemini-3-flash-preview"@ && ps[2].api_key is None && (ps[2].api_key_env matches Some(v)
        && v@ == "GEMINI_API_KEY"@)
    &&& ps[3].name@ == "openai"@ && ps[3].base_url@ == "https://api.openai.com/v1"@ && ps[3].model@
        == "gpt-5-nano"@ && ps[3].api_key is None && (ps[3].api_key_env matches Some(v) && v@
        == "OPENAI_API_KEY"@)
    &&& ps[4].name@ == "custom"@ && ps[4].base_url@ == ""@ && ps[4].model@ == ""@ && ps[4].api_key
        is None && ps[4].api_key_env is None
}

/// The built-in provider table.
pub fn default_ai_providers() -> (r: Vec<AiProvider>)
    ensures
        is_default_providers(r@),
{
    let mut r: Vec<AiProvider> = Vec::new();
    r.push(
        AiProvider {
            name: "grok".to_owned(),
            base_url: "https://api.x.ai/v1".to_owned(),
            model: "grok-4-1-fast-non-reasoning".to_owned(),
            api_key: None,
            api_key_env: Some("XAI_API_KEY".to_owned()),
        },
    );
    r.push(
        AiProvider {
            name: "openrouter".to_owned(),
            base_url: "https://openrouter.ai/api/v1".to_owned(),
            model: "x-ai/grok-4.1-fast".to_owned(),
            api_key: None,
            api_key_env: Some("OPENROUTER_API_KEY".to_owned()),
        },
    );
    r.push(
        AiProvider {
            name: "gemini".to_owned(),
            base_url: "https://generativelanguage.googleapis.com/v1beta/openai".to_owned(),
            model: "gemini-3-flash-preview".to_owned(),
            api_key: None,
            api_key_env: Some("GEMINI_API_KEY".to_owned()),
        },
    );
    r.push(
        AiProvider {
            name: "openai".to_owned(),
            base_url: "https://api.openai.com/v1".to_owned(),
            model: "gpt-5-nano".to_owned(),
            api_key: None,
            api_key_env: Some("OPENAI_API_KEY".to_owned()),
        },
    );
    r.push(
        AiProvider {
            name: "custom".to_owned(),
            base_url: "".to_owned(),
            model: "".to_owned(),
            api_key: None,
            api_key_env: None,
        },
    );
    r
}

/// One merge step: for each built-in provider in order, the first
/// configured provider of the same name (case-insensitively) replaces it
/// and leaves the remainder; configured providers under other names keep
/// their order after the built-ins.
pub open spec fn merge_rec(defaults: Seq<AiProvider>, remaining: Seq<AiProvider>) -> (
    Seq<AiProvider>,
    Seq<AiProvider>,
)
    decreases defaults.len(),
{
    if defaults.len() == 0 {
        (Seq::<AiProvider>::empty(), remaining)
    } else {
        let i = find_provider_idx(remaining, defaults[0].name@);
        if i < remaining.len() {
            let rest = merge_rec(defaults.drop_first(), remaining.remove(i));
            (seq![remaining[i]] + rest.0, rest.1)
        } else {
            let rest = merge_rec(defaults.drop_first(), remaining);
            (seq![defaults[0]] + rest.0, rest.1)
        }
    }
}

pub open spec fn merge_spec(defaults: Seq<AiProvider>, existing: Seq<AiProvider>) -> Seq<
    AiProvider,
> {
    merge_rec(defaults, existing).0 + merge_rec(defaults, existing).1
}

fn position_ci(ps: &Vec<AiProvider>, name: &str) -> (r: usize)
    ensures
        r == find_provider_idx(ps@, name@),
        r <= ps@.len(),
    decreases ps@.len(),
{
    let mut i: usize = 0;
    while i < ps.len()
        invariant
            i <= ps@.len(),
            forall|k: int| 0 <= k < i ==> !name_matches(#[trigger] ps@[k].name@, name@),
        decreases ps@.len() - i,
    {
        if names_match(ps[i].name.as_str(), name) {
            proof {
                lemma_find_provider_at(ps@, name@, i as int);
            }
            return i;
        }
        i += 1;
    }
    proof {
        lemma_find_provider_at(ps@, name@, ps@.len() as int);
    }
    ps.len()
}

fn merge_step(defaults: &Vec<AiProvider>, di: usize, remaining: Vec<AiProvider>) -> (r: (
    Vec<AiProvider>,
    Vec<AiProvider>,
))
    requires
        di <= defaults@.len(),
    ensures
        r.0@ == merge_rec(defaults@.skip(di as int), remaining@).0,
        r.1@ == merge_rec(defaults@.skip(di as int), remaining@).1,
    decreases defaults@.len() - di,
{
    let ghost rem0 = remaining@;
    if di == defaults.len() {
        proof {
            assert(defaults@.skip(di as int) =~= Seq::<AiProvider>::empty());
        }
        (Vec::new(), remaining)
    } else {
        proof {
            assert(defaults@.skip(di as int)[0] == defaults@[di as int]);
            assert(defaults@.skip(di as int).drop_first() =~= defaults@.skip(di + 1));
        }
        let mut remaining = remaining;
        let pos = position_ci(&remaining, defaults[di].name.as_str());
        if pos < remaining.len() {
            let picked = remaining.remove(pos);
            let rest = merge_step(defaults, di + 1, remaining);
            let (mut merged_rest, leftover) = rest;
            let mut merged: Vec<AiProvider> = Vec::new();
            merged.push(picked);
            merged.append(&mut merged_rest);
            proof {
                assert(merged@ =~= seq![rem0[pos as int]] + merge_rec(
                    defaults@.skip(di + 1),
                    rem0.remove(pos as int),
                ).0);
                assert(merged@ =~= merge_rec(defaults@.skip(di as int), rem0).0);
            }
            (merged, leftover)
        } else {
            let picked = defaults[di].clone();
            let rest = merge_step(defaults, di + 1, remaining);
            let (mut merged_rest, leftover) = rest;
            let mut merged: Vec<AiProvider> = Vec::new();
            merged.push(picked);
            merged.append(&mut merged_rest);
            proof {
                assert(merged@ =~= seq![defaults@[di as int]] + merge_rec(
                    defaults@.skip(di + 1),
                    rem0,
                ).0);
                assert(merged@ =~= merge_rec(defaults@.skip(di as int), rem0).0);
            }
            (merged, leftover)
        }
    }
}

/// Merge the configured providers over the built-in table, keeping the
/// built-in order, replacing built-ins by configured providers of the same
/// name, and appending configured providers under other names.
pub fn merge_default_providers(existing: &mut Vec<AiProvider>)
    ensures
        exists|ds: Seq<AiProvider>|
            is_default_providers(ds) && final(existing)@ == #[trigger] merge_spec(
                ds,
                old(existing)@,
            ),
{
    let defaults = default_ai_providers();
    let current = clone_providers(existing);
    let ghost cur0 = current@;
    let rest = merge_step(&defaults, 0, current);
    let (mut merged, mut leftover) = rest;
    merged.append(&mut leftover);
    proof {
        assert(defaults@.skip(0) =~= defaults@);
        assert(merged@ =~= merge_spec(defaults@, cur0));
    }
    *existing = merged;
}

impl Default for AppConfig {
    /// The configuration used when no file exists.
    fn default() -> (r: Self)
        ensures
            r.x_bearer_token is None,
            r.state_path@ == "x-monitor-state.json"@,
            r.monitor_config_dir@ == "monitor-configs"@,
            r.default_ai_provider@ == "grok"@,
            is_default_providers(r.ai_providers@),
    {
        AppConfig {
            x_bearer_token: None,
            state_path: default_state_path(),
            monitor_config_dir: default_monitor_config_dir(),
            default_ai_provider: default_ai_provider_name(),
            ai_providers: default_ai_providers(),
        }
    }
}

impl AppConfig {
    /// Apply the environment overrides read by the caller: each present
    /// value replaces the loaded one.
    pub fn apply_env_overrides(
        &mut self,
        token: Option<String>,
        dir: Option<String>,
        provider: Option<String>,
    )
        ensures
            final(self).x_bearer_token == (if token is Some {
                token
            } else {
                old(self).x_bearer_token
            }),
            final(self).monitor_config_dir == (match dir {
                Some(d) => d,
                None => old(self).monitor_config_dir,
            }),
            final(self).default_ai_provider == (match provider {
                Some(p) => p,
                None => old(self).default_ai_provider,
            }),
            final(self).state_path == old(self).state_path,
            final(self).ai_providers@ == old(self).ai_providers@,
    {
        match token {
            Some(t) => {
                self.x_bearer_token = Some(t);
            },
            None => {},
        }
        match dir {
            Some(d) => {
                self.monitor_config_dir = d;
            },
            None => {},
        }
        match provider {
            Some(p) => {
                self.default_ai_provider = p;
            },
            None => {},
        }
    }

    /// After loading: an empty provider table falls back to the built-ins,
    /// a non-empty one is merged over them.
    pub fn ensure_providers(&mut self)
        ensures
            old(self).ai_providers@.len() == 0 ==> is_default_providers(final(self).ai_providers@),
            old(self).ai_providers@.len() != 0 ==> exists|ds: Seq<AiProvider>|
                is_default_providers(ds) && final(self).ai_providers@ == #[trigger] merge_spec(
                    ds,
                    old(self).ai_providers@,
                ),
            final(self).x_bearer_token == old(self).x_bearer_token,
            final(self).state_path == old(self).state_path,
            final(self).monitor_config_dir == old(self).monitor_config_dir,
            final(self).default_ai_provider == old(self).default_ai_provider,
    {
        if self.ai_providers.len() == 0 {
            self.ai_providers = default_ai_providers();
        } else {
            merge_default_providers(&mut self.ai_providers);
        }
    }

    /// The default provider must name a configured provider; otherwise the
    /// first configured provider, or the built-in name, takes its place.
    pub fn ensure_default_provider(&mut self)
        ensures
            final(self).x_bearer_token == old(self).x_bearer_token,
            final(self).state_path == old(self).state_path,
            final(self).monitor_config_dir == old(self).monitor_config_dir,
            final(self).ai_providers@ == old(self).ai_providers@,
            ({
                let idx = find_provider_idx(old(self).ai_providers@, old(self).default_ai_provider@);
                if idx < old(self).ai_providers@.len() {
                    final(self).default_ai_provider == old(self).default_ai_provider
                } else if old(self).ai_providers@.len() > 0 {
                    final(self).default_ai_provider@ == old(self).ai_providers@[0].name@
                } else {
                    final(self).default_ai_provider@ == "grok"@
                }
            }),
    {
        let idx = position_ci(&self.ai_providers, self.default_ai_provider.as_str());
        if idx == self.ai_providers.len() {
            if self.ai_providers.len() > 0 {
                self.default_ai_provider = self.ai_providers[0].name.clone();
            } else {
                self.default_ai_provider = default_ai_provider_name();
            }
        }
    }
}

} // verus!
