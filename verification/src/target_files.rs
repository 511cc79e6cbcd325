//! Target files: ready-made monitor definitions picked from a directory.
//! Reading the directory and decoding the YAML happen outside; the rules
//! that turn the decoded fields into a monitor definition live here.

use vstd::prelude::*;
use crate::models::{clone_opt_string, MonitorKind};
use crate::text::{
    chars_le, eq_chars, lemma_seq_le_total, lemma_seq_le_trans, lower_seq, seq_le, str_to_chars,
    to_lower_chars, trim_chars, trim_seq,
};

verus! {

/// A monitor definition read from a target file.
#[derive(Debug)]
pub struct TargetFileMonitor {
    pub label: Option<String>,
    pub kind: MonitorKind,
    pub target: String,
    pub ai_enabled: bool,
    pub ai_provider: Option<String>,
    pub ai_model: Option<String>,
    pub ai_endpoint: Option<String>,
    pub ai_api_key: Option<String>,
    pub ai_prompt: Option<String>,
}

impl Clone for TargetFileMonitor {
    fn clone(&self) -> (r: Self)
        ensures
            r == *self,
    {
        TargetFileMonitor {
            label: clone_opt_string(&self.label),
            kind: self.kind,
            target: self.target.clone(),
            ai_enabled: self.ai_enabled,
            ai_provider: clone_opt_string(&self.ai_provider),
            ai_model: clone_opt_string(&self.ai_model),
            ai_endpoint: clone_opt_string(&self.ai_endpoint),
            ai_api_key: clone_opt_string(&self.ai_api_key),
            ai_prompt: clone_opt_string(&self.ai_prompt),
        }
    }
}

/// One file of the picker: its name, path, raw text, and what it parsed to.
#[derive(Debug)]
pub struct TargetFileEntry {
    pub file_name: String,
    pub path: String,
    pub raw: String,
    pub parsed: Result<TargetFileMonitor, String>,
}

impl Clone for TargetFileEntry {
    fn clone(&self) -> (r: Self)
        ensures
            r == *self,
    {
        TargetFileEntry {
            file_name: self.file_name.clone(),
            path: self.path.clone(),
            raw: self.raw.clone(),
            parsed: match &self.parsed {
                Ok(t) => Ok(t.clone()),
                Err(e) => Err(e.clone()),
            },
        }
    }
}

/// The `ai:` block of a target file, every field optional.
#[derive(Debug)]
pub struct RawAiConfig {
    pub enabled: Option<bool>,
    pub provider: Option<String>,
    pub model: Option<String>,
    pub endpoint: Option<String>,
    pub api_key: Option<String>,
    pub prompt: Option<String>,
}

/// A decoded target file before its rules are applied: top-level fields and
/// the optional `ai:` block, with the flat `ai_*` spellings preferred.
#[derive(Debug)]
pub struct RawTargetFile {
    pub label: Option<String>,
    pub display_name: Option<String>,
    pub kind: String,
    pub target: String,
    pub ai: Option<RawAiConfig>,
    pub ai_enabled: Option<bool>,
    pub ai_provider: Option<String>,
    pub ai_model: Option<String>,
    pub ai_endpoint: Option<String>,
    pub ai_api_key: Option<String>,
    pub ai_prompt: Option<String>,
}

/// The monitor kind a target file's `kind:` value names, if any.
pub open spec fn kind_of(s: Seq<char>) -> Option<MonitorKind> {
    let t = lower_seq(trim_seq(s));
    if t == "account"@ || t == "accounts"@ || t == "acct"@ {
        Some(MonitorKind::Account)
    } else if t == "phrase"@ || t == "phrases"@ || t == "keyword"@ || t == "keywords"@ {
        Some(MonitorKind::Phrase)
    } else {
        None
    }
}

/// Parse a `kind:` value: `account`-like spellings and `phrase`-like
/// spellings, ignoring case and surrounding whitespace.
pub fn parse_kind(kind: &str) -> (r: Result<MonitorKind, String>)
    ensures
        kind_of(kind@) matches Some(k) ==> r == Ok::<MonitorKind, String>(k),
        kind_of(kind@) is None ==> (r matches Err(e) && e@
            == "kind must be 'account' or 'phrase'"@),
{
    let v = str_to_chars(kind);
    let t0 = trim_chars(&v);
    let t = to_lower_chars(&t0);
    let a1 = str_to_chars("account");
    let a2 = str_to_chars("accounts");
    let a3 = str_to_chars("acct");
    if eq_chars(&t, &a1) || eq_chars(&t, &a2) || eq_chars(&t, &a3) {
        return Ok(MonitorKind::Account);
    }
    let p1 = str_to_chars("phrase");
    let p2 = str_to_chars("phrases");
    let p3 = str_to_chars("keyword");
    let p4 = str_to_chars("keywords");
    if eq_chars(&t, &p1) || eq_chars(&t, &p2) || eq_chars(&t, &p3) || eq_chars(&t, &p4) {
        return Ok(MonitorKind::Phrase);
    }
    Err("kind must be 'account' or 'phrase'".to_owned())
}

/// An optional value trimmed, and dropped when nothing remains.
pub open spec fn clean_opt_spec(v: Option<String>) -> Option<Seq<char>> {
    match v {
        Some(s) => if trim_seq(s@).len() != 0 {
            Some(trim_seq(s@))
        } else {
            None
        },
        None => None,
    }
}

pub fn clean_opt(value: Option<String>) -> (r: Option<String>)
    ensures
        crate::msg::opt_view(r) == clean_opt_spec(value),
{
    match value {
        Some(s) => {
            let v = str_to_chars(s.as_str());
            let t = trim_chars(&v);
            if t.len() != 0 {
                Some(crate::text::string_from_chars(&t))
            } else {
                None
            }
        },
        None => None,
    }
}

/// The first present of two optional values.
pub open spec fn or_opt(a: Option<String>, b: Option<String>) -> Option<String> {
    if a is Some {
        a
    } else {
        b
    }
}

pub open spec fn or_opt_bool(a: Option<bool>, b: Option<bool>) -> Option<bool> {
    if a is Some {
        a
    } else {
        b
    }
}

fn pick_opt(a: Option<String>, b: Option<String>) -> (r: Option<String>)
    ensures
        r == or_opt(a, b),
{
    match a {
        Some(v) => Some(v),
        None => b,
    }
}

/// Apply the target-file rules to a decoded file: the kind must parse and
/// the target must have content; each analysis field prefers the flat
/// spelling over the `ai:` block and is trimmed; analysis is enabled when
/// stated, else exactly when any analysis field is present; the label
/// prefers `label` over `display_name`.
pub fn finish_target_file(parsed: RawTargetFile) -> (r: Result<TargetFileMonitor, String>)
    ensures
        kind_of(parsed.kind@) is None ==> (r matches Err(e) && e@
            == "kind must be 'account' or 'phrase'"@),
        kind_of(parsed.kind@) is Some && trim_seq(parsed.target@).len() == 0 ==> (r matches Err(e)
            && e@ == "target cannot be empty"@),
        kind_of(parsed.kind@) is Some && trim_seq(parsed.target@).len() != 0 ==> (r matches Ok(t)
            && ({
            let ai_provider = clean_opt_spec(
                or_opt(parsed.ai_provider, ai_field_provider(parsed.ai)),
            );
            let ai_model = clean_opt_spec(or_opt(parsed.ai_model, ai_field_model(parsed.ai)));
            let ai_endpoint = clean_opt_spec(
                or_opt(parsed.ai_endpoint, ai_field_endpoint(parsed.ai)),
            );
            let ai_api_key = clean_opt_spec(
                or_opt(parsed.ai_api_key, ai_field_api_key(parsed.ai)),
            );
            let ai_prompt = clean_opt_spec(or_opt(parsed.ai_prompt, ai_field_prompt(parsed.ai)));
            let any_ai = ai_provider is Some || ai_model is Some || ai_endpoint is Some
                || ai_api_key is Some || ai_prompt is Some;
            &&& t.kind == kind_of(parsed.kind@)->0
            &&& t.target@ == trim_seq(parsed.target@)
            &&& crate::msg::opt_view(t.label) == clean_opt_spec(
                or_opt(parsed.label, parsed.display_name),
            )
            &&& t.ai_enabled == (match or_opt_bool(parsed.ai_enabled, ai_field_enabled(parsed.ai)) {
                Some(b) => b,
                None => any_ai,
            })
            &&& crate::msg::opt_view(t.ai_provider) == ai_provider
            &&& crate::msg::opt_view(t.ai_model) == ai_model
            &&& crate::msg::opt_view(t.ai_endpoint) == ai_endpoint
            &&& crate::msg::opt_view(t.ai_api_key) == ai_api_key
            &&& crate::msg::opt_view(t.ai_prompt) == ai_prompt
        })),
{
    let kind = match parse_kind(parsed.kind.as_str()) {
        Ok(k) => k,
        Err(e) => {
            return Err(e);
        },
    };
    let tv = str_to_chars(parsed.target.as_str());
    let tt = trim_chars(&tv);
    if tt.len() == 0 {
        return Err("target cannot be empty".to_owned());
    }
    let target = crate::text::string_from_chars(&tt);
    let (ai_en, ai_prov, ai_mod, ai_ep, ai_key, ai_pr): (
        Option<bool>,
        Option<String>,
        Option<String>,
        Option<String>,
        Option<String>,
        Option<String>,
    ) = match parsed.ai {
        Some(a) => (a.enabled, a.provider, a.model, a.endpoint, a.api_key, a.prompt),
        None => (None, None, None, None, None, None),
    };
    let ai_provider = clean_opt(pick_opt(parsed.ai_provider, ai_prov));
    let ai_model = clean_opt(pick_opt(parsed.ai_model, ai_mod));
    let ai_endpoint = clean_opt(pick_opt(parsed.ai_endpoint, ai_ep));
    let ai_api_key = clean_opt(pick_opt(parsed.ai_api_key, ai_key));
    let ai_prompt = clean_opt(pick_opt(parsed.ai_prompt, ai_pr));
    let any_ai_value = ai_provider.is_some() || ai_model.is_some() || ai_endpoint.is_some()
        || ai_api_key.is_some() || ai_prompt.is_some();
    let ai_enabled = match parsed.ai_enabled {
        Some(b) => b,
        None => match ai_en {
            Some(b) => b,
            None => any_ai_value,
        },
    };
    Ok(
        TargetFileMonitor {
            label: clean_opt(pick_opt(parsed.label, parsed.display_name)),
            kind,
            target,
            ai_enabled,
            ai_provider,
            ai_model,
            ai_endpoint,
            ai_api_key,
            ai_prompt,
        },
    )
}

/// The sort key of a picker entry: its file name, lowercased.
pub open spec fn entry_key(e: TargetFileEntry) -> Seq<char> {
    lower_seq(e.file_name@)
}

pub open spec fn entries_sorted(es: Seq<TargetFileEntry>) -> bool {
    forall|i: int, j: int|
        0 <= i < j < es.len() ==> seq_le(entry_key(#[trigger] es[i]), entry_key(#[trigger] es[j]))
}

fn entry_key_chars(e: &TargetFileEntry) -> (r: Vec<char>)
    ensures
        r@ == entry_key(*e),
{
    let v = str_to_chars(e.file_name.as_str());
    to_lower_chars(&v)
}

fn insert_pos(out: &Vec<TargetFileEntry>, xk: &Vec<char>) -> (j: usize)
    ensures
        j <= out@.len(),
        forall|k: int| 0 <= k < j ==> seq_le(entry_key(#[trigger] out@[k]), xk@),
        j < out@.len() ==> !seq_le(entry_key(out@[j as int]), xk@),
{
    let mut j: usize = 0;
    while j < out.len()
        invariant
            j <= out@.len(),
            forall|k: int| 0 <= k < j ==> seq_le(entry_key(#[trigger] out@[k]), xk@),
        decreases out@.len() - j,
    {
        let ok = entry_key_chars(&out[j]);
        if !chars_le(&ok, xk) {
            return j;
        }
        j += 1;
    }
    j
}

/// Sort the picker entries by lowercased file name: the result is ordered
/// and holds exactly the given entries.
pub fn sort_target_entries(entries: Vec<TargetFileEntry>) -> (r: Vec<TargetFileEntry>)
    ensures
        entries_sorted(r@),
        r@.to_multiset() == entries@.to_multiset(),
{
    broadcast use vstd::seq_lib::group_to_multiset_ensures;

    let mut out: Vec<TargetFileEntry> = Vec::new();
    let mut i: usize = 0;
    proof {
        assert(entries@.take(0).to_multiset() =~= out@.to_multiset()) by {
            assert(entries@.take(0) =~= Seq::<TargetFileEntry>::empty());
            assert(out@ =~= Seq::<TargetFileEntry>::empty());
        }
    }
    while i < entries.len()
        invariant
            i <= entries@.len(),
            entries_sorted(out@),
            out@.to_multiset() == entries@.take(i as int).to_multiset(),
        decreases entries@.len() - i,
    {
        let x = entries[i].clone();
        proof {
            assert(x == entries@[i as int]);
        }
        let xk = entry_key_chars(&x);
        let j = insert_pos(&out, &xk);
        proof {
            if j < out@.len() {
                lemma_seq_le_total(entry_key(out@[j as int]), entry_key(x));
            }
        }
        let ghost pre = out@;
        let ghost jj = j as int;
        out.insert(j, x);
        proof {
            assert(out@ =~= pre.take(jj) + seq![x] + pre.skip(jj));
            assert forall|a: int, b: int| 0 <= a < b < out@.len() implies seq_le(
                entry_key(out@[a]),
                entry_key(out@[b]),
            ) by {
                if a < jj && b == jj {
                    assert(out@[a] == pre[a]);
                    assert(seq_le(entry_key(pre[a]), entry_key(x)));
                } else if a == jj && b > jj {
                    assert(out@[b] == pre[b - 1]);
                    if jj < pre.len() {
                        assert(seq_le(entry_key(x), entry_key(pre[jj])));
                        if b - 1 > jj {
                            assert(seq_le(entry_key(pre[jj]), entry_key(pre[b - 1])));
                            lemma_seq_le_trans(
                                entry_key(x),
                                entry_key(pre[jj]),
                                entry_key(pre[b - 1]),
                            );
                        }
                    }
                } else if a < jj && b > jj {
                    assert(out@[a] == pre[a]);
                    assert(out@[b] == pre[b - 1]);
                    assert(seq_le(entry_key(pre[a]), entry_key(pre[b - 1])));
                } else if a > jj && b > jj {
                    assert(out@[a] == pre[a - 1]);
                    assert(out@[b] == pre[b - 1]);
                    assert(seq_le(entry_key(pre[a - 1]), entry_key(pre[b - 1])));
                } else if a < jj && b < jj {
                    assert(out@[a] == pre[a]);
                    assert(out@[b] == pre[b]);
                }
            }
            assert(out@.to_multiset() =~= entries@.take(i + 1).to_multiset()) by {
                assert(out@ =~= pre.take(jj) + seq![x] + pre.skip(jj));
                vstd::seq_lib::lemma_multiset_commutative(pre.take(jj) + seq![x], pre.skip(jj));
                vstd::seq_lib::lemma_multiset_commutative(pre.take(jj), seq![x]);
                vstd::seq_lib::lemma_multiset_commutative(pre.take(jj), pre.skip(jj));
                assert(pre.take(jj) + pre.skip(jj) =~= pre);
                assert(entries@.take(i + 1) =~= entries@.take(i as int).push(entries@[i as int]));
                vstd::seq_lib::lemma_multiset_commutative(
                    entries@.take(i as int),
                    seq![entries@[i as int]],
                );
                assert(entries@.take(i as int) + seq![entries@[i as int]] =~= entries@.take(i + 1));
            }
        }
        i += 1;
    }
    proof {
        assert(entries@.take(entries@.len() as int) =~= entries@);
    }
    out
}

/// The fields of an optional `ai:` block, absent blocks reading as absent
/// fields.
pub open spec fn ai_field_enabled(ai: Option<RawAiConfig>) -> Option<bool> {
    match ai {
        Some(a) => a.enabled,
        None => None,
    }
}

pub open spec fn ai_field_provider(ai: Option<RawAiConfig>) -> Option<String> {
    match ai {
        Some(a) => a.provider,
        None => None,
    }
}

pub open spec fn ai_field_model(ai: Option<RawAiConfig>) -> Option<String> {
    match ai {
        Some(a) => a.model,
        None => None,
    }
}

pub open spec fn ai_field_endpoint(ai: Option<RawAiConfig>) -> Option<String> {
    match ai {
        Some(a) => a.endpoint,
        None => None,
    }
}

pub open spec fn ai_field_api_key(ai: Option<RawAiConfig>) -> Option<String> {
    match ai {
        Some(a) => a.api_key,
        None => None,
    }
}

pub open spec fn ai_field_prompt(ai: Option<RawAiConfig>) -> Option<String> {
    match ai {
        Some(a) => a.prompt,
        None => None,
    }
}

} // verus!
