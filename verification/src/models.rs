//! Data model: monitors, stream posts, feed items, and the query builder.

use vstd::prelude::*;
use crate::text::{
    any_ws, ascii_alnum_char, contains_ci, copy_chars, has_ws, is_ascii_alnum_char,
    join_char_vecs, join_seqs, join_strings, lemma_char_vecs_deep_view, lemma_push_deep_view,
    lower_seq, replace_char_in, replace_char_seq, split_char_seq, split_on_char, str_to_chars,
    string_from_chars, strip_leading, strip_leading_char, trim_chars, trim_seq,
};

verus! {

/// What a monitor watches: one or more accounts, or a phrase.
#[derive(Debug, Clone, Copy, PartialEq, Eq, Structural)]
pub enum MonitorKind {
    Account,
    Phrase,
}

impl MonitorKind {
    pub fn display(&self) -> (r: &'static str)
        ensures
            *self == MonitorKind::Account ==> r@ == "Account"@,
            *self == MonitorKind::Phrase ==> r@ == "Phrase"@,
    {
        match self {
            MonitorKind::Account => "Account",
            MonitorKind::Phrase => "Phrase",
        }
    }
}

/// Per-monitor analysis settings.
#[derive(Debug)]
pub struct AnalysisSettings {
    pub enabled: bool,
    pub provider: String,
    pub model: String,
    pub endpoint: String,
    pub api_key: String,
    pub prompt: String,
}

impl Clone for AnalysisSettings {
    fn clone(&self) -> (r: Self)
        ensures
            r == *self,
    {
        AnalysisSettings {
            enabled: self.enabled,
            provider: self.provider.clone(),
            model: self.model.clone(),
            endpoint: self.endpoint.clone(),
            api_key: self.api_key.clone(),
            prompt: self.prompt.clone(),
        }
    }
}

/// A user-defined watch. `rule_id` is non-empty exactly while a remote rule
/// is believed to exist; `rule_tag` is the permanent correlation tag.
#[derive(Debug)]
pub struct Monitor {
    pub id: String,
    pub label: String,
    pub kind: MonitorKind,
    pub enabled: bool,
    pub input_value: String,
    pub query: String,
    pub rule_id: String,
    pub rule_tag: String,
    pub analysis: AnalysisSettings,
    pub created_at_ms: u64,
}

impl Clone for Monitor {
    fn clone(&self) -> (r: Self)
        ensures
            r == *self,
    {
        Monitor {
            id: self.id.clone(),
            label: self.label.clone(),
            kind: self.kind,
            enabled: self.enabled,
            input_value: self.input_value.clone(),
            query: self.query.clone(),
            rule_id: self.rule_id.clone(),
            rule_tag: self.rule_tag.clone(),
            analysis: self.analysis.clone(),
            created_at_ms: self.created_at_ms,
        }
    }
}

/// The persisted shape of the monitor table.
#[derive(Debug)]
pub struct MonitorStore {
    pub monitors: Vec<Monitor>,
}

/// A validated monitor that has not been created remotely yet: everything a
/// monitor holds except the remote rule id and the creation time.
#[derive(Debug)]
pub struct PendingMonitor {
    pub id: String,
    pub label: String,
    pub kind: MonitorKind,
    pub enabled: bool,
    pub input_value: String,
    pub query: String,
    pub rule_tag: String,
    pub analysis: AnalysisSettings,
}

impl Clone for PendingMonitor {
    fn clone(&self) -> (r: Self)
        ensures
            r == *self,
    {
        PendingMonitor {
            id: self.id.clone(),
            label: self.label.clone(),
            kind: self.kind,
            enabled: self.enabled,
            input_value: self.input_value.clone(),
            query: self.query.clone(),
            rule_tag: self.rule_tag.clone(),
            analysis: self.analysis.clone(),
        }
    }
}

/// One post as it arrives from the stream.
#[derive(Debug)]
pub struct StreamPost {
    pub id: String,
    pub author_id: Option<String>,
    pub author_username: Option<String>,
    pub text: String,
    pub matching_tags: Vec<String>,
}

pub fn clone_opt_string(v: &Option<String>) -> (r: Option<String>)
    ensures
        r == *v,
{
    match v {
        Some(s) => Some(s.clone()),
        None => None,
    }
}

pub fn clone_string_vec(v: &Vec<String>) -> (r: Vec<String>)
    ensures
        r@ == v@,
{
    let mut r: Vec<String> = Vec::new();
    let mut i: usize = 0;
    while i < v.len()
        invariant
            i <= v@.len(),
            r@ == v@.take(i as int),
        decreases v@.len() - i,
    {
        r.push(v[i].clone());
        proof {
            assert(v@.take(i + 1) =~= v@.take(i as int).push(v@[i as int]));
        }
        i += 1;
    }
    proof {
        assert(v@.take(v@.len() as int) =~= v@);
    }
    r
}

impl Clone for StreamPost {
    fn clone(&self) -> (r: Self)
        ensures
            r.id == self.id,
            r.author_id == self.author_id,
            r.author_username == self.author_username,
            r.text == self.text,
            r.matching_tags@ == self.matching_tags@,
    {
        let r = StreamPost {
            id: self.id.clone(),
            author_id: clone_opt_string(&self.author_id),
            author_username: clone_opt_string(&self.author_username),
            text: self.text.clone(),
            matching_tags: clone_string_vec(&self.matching_tags),
        };
        r
    }
}

/// The deep link behind a post.
pub open spec fn post_url_spec(p: StreamPost) -> Seq<char> {
    match p.author_username {
        Some(u) => "https://x.com/"@ + u@ + "/status/"@ + p.id@,
        None => "https://x.com/i/web/status/"@ + p.id@,
    }
}

impl StreamPost {
    pub fn post_url(&self) -> (r: String)
        ensures
            r@ == post_url_spec(*self),
    {
        match &self.author_username {
            Some(u) => {
                let mut s = "https://x.com/".to_owned();
                s.append(u.as_str());
                s.append("/status/");
                s.append(self.id.as_str());
                proof {
                    assert(s@ =~= post_url_spec(*self));
                }
                s
            },
            None => {
                let mut s = "https://x.com/i/web/status/".to_owned();
                s.append(self.id.as_str());
                proof {
                    assert(s@ =~= post_url_spec(*self));
                }
                s
            },
        }
    }
}

/// What one feed entry holds.
#[derive(Debug, Clone)]
pub enum FeedKind {
    Post { author: String, text: String, monitors: Vec<String> },
    Analysis { monitor: String, provider: String, model: String, output: String },
    Info(String),
    Error(String),
}

/// One entry of the bounded feed log. `at` is a wall-clock `HH:MM:SS` label
/// captured when the entry was made.
#[derive(Debug, Clone)]
pub struct FeedItem {
    pub at: String,
    pub kind: FeedKind,
    pub url: Option<String>,
}

pub open spec fn post_label_spec(monitors: Seq<Seq<char>>) -> Seq<char> {
    if monitors.len() == 0 {
        "monitor: unknown"@
    } else {
        "monitor: "@ + join_seqs(monitors, ", "@)
    }
}

/// The one-line rendering of a feed item.
pub open spec fn summary_spec(item: FeedItem) -> Seq<char> {
    "["@ + item.at@ + "] "@ + match item.kind {
        FeedKind::Post { author, text, monitors } => "POST @"@ + author@ + " | "@
            + post_label_spec(monitors.deep_view()) + " | "@ + replace_char_seq(
            text@,
            '\n',
            seq![' '],
        ),
        FeedKind::Analysis { monitor, provider, model, output } => "AI ("@ + provider@ + ":"@
            + model@ + ") ["@ + monitor@ + "] "@ + replace_char_seq(output@, '\n', seq![' ']),
        FeedKind::Info(m) => "INFO "@ + m@,
        FeedKind::Error(m) => "ERROR "@ + m@,
    }
}

fn newline_to_space(text: &String) -> (r: String)
    ensures
        r@ == replace_char_seq(text@, '\n', seq![' ']),
{
    let tv = str_to_chars(text.as_str());
    let mut space: Vec<char> = Vec::new();
    space.push(' ');
    proof {
        assert(space@ =~= seq![' ']);
    }
    let rep = replace_char_in(&tv, '\n', &space);
    string_from_chars(&rep)
}

impl FeedItem {
    pub fn summary(&self) -> (r: String)
        ensures
            r@ == summary_spec(*self),
    {
        let mut s = "[".to_owned();
        s.append(self.at.as_str());
        s.append("] ");
        match &self.kind {
            FeedKind::Post { author, text, monitors } => {
                s.append("POST @");
                s.append(author.as_str());
                s.append(" | ");
                if monitors.len() == 0 {
                    s.append("monitor: unknown");
                    proof {
                        assert(monitors.deep_view().len() == 0);
                    }
                } else {
                    s.append("monitor: ");
                    let joined = join_strings(monitors, ", ");
                    s.append(joined.as_str());
                }
                s.append(" | ");
                let body = newline_to_space(text);
                s.append(body.as_str());
                proof {
                    assert(s@ =~= summary_spec(*self));
                }
            },
            FeedKind::Analysis { monitor, provider, model, output } => {
                s.append("AI (");
                s.append(provider.as_str());
                s.append(":");
                s.append(model.as_str());
                s.append(") [");
                s.append(monitor.as_str());
                s.append("] ");
                let body = newline_to_space(output);
                s.append(body.as_str());
                proof {
                    assert(s@ =~= summary_spec(*self));
                }
            },
            FeedKind::Info(m) => {
                s.append("INFO ");
                s.append(m.as_str());
                proof {
                    assert(s@ =~= summary_spec(*self));
                }
            },
            FeedKind::Error(m) => {
                s.append("ERROR ");
                s.append(m.as_str());
                proof {
                    assert(s@ =~= summary_spec(*self));
                }
            },
        }
        s
    }
}

pub open spec fn err_empty_target() -> Seq<char> {
    "target cannot be empty"@
}

pub open spec fn err_handle_space() -> Seq<char> {
    "account handles cannot contain spaces"@
}

pub open spec fn err_handle_charset() -> Seq<char> {
    "account handles may only use letters, numbers, and underscores"@
}

pub open spec fn err_no_handles() -> Seq<char> {
    "account target requires at least one handle"@
}

/// Characters a handle may use.
pub open spec fn valid_handle_chars(h: Seq<char>) -> bool {
    forall|k: int| 0 <= k < h.len() ==> (#[trigger] h[k] == '_' || is_ascii_alnum_char(h[k]))
}

/// One step per comma-separated part: blank parts are skipped, handles are
/// stripped of leading `@` and trimmed, rejected on whitespace or foreign
/// characters, and de-duplicated case-insensitively, keeping first spellings.
pub open spec fn parse_handles_rec(parts: Seq<Seq<char>>, acc: Seq<Seq<char>>) -> Result<
    Seq<Seq<char>>,
    Seq<char>,
>
    decreases parts.len(),
{
    if parts.len() == 0 {
        Ok(acc)
    } else {
        let part = trim_seq(parts[0]);
        if part.len() == 0 {
            parse_handles_rec(parts.drop_first(), acc)
        } else {
            let normalized = trim_seq(strip_leading_char(part, '@'));
            if normalized.len() == 0 {
                parse_handles_rec(parts.drop_first(), acc)
            } else if has_ws(normalized) {
                Err(err_handle_space())
            } else if !valid_handle_chars(normalized) {
                Err(err_handle_charset())
            } else if exists|j: int|
                0 <= j < acc.len() && lower_seq(#[trigger] acc[j]) == lower_seq(normalized) {
                parse_handles_rec(parts.drop_first(), acc)
            } else {
                parse_handles_rec(parts.drop_first(), acc.push(normalized))
            }
        }
    }
}

/// The handles named by an account target, or the error it is rejected with.
pub open spec fn parse_handles_spec(input: Seq<char>) -> Result<Seq<Seq<char>>, Seq<char>> {
    match parse_handles_rec(split_char_seq(input, ','), Seq::<Seq<char>>::empty()) {
        Ok(hs) => if hs.len() == 0 {
            Err(err_no_handles())
        } else {
            Ok(hs)
        },
        Err(e) => Err(e),
    }
}

fn handle_chars_ok(v: &Vec<char>) -> (r: bool)
    ensures
        r == valid_handle_chars(v@),
{
    let mut i: usize = 0;
    while i < v.len()
        invariant
            i <= v@.len(),
            forall|k: int| 0 <= k < i ==> (#[trigger] v@[k] == '_' || is_ascii_alnum_char(v@[k])),
        decreases v@.len() - i,
    {
        let c = v[i];
        if !(c == '_' || ascii_alnum_char(c)) {
            return false;
        }
        i += 1;
    }
    true
}

pub fn strings_of_char_vecs(v: &Vec<Vec<char>>) -> (r: Vec<String>)
    ensures
        r.deep_view() == v.deep_view(),
{
    let mut r: Vec<String> = Vec::new();
    let mut i: usize = 0;
    while i < v.len()
        invariant
            i <= v@.len(),
            r.deep_view() == v.deep_view().take(i as int),
        decreases v@.len() - i,
    {
        let ghost pre = r;
        r.push(string_from_chars(&v[i]));
        proof {
            lemma_push_deep_view(pre, r, r@[r@.len() - 1]);
            lemma_char_vecs_deep_view(*v);
            assert(v.deep_view().take(i + 1) =~= v.deep_view().take(i as int).push(
                v.deep_view()[i as int],
            ));
            assert(r.deep_view() =~= v.deep_view().take(i + 1));
        }
        i += 1;
    }
    proof {
        assert(v.deep_view().take(v@.len() as int) =~= v.deep_view());
    }
    r
}

/// The handle list of an account target, on character vectors.
fn parse_handles_chars(input: &Vec<char>) -> (r: Result<Vec<Vec<char>>, String>)
    ensures
        parse_handles_spec(input@) is Ok <==> r is Ok,
        r matches Ok(hs) ==> hs.deep_view() == parse_handles_spec(input@)->Ok_0,
        r matches Err(e) ==> e@ == parse_handles_spec(input@)->Err_0,
{
    let parts = split_on_char(input, ',');
    let ghost all = split_char_seq(input@, ',');
    let mut acc: Vec<Vec<char>> = Vec::new();
    let mut i: usize = 0;
    proof {
        assert(all.skip(0) =~= all);
        assert(acc.deep_view() =~= Seq::<Seq<char>>::empty());
    }
    while i < parts.len()
        invariant
            i <= parts@.len(),
            all == split_char_seq(input@, ','),
            parts.deep_view() == all,
            parts@.len() == all.len(),
            parse_handles_rec(all, Seq::<Seq<char>>::empty()) == parse_handles_rec(
                all.skip(i as int),
                acc.deep_view(),
            ),
        decreases parts@.len() - i,
    {
        proof {
            lemma_char_vecs_deep_view(parts);
            assert(all.skip(i as int)[0] == all[i as int]);
            assert(all[i as int] == parts@[i as int]@);
            assert(all.skip(i as int).drop_first() =~= all.skip(i + 1));
        }
        let part = trim_chars(&parts[i]);
        if part.len() == 0 {
            i += 1;
            continue ;
        }
        let stripped = strip_leading(&part, '@');
        let normalized = trim_chars(&stripped);
        if normalized.len() == 0 {
            i += 1;
            continue ;
        }
        if any_ws(&normalized) {
            proof {
                assert(parse_handles_rec(all.skip(i as int), acc.deep_view()) == Err::<
                    Seq<Seq<char>>,
                    Seq<char>,
                >(err_handle_space()));
            }
            return Err("account handles cannot contain spaces".to_owned());
        }
        if !handle_chars_ok(&normalized) {
            proof {
                assert(parse_handles_rec(all.skip(i as int), acc.deep_view()) == Err::<
                    Seq<Seq<char>>,
                    Seq<char>,
                >(err_handle_charset()));
            }
            return Err(
                "account handles may only use letters, numbers, and underscores".to_owned(),
            );
        }
        if contains_ci(&acc, &normalized) {
            proof {
                lemma_char_vecs_deep_view(acc);
                let j = choose|j: int|
                    0 <= j < acc@.len() && lower_seq(#[trigger] acc@[j]@) == lower_seq(normalized@);
                assert(lower_seq(acc.deep_view()[j]) == lower_seq(normalized@));
            }
            i += 1;
            continue ;
        }
        let ghost pre = acc;
        proof {
            lemma_char_vecs_deep_view(acc);
        }
        acc.push(normalized);
        proof {
            lemma_push_deep_view(pre, acc, acc@[acc@.len() - 1]);
            assert(acc@[acc@.len() - 1].deep_view() =~= acc@[acc@.len() - 1]@);
            assert(acc.deep_view() =~= pre.deep_view().push(acc@[acc@.len() - 1]@));
        }
        i += 1;
    }
    proof {
        assert(all.skip(parts@.len() as int) =~= Seq::<Seq<char>>::empty());
        assert(parse_handles_rec(all, Seq::<Seq<char>>::empty()) == Ok::<
            Seq<Seq<char>>,
            Seq<char>,
        >(acc.deep_view()));
    }
    if acc.len() == 0 {
        proof {
            assert(acc.deep_view().len() == 0);
        }
        return Err("account target requires at least one handle".to_owned());
    }
    proof {
        assert(acc.deep_view().len() == acc@.len());
    }
    Ok(acc)
}

/// Parse an account target: comma-separated handles, `@` optional.
pub fn parse_account_handles(input: &str) -> (r: Result<Vec<String>, String>)
    ensures
        parse_handles_spec(input@) is Ok <==> r is Ok,
        r matches Ok(hs) ==> hs.deep_view() == parse_handles_spec(input@)->Ok_0,
        r matches Err(e) ==> e@ == parse_handles_spec(input@)->Err_0,
{
    let chars = str_to_chars(input);
    match parse_handles_chars(&chars) {
        Ok(hs) => Ok(strings_of_char_vecs(&hs)),
        Err(e) => Err(e),
    }
}

/// Each handle turned into a `from:` clause.
pub open spec fn from_query_parts(handles: Seq<Seq<char>>) -> Seq<Seq<char>> {
    handles.map_values(|h: Seq<char>| "from:"@ + h)
}

/// A phrase quoted for the remote query language, inner quotes escaped.
pub open spec fn quote_escaped(t: Seq<char>) -> Seq<char> {
    seq!['"'] + replace_char_seq(t, '"', seq!['\\', '"']) + seq!['"']
}

pub open spec fn has_char(s: Seq<char>, c: char) -> bool {
    exists|k: int| 0 <= k < s.len() && #[trigger] s[k] == c
}

/// The remote query compiled from a monitor kind and its raw target.
pub open spec fn build_query_spec(kind: MonitorKind, target: Seq<char>) -> Result<
    Seq<char>,
    Seq<char>,
> {
    let trimmed = trim_seq(target);
    if trimmed.len() == 0 {
        Err(err_empty_target())
    } else {
        match kind {
            MonitorKind::Account => match parse_handles_spec(trimmed) {
                Ok(handles) => Ok(
                    if handles.len() == 1 {
                        "from:"@ + handles[0]
                    } else {
                        seq!['('] + join_seqs(from_query_parts(handles), " OR "@) + seq![')']
                    },
                ),
                Err(e) => Err(e),
            },
            MonitorKind::Phrase => {
                if trimmed.len() >= 2 && trimmed[0] == '"' && trimmed[trimmed.len() - 1] == '"' {
                    Ok(trimmed)
                } else if has_char(trimmed, ' ') {
                    Ok(quote_escaped(trimmed))
                } else {
                    Ok(trimmed)
                }
            },
        }
    }
}

fn contains_char(v: &Vec<char>, c: char) -> (r: bool)
    ensures
        r == has_char(v@, c),
{
    let mut i: usize = 0;
    while i < v.len()
        invariant
            i <= v@.len(),
            forall|k: int| 0 <= k < i ==> #[trigger] v@[k] != c,
        decreases v@.len() - i,
    {
        if v[i] == c {
            return true;
        }
        i += 1;
    }
    false
}

/// Compile the remote query for a monitor.
pub fn build_query(kind: &MonitorKind, target: &str) -> (r: Result<String, String>)
    ensures
        build_query_spec(*kind, target@) is Ok <==> r is Ok,
        r matches Ok(q) ==> q@ == build_query_spec(*kind, target@)->Ok_0,
        r matches Err(e) ==> e@ == build_query_spec(*kind, target@)->Err_0,
{
    let tv = str_to_chars(target);
    let trimmed = trim_chars(&tv);
    if trimmed.len() == 0 {
        return Err("target cannot be empty".to_owned());
    }
    match kind {
        MonitorKind::Account => {
            match parse_handles_chars(&trimmed) {
                Err(e) => Err(e),
                Ok(handles) => {
                    let ghost spec_handles = parse_handles_spec(trimmed@)->Ok_0;
                    if handles.len() == 1 {
                        let mut q = str_to_chars("from:");
                        let mut h0 = copy_chars(&handles[0]);
                        q.append(&mut h0);
                        proof {
                            lemma_char_vecs_deep_view(handles);
                            assert(q@ =~= "from:"@ + spec_handles[0]);
                        }
                        Ok(string_from_chars(&q))
                    } else {
                        let prefix = str_to_chars("from:");
                        let mut mapped: Vec<Vec<char>> = Vec::new();
                        let mut i: usize = 0;
                        proof {
                            assert(mapped.deep_view() =~= from_query_parts(spec_handles).take(0));
                        }
                        while i < handles.len()
                            invariant
                                i <= handles@.len(),
                                prefix@ == "from:"@,
                                handles.deep_view() == spec_handles,
                                handles@.len() == spec_handles.len(),
                                mapped.deep_view() == from_query_parts(spec_handles).take(i as int),
                            decreases handles@.len() - i,
                        {
                            let mut q = copy_chars(&prefix);
                            let mut h = copy_chars(&handles[i]);
                            q.append(&mut h);
                            let ghost pre = mapped;
                            mapped.push(q);
                            proof {
                                lemma_char_vecs_deep_view(handles);
                                lemma_push_deep_view(pre, mapped, mapped@[mapped@.len() - 1]);
                                assert(mapped@[mapped@.len() - 1].deep_view()
                                    =~= mapped@[mapped@.len() - 1]@);
                                assert(from_query_parts(spec_handles).take(i + 1)
                                    =~= from_query_parts(spec_handles).take(i as int).push(
                                    "from:"@ + spec_handles[i as int],
                                ));
                                assert(mapped.deep_view() =~= from_query_parts(spec_handles).take(
                                    i + 1,
                                ));
                            }
                            i += 1;
                        }
                        proof {
                            assert(from_query_parts(spec_handles).take(spec_handles.len() as int)
                                =~= from_query_parts(spec_handles));
                        }
                        let sep = str_to_chars(" OR ");
                        let joined = join_char_vecs(&mapped, &sep);
                        let mut q: Vec<char> = Vec::new();
                        q.push('(');
                        let mut j2 = copy_chars(&joined);
                        q.append(&mut j2);
                        q.push(')');
                        proof {
                            assert(q@ =~= seq!['('] + join_seqs(
                                from_query_parts(spec_handles),
                                " OR "@,
                            ) + seq![')']);
                        }
                        Ok(string_from_chars(&q))
                    }
                },
            }
        },
        MonitorKind::Phrase => {
            if trimmed.len() >= 2 && trimmed[0] == '"' && trimmed[trimmed.len() - 1] == '"' {
                Ok(string_from_chars(&trimmed))
            } else if contains_char(&trimmed, ' ') {
                let mut esc: Vec<char> = Vec::new();
                esc.push('\\');
                esc.push('"');
                proof {
                    assert(esc@ =~= seq!['\\', '"']);
                }
                let rep = replace_char_in(&trimmed, '"', &esc);
                let mut q: Vec<char> = Vec::new();
                q.push('"');
                let mut r2 = copy_chars(&rep);
                q.append(&mut r2);
                q.push('"');
                proof {
                    assert(q@ =~= quote_escaped(trimmed@));
                }
                Ok(string_from_chars(&q))
            } else {
                Ok(string_from_chars(&trimmed))
            }
        },
    }
}

} // verus!
