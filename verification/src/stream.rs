//! Stream connection manager: failure classification, reconnect backoff with
//! one-time informational messages, and routing of decoded stream lines.

use vstd::prelude::*;
use crate::models::StreamPost;
use crate::msg::{opt_view, Msg};
use crate::text::{
    contains_seq, dec_of, join_seqs, join_strings, lemma_push_deep_view, lower_seq, str_concat,
    str_to_chars, to_lower_chars, u64_to_string,
};

verus! {

/// Outcome of one failed connection attempt, as the remote reported it.
#[derive(Debug, Clone)]
pub enum StreamErrorKind {
    /// The credential was rejected. Retried like any generic failure.
    Unauthorized,
    /// No rules are configured remotely; the stream cannot open.
    MissingRules,
    /// The subscription is still being provisioned remotely.
    Provisioning,
    /// The remote reports too many concurrent stream connections.
    TooManyConnections,
    /// Anything else, carrying the text shown to the user.
    Other(String),
}

/// The three specially handled conditions, plus the generic bucket.
#[derive(Debug, Clone, Copy, PartialEq, Eq, Structural)]
pub enum FailureClass {
    MissingRules,
    Provisioning,
    TooManyConnections,
    Generic,
}

pub open spec fn class_of(k: StreamErrorKind) -> FailureClass {
    match k {
        StreamErrorKind::MissingRules => FailureClass::MissingRules,
        StreamErrorKind::Provisioning => FailureClass::Provisioning,
        StreamErrorKind::TooManyConnections => FailureClass::TooManyConnections,
        StreamErrorKind::Unauthorized => FailureClass::Generic,
        StreamErrorKind::Other(m) => FailureClass::Generic,
    }
}

pub open spec fn msg_unauthorized() -> Seq<char> {
    "stream unauthorized (check X bearer token permissions)"@
}

pub open spec fn body_missing_rules(body: Seq<char>) -> bool {
    contains_seq(body, "RuleConfigurationIssue"@) || contains_seq(
        lower_seq(body),
        "must define rules using the post /2/tweets/search/stream/rules"@,
    )
}

pub open spec fn body_provisioning(body: Seq<char>) -> bool {
    contains_seq(body, "ProvisioningSubscription"@) || contains_seq(
        lower_seq(body),
        "subscription change is currently being provisioned"@,
    )
}

pub open spec fn body_too_many(body: Seq<char>) -> bool {
    contains_seq(body, "TooManyConnections"@) || contains_seq(
        lower_seq(body),
        "maximum allowed connection"@,
    )
}

/// The generic failure text: `stream request failed (<status>): <body>`.
pub open spec fn generic_failure_msg(status: nat, body: Seq<char>) -> Seq<char> {
    "stream request failed ("@ + dec_of(status) + "): "@ + body
}

fn lower_of_str(s: &str) -> (r: Vec<char>)
    ensures
        r@ == lower_seq(s@),
{
    let v = str_to_chars(s);
    to_lower_chars(&v)
}

/// Classify a failed (non-2xx) stream connection attempt from its HTTP
/// status and response body.
pub fn classify_stream_failure(status: u16, body: &str) -> (k: StreamErrorKind)
    ensures
        status == 401 ==> k is Unauthorized,
        status != 401 && status == 409 && body_missing_rules(body@) ==> k is MissingRules,
        status != 401 && status == 503 && body_provisioning(body@) ==> k is Provisioning,
        status != 401 && status == 429 && body_too_many(body@) ==> k is TooManyConnections,
        !(status == 401 || (status == 409 && body_missing_rules(body@)) || (status == 503
            && body_provisioning(body@)) || (status == 429 && body_too_many(body@))) ==> (k matches
            StreamErrorKind::Other(m) && m@ == generic_failure_msg(status as nat, body@)),
{
    if status == 401 {
        return StreamErrorKind::Unauthorized;
    }
    let bv = str_to_chars(body);
    let lowered = lower_of_str(body);
    if status == 409 {
        let n1 = str_to_chars("RuleConfigurationIssue");
        let n2 = str_to_chars("must define rules using the post /2/tweets/search/stream/rules");
        if crate::text::contains_sub(&bv, &n1) || crate::text::contains_sub(&lowered, &n2) {
            return StreamErrorKind::MissingRules;
        }
    }
    if status == 503 {
        let n1 = str_to_chars("ProvisioningSubscription");
        let n2 = str_to_chars("subscription change is currently being provisioned");
        if crate::text::contains_sub(&bv, &n1) || crate::text::contains_sub(&lowered, &n2) {
            return StreamErrorKind::Provisioning;
        }
    }
    if status == 429 {
        let n1 = str_to_chars("TooManyConnections");
        let n2 = str_to_chars("maximum allowed connection");
        if crate::text::contains_sub(&bv, &n1) || crate::text::contains_sub(&lowered, &n2) {
            return StreamErrorKind::TooManyConnections;
        }
    }
    let mut m = "stream request failed (".to_owned();
    let num = u64_to_string(status as u64);
    m.append(num.as_str());
    m.append("): ");
    m.append(body);
    proof {
        assert(m@ =~= generic_failure_msg(status as nat, body@));
    }
    StreamErrorKind::Other(m)
}

/// Reconnect state: the doubling backoff and the three suppression flags.
#[derive(Debug, Clone, Copy, PartialEq, Eq, Structural)]
pub struct RetryState {
    pub retry_seconds: u64,
    pub missing_rules_sent: bool,
    pub provisioning_sent: bool,
    pub too_many_sent: bool,
}

pub open spec fn initial_retry_state() -> RetryState {
    RetryState {
        retry_seconds: 2,
        missing_rules_sent: false,
        provisioning_sent: false,
        too_many_sent: false,
    }
}

/// The doubling step, capped at 60 seconds.
pub open spec fn next_backoff(cur: u64) -> u64 {
    if cur <= 30 {
        (cur * 2) as u64
    } else {
        60
    }
}

/// State after one failure of the given class: each classified condition
/// marks itself announced and clears the other two flags; a generic failure
/// clears all three and doubles the backoff; the connection-limit condition
/// also pins the backoff to 60.
pub open spec fn after_failure(s: RetryState, c: FailureClass) -> RetryState {
    match c {
        FailureClass::MissingRules => RetryState {
            missing_rules_sent: true,
            provisioning_sent: false,
            too_many_sent: false,
            retry_seconds: s.retry_seconds,
        },
        FailureClass::Provisioning => RetryState {
            missing_rules_sent: false,
            provisioning_sent: true,
            too_many_sent: false,
            retry_seconds: s.retry_seconds,
        },
        FailureClass::TooManyConnections => RetryState {
            missing_rules_sent: false,
            provisioning_sent: false,
            too_many_sent: true,
            retry_seconds: 60,
        },
        FailureClass::Generic => RetryState {
            missing_rules_sent: false,
            provisioning_sent: false,
            too_many_sent: false,
            retry_seconds: next_backoff(s.retry_seconds),
        },
    }
}

/// Seconds to wait before the next attempt after a failure of class `c`.
pub open spec fn wait_of(s: RetryState, c: FailureClass) -> u64 {
    match c {
        FailureClass::MissingRules => 5,
        FailureClass::Provisioning => 60,
        FailureClass::TooManyConnections => 60,
        FailureClass::Generic => s.retry_seconds,
    }
}

/// Whether this failure emits an informational message: classified
/// conditions announce themselves at most once per uninterrupted streak.
pub open spec fn emits_info(s: RetryState, c: FailureClass) -> bool {
    match c {
        FailureClass::MissingRules => !s.missing_rules_sent,
        FailureClass::Provisioning => !s.provisioning_sent,
        FailureClass::TooManyConnections => !s.too_many_sent,
        FailureClass::Generic => true,
    }
}

pub open spec fn msg_missing_rules() -> Seq<char> {
    "No stream rules are configured yet. Press 'a' to add a monitor."@
}

pub open spec fn msg_provisioning() -> Seq<char> {
    "X is provisioning your subscription. Retrying stream in 60s."@
}

pub open spec fn msg_too_many() -> Seq<char> {
    "X reports max active stream connections. Close other clients or press 'x' to terminate all, then wait for reconnect."@
}

pub open spec fn msg_retrying(wait: nat) -> Seq<char> {
    "retrying stream connection in "@ + dec_of(wait) + "s"@
}

/// What the loop does after one failed attempt: how long to wait, and which
/// messages to surface.
#[derive(Debug)]
pub struct FailureDirective {
    pub wait_seconds: u64,
    pub info: Option<String>,
    pub error: Option<String>,
}

impl RetryState {
    pub open spec fn wf(self) -> bool {
        2 <= self.retry_seconds <= 60
    }

    pub fn new() -> (s: Self)
        ensures
            s == initial_retry_state(),
            s.wf(),
    {
        RetryState {
            retry_seconds: 2,
            missing_rules_sent: false,
            provisioning_sent: false,
            too_many_sent: false,
        }
    }

    /// A successful connection resets the backoff to 2 seconds and lets
    /// every classified condition announce itself again.
    pub fn on_connected(&mut self)
        ensures
            *final(self) == initial_retry_state(),
            final(self).wf(),
    {
        self.retry_seconds = 2;
        self.missing_rules_sent = false;
        self.provisioning_sent = false;
        self.too_many_sent = false;
    }

    /// Apply one failed attempt: returns the wait and the messages to emit,
    /// and advances the suppression flags and the backoff.
    pub fn on_failure(&mut self, kind: &StreamErrorKind) -> (d: FailureDirective)
        requires
            old(self).wf(),
        ensures
            final(self).wf(),
            *final(self) == after_failure(*old(self), class_of(*kind)),
            d.wait_seconds == wait_of(*old(self), class_of(*kind)),
            d.info is Some <==> emits_info(*old(self), class_of(*kind)),
            class_of(*kind) == FailureClass::MissingRules ==> (d.info matches Some(m) ==> m@
                == msg_missing_rules()),
            class_of(*kind) == FailureClass::Provisioning ==> (d.info matches Some(m) ==> m@
                == msg_provisioning()),
            class_of(*kind) == FailureClass::TooManyConnections ==> (d.info matches Some(m) ==> m@
                == msg_too_many()),
            class_of(*kind) == FailureClass::Generic ==> (d.info matches Some(m) ==> m@
                == msg_retrying(old(self).retry_seconds as nat)),
            class_of(*kind) != FailureClass::Generic ==> d.error is None,
            *kind is Unauthorized ==> (d.error matches Some(e) && e@ == "stream disconnected: "@
                + msg_unauthorized()),
            *kind matches StreamErrorKind::Other(t) ==> (d.error matches Some(e) && e@
                == "stream disconnected: "@ + t@),
    {
        match kind {
            StreamErrorKind::MissingRules => {
                let info = if self.missing_rules_sent {
                    None
                } else {
                    Some("No stream rules are configured yet. Press 'a' to add a monitor.".to_owned())
                };
                self.missing_rules_sent = true;
                self.provisioning_sent = false;
                self.too_many_sent = false;
                FailureDirective { wait_seconds: 5, info, error: None }
            },
            StreamErrorKind::Provisioning => {
                let info = if self.provisioning_sent {
                    None
                } else {
                    Some("X is provisioning your subscription. Retrying stream in 60s.".to_owned())
                };
                self.provisioning_sent = true;
                self.missing_rules_sent = false;
                self.too_many_sent = false;
                FailureDirective { wait_seconds: 60, info, error: None }
            },
            StreamErrorKind::TooManyConnections => {
                let info = if self.too_many_sent {
                    None
                } else {
                    Some(
                        "X reports max active stream connections. Close other clients or press 'x' to terminate all, then wait for reconnect.".to_owned(),
                    )
                };
                self.too_many_sent = true;
                self.missing_rules_sent = false;
                self.provisioning_sent = false;
                self.retry_seconds = 60;
                FailureDirective { wait_seconds: 60, info, error: None }
            },
            StreamErrorKind::Unauthorized => {
                let wait = self.retry_seconds;
                let error = str_concat(
                    "stream disconnected: ",
                    "stream unauthorized (check X bearer token permissions)",
                );
                let mut info = "retrying stream connection in ".to_owned();
                let num = u64_to_string(wait);
                info.append(num.as_str());
                info.append("s");
                proof {
                    assert(info@ =~= msg_retrying(old(self).retry_seconds as nat));
                }
                self.missing_rules_sent = false;
                self.provisioning_sent = false;
                self.too_many_sent = false;
                self.retry_seconds = if self.retry_seconds <= 30 {
                    self.retry_seconds * 2
                } else {
                    60
                };
                FailureDirective { wait_seconds: wait, info: Some(info), error: Some(error) }
            },
            StreamErrorKind::Other(t) => {
                let wait = self.retry_seconds;
                let error = str_concat("stream disconnected: ", t.as_str());
                let mut info = "retrying stream connection in ".to_owned();
                let num = u64_to_string(wait);
                info.append(num.as_str());
                info.append("s");
                proof {
                    assert(info@ =~= msg_retrying(old(self).retry_seconds as nat));
                }
                self.missing_rules_sent = false;
                self.provisioning_sent = false;
                self.too_many_sent = false;
                self.retry_seconds = if self.retry_seconds <= 30 {
                    self.retry_seconds * 2
                } else {
                    60
                };
                FailureDirective { wait_seconds: wait, info: Some(info), error: Some(error) }
            },
        }
    }
}

/// Powers of two.
pub open spec fn pow2(k: nat) -> nat
    decreases k,
{
    if k == 0 {
        1nat
    } else {
        2 * pow2((k - 1) as nat)
    }
}

/// The retry state after `k` consecutive generic failures from a fresh
/// connection.
pub open spec fn state_after_generic(k: nat) -> RetryState
    decreases k,
{
    if k == 0 {
        initial_retry_state()
    } else {
        after_failure(state_after_generic((k - 1) as nat), FailureClass::Generic)
    }
}

/// The wait before attempt `k + 1`, that is after the `k`-th consecutive
/// generic failure.
pub open spec fn generic_wait(k: nat) -> u64
    recommends
        k >= 1,
{
    wait_of(state_after_generic((k - 1) as nat), FailureClass::Generic)
}

pub open spec fn min_nat(a: nat, b: nat) -> nat {
    if a <= b {
        a
    } else {
        b
    }
}

proof fn lemma_backoff_value(j: nat)
    ensures
        state_after_generic(j).retry_seconds == min_nat(pow2(j + 1), 60),
    decreases j,
{
    if j == 0 {
        assert(pow2(1) == 2 * pow2(0));
    } else {
        lemma_backoff_value((j - 1) as nat);
        assert(pow2(j + 1) == 2 * pow2(j));
    }
}

/// For every run of `k` consecutive generic stream failures starting from a
/// fresh connection (`k >= 1`), the wait before attempt `k` is
/// `min(2^k, 60)` seconds; and a success resets the state, so the next wait
/// is 2 seconds again (`on_connected` restores `initial_retry_state`).
pub proof fn lemma_backoff_schedule(k: nat)
    requires
        k >= 1,
    ensures
        generic_wait(k) == min_nat(pow2(k), 60),
        wait_of(initial_retry_state(), FailureClass::Generic) == 2,
{
    lemma_backoff_value((k - 1) as nat);
}

/// Counts the informational messages emitted over `n` consecutive failures
/// of one classified condition `c`, starting from state `s`.
pub open spec fn classified_emissions(s: RetryState, c: FailureClass, n: nat) -> nat
    decreases n,
{
    if n == 0 || c == FailureClass::Generic {
        0nat
    } else {
        (if emits_info(s, c) {
            1nat
        } else {
            0nat
        }) + classified_emissions(after_failure(s, c), c, (n - 1) as nat)
    }
}

/// Each classified condition announces itself at most once per
/// uninterrupted streak: over any run of `n` failures of the same
/// classified condition, exactly one message is emitted when the streak
/// starts un-announced, and none when it was already announced.
pub proof fn lemma_classified_once(s: RetryState, c: FailureClass, n: nat)
    requires
        c != FailureClass::Generic,
        n >= 1,
    ensures
        classified_emissions(s, c, n) == if emits_info(s, c) {
            1nat
        } else {
            0nat
        },
    decreases n,
{
    if n == 1 {
        assert(classified_emissions(after_failure(s, c), c, 0) == 0);
    } else {
        lemma_classified_once(after_failure(s, c), c, (n - 1) as nat);
        assert(!emits_info(after_failure(s, c), c));
    }
}

/// A different condition, a generic failure, or a success lets every other
/// classified condition announce itself again: after any failure of class
/// `c2 != c`, and after a reconnect, condition `c` emits on its next
/// occurrence.
pub proof fn lemma_suppression_reset(s: RetryState, c: FailureClass, c2: FailureClass)
    requires
        c != FailureClass::Generic,
        c != c2,
    ensures
        emits_info(after_failure(s, c2), c),
        emits_info(initial_retry_state(), c),
{
}

/// One error object of a remote response.
#[derive(Debug, Clone)]
pub struct ApiErrorInfo {
    pub title: Option<String>,
    pub detail: Option<String>,
    pub value: Option<String>,
}

/// The pieces of one error line: title, detail, then `value=...`.
pub open spec fn error_parts(e: ApiErrorInfo) -> Seq<Seq<char>> {
    (match e.title {
        Some(t) => seq![t@],
        None => Seq::<Seq<char>>::empty(),
    }) + (match e.detail {
        Some(d) => seq![d@],
        None => Seq::<Seq<char>>::empty(),
    }) + (match e.value {
        Some(v) => seq!["value="@ + v@],
        None => Seq::<Seq<char>>::empty(),
    })
}

pub open spec fn error_entry(e: ApiErrorInfo) -> Seq<char> {
    if error_parts(e).len() == 0 {
        "unknown error"@
    } else {
        join_seqs(error_parts(e), " | "@)
    }
}

/// The rendering of a remote error list: entries joined with `; `.
pub open spec fn format_errors_spec(es: Seq<ApiErrorInfo>) -> Seq<char> {
    join_seqs(es.map_values(|e: ApiErrorInfo| error_entry(e)), "; "@)
}

fn error_entry_exec(e: &ApiErrorInfo) -> (r: String)
    ensures
        r@ == error_entry(*e),
{
    let ghost p_title: Seq<Seq<char>> = match &e.title {
        Some(t) => seq![t@],
        None => Seq::<Seq<char>>::empty(),
    };
    let ghost p_detail: Seq<Seq<char>> = match &e.detail {
        Some(d) => seq![d@],
        None => Seq::<Seq<char>>::empty(),
    };
    let ghost p_value: Seq<Seq<char>> = match &e.value {
        Some(v) => seq!["value="@ + v@],
        None => Seq::<Seq<char>>::empty(),
    };
    let mut parts: Vec<String> = Vec::new();
    match &e.title {
        Some(t) => {
            let ghost pre = parts;
            parts.push(t.clone());
            proof {
                lemma_push_deep_view(pre, parts, parts@[parts@.len() - 1]);
                assert(parts.deep_view() =~= p_title);
            }
        },
        None => {
            proof {
                assert(parts.deep_view() =~= p_title);
            }
        },
    }
    match &e.detail {
        Some(d) => {
            let ghost pre = parts;
            parts.push(d.clone());
            proof {
                lemma_push_deep_view(pre, parts, parts@[parts@.len() - 1]);
                assert(parts.deep_view() =~= p_title + p_detail);
            }
        },
        None => {
            proof {
                assert(parts.deep_view() =~= p_title + p_detail);
            }
        },
    }
    match &e.value {
        Some(v) => {
            let ghost pre = parts;
            parts.push(str_concat("value=", v.as_str()));
            proof {
                lemma_push_deep_view(pre, parts, parts@[parts@.len() - 1]);
                assert(parts.deep_view() =~= p_title + p_detail + p_value);
            }
        },
        None => {
            proof {
                assert(parts.deep_view() =~= p_title + p_detail + p_value);
            }
        },
    }
    proof {
        assert(parts.deep_view() == error_parts(*e));
        assert(parts.deep_view().len() == parts@.len());
    }
    if parts.len() == 0 {
        "unknown error".to_owned()
    } else {
        join_strings(&parts, " | ")
    }
}

/// Render a remote error list for the user, as the original response showed
/// them: `title | detail | value=...` entries joined with `; `, and
/// `unknown error` for an empty object.
pub fn format_errors(errors: &Vec<ApiErrorInfo>) -> (r: String)
    ensures
        r@ == format_errors_spec(errors@),
{
    let ghost mapped = errors@.map_values(|e: ApiErrorInfo| error_entry(e));
    let mut entries: Vec<String> = Vec::new();
    let mut i: usize = 0;
    proof {
        assert(entries.deep_view() =~= mapped.take(0));
    }
    while i < errors.len()
        invariant
            i <= errors@.len(),
            mapped == errors@.map_values(|e: ApiErrorInfo| error_entry(e)),
            mapped.len() == errors@.len(),
            entries.deep_view() == mapped.take(i as int),
        decreases errors@.len() - i,
    {
        let ghost pre = entries;
        entries.push(error_entry_exec(&errors[i]));
        proof {
            lemma_push_deep_view(pre, entries, entries@[entries@.len() - 1]);
            assert(mapped.take(i + 1) =~= mapped.take(i as int).push(mapped[i as int]));
            assert(entries.deep_view() =~= mapped.take(i + 1));
        }
        i += 1;
    }
    proof {
        assert(mapped.take(mapped.len() as int) =~= mapped);
    }
    join_strings(&entries, "; ")
}

/// One user object carried in a stream line's expansion data.
#[derive(Debug, Clone)]
pub struct EnvelopeUser {
    pub id: String,
    pub username: String,
}

/// The post payload of a stream line.
#[derive(Debug, Clone)]
pub struct EnvelopePost {
    pub id: String,
    pub text: String,
    pub author_id: Option<String>,
}

/// One decoded, non-blank stream line: an optional post, the user lookups
/// that came with it, the matching rule tags, and an optional error list.
#[derive(Debug, Clone)]
pub struct StreamEnvelope {
    pub post: Option<EnvelopePost>,
    pub users: Vec<EnvelopeUser>,
    pub tags: Vec<Option<String>>,
    pub errors: Option<Vec<ApiErrorInfo>>,
}

/// The username of the author, resolved against the user lookups; when one
/// id occurs twice, the later entry wins.
pub open spec fn username_for(users: Seq<EnvelopeUser>, id: Seq<char>) -> Option<Seq<char>>
    decreases users.len(),
{
    if users.len() == 0 {
        None
    } else if users.last().id@ == id {
        Some(users.last().username@)
    } else {
        username_for(users.drop_last(), id)
    }
}

pub open spec fn username_for_author(users: Seq<EnvelopeUser>, author: Option<String>) -> Option<
    Seq<char>,
> {
    match author {
        Some(a) => username_for(users, a@),
        None => None,
    }
}

fn find_username(users: &Vec<EnvelopeUser>, n: usize, id: &String) -> (r: Option<String>)
    requires
        n <= users@.len(),
    ensures
        opt_view(r) == username_for(users@.take(n as int), id@),
    decreases n,
{
    if n == 0 {
        proof {
            assert(users@.take(0).len() == 0);
        }
        None
    } else if users[n - 1].id == *id {
        proof {
            assert(users@.take(n as int).last() == users@[n - 1]);
        }
        Some(users[n - 1].username.clone())
    } else {
        let r = find_username(users, n - 1, id);
        proof {
            assert(users@.take(n as int).last() == users@[n - 1]);
            assert(users@.take(n as int).drop_last() =~= users@.take(n - 1));
        }
        r
    }
}

/// The present rule tags of a stream line, absent ones dropped.
pub open spec fn present_tags(ts: Seq<Option<String>>) -> Seq<Seq<char>>
    decreases ts.len(),
{
    if ts.len() == 0 {
        Seq::<Seq<char>>::empty()
    } else {
        (match ts[0] {
            Some(t) => seq![t@],
            None => Seq::<Seq<char>>::empty(),
        }) + present_tags(ts.drop_first())
    }
}

fn collect_tags(ts: &Vec<Option<String>>) -> (r: Vec<String>)
    ensures
        r.deep_view() == present_tags(ts@),
{
    let mut r: Vec<String> = Vec::new();
    let mut i: usize = 0;
    proof {
        assert(ts@.skip(0) =~= ts@);
        assert(r.deep_view() =~= Seq::<Seq<char>>::empty());
    }
    while i < ts.len()
        invariant
            i <= ts@.len(),
            present_tags(ts@) == r.deep_view() + present_tags(ts@.skip(i as int)),
        decreases ts@.len() - i,
    {
        proof {
            assert(ts@.skip(i as int)[0] == ts@[i as int]);
            assert(ts@.skip(i as int).drop_first() =~= ts@.skip(i + 1));
        }
        match &ts[i] {
            Some(t) => {
                let ghost pre = r;
                r.push(t.clone());
                proof {
                    lemma_push_deep_view(pre, r, r@[r@.len() - 1]);
                    assert(pre.deep_view() + (seq![ts@[i as int]->0@] + present_tags(
                        ts@.skip(i + 1),
                    )) =~= r.deep_view() + present_tags(ts@.skip(i + 1)));
                }
            },
            None => {
                proof {
                    assert(r.deep_view() + (Seq::<Seq<char>>::empty() + present_tags(
                        ts@.skip(i + 1),
                    )) =~= r.deep_view() + present_tags(ts@.skip(i + 1)));
                }
            },
        }
        i += 1;
    }
    proof {
        assert(ts@.skip(ts@.len() as int) =~= Seq::<Option<String>>::empty());
        assert(present_tags(ts@) =~= r.deep_view());
    }
    r
}

/// Route one decoded stream line, as the reader applies it: a line carrying
/// remote errors surfaces them as one error message and nothing else; a line
/// with a post yields a stream-post message, with its author resolved from
/// the user lookups and its present rule tags attached; any other line is
/// ignored.
pub fn handle_envelope(env: StreamEnvelope) -> (out: Option<Msg>)
    ensures
        env.errors matches Some(es) ==> (out matches Some(m) && m matches Msg::Error(t) && t@
            == "stream response errors: "@ + format_errors_spec(es@)),
        env.errors is None ==> (env.post matches Some(p) ==> (out matches Some(m) && m matches
            Msg::StreamPost(sp) && sp.id@ == p.id@ && sp.text@ == p.text@ && opt_view(sp.author_id)
            == opt_view(p.author_id) && opt_view(sp.author_username) == username_for_author(
            env.users@,
            p.author_id,
        ) && sp.matching_tags.deep_view() == present_tags(env.tags@))),
        env.errors is None && env.post is None ==> out is None,
{
    if let Some(es) = &env.errors {
        let rendered = format_errors(es);
        return Some(Msg::Error(str_concat("stream response errors: ", rendered.as_str())));
    }
    match env.post {
        Some(p) => {
            let author_username = match &p.author_id {
                Some(aid) => {
                    let r = find_username(&env.users, env.users.len(), aid);
                    proof {
                        assert(env.users@.take(env.users@.len() as int) =~= env.users@);
                    }
                    r
                },
                None => None,
            };
            let tags = collect_tags(&env.tags);
            Some(
                Msg::StreamPost(
                    StreamPost {
                        id: p.id,
                        author_id: p.author_id,
                        author_username,
                        text: p.text,
                        matching_tags: tags,
                    },
                ),
            )
        },
        None => None,
    }
}

} // verus!
