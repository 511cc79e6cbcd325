//! Analysis calls: prompt preparation, the endpoint derivation, the request
//! validation, and the interpretation of the decoded response. The HTTP
//! call itself happens outside and hands its decoded fields back in.

use vstd::prelude::*;
use crate::text::{replace_pat_seq, str_to_chars, string_from_chars, sub_chars, trim_seq, trim_str};

verus! {

pub open spec fn default_system_prompt() -> Seq<char> {
    "You are an analyst for real-time Twitter monitoring. Provide concise, practical analysis based on the user's request."@
}

pub open spec fn default_monitor_prompt() -> Seq<char> {
    "Summarize why this post matters and what to watch next."@
}

pub open spec fn user_prompt_template() -> Seq<char> {
    "{{monitor_prompt}}\n\nTwitter post:\n{{post_text}}"@
}

/// The user prompt: the template with its two placeholders replaced by the
/// trimmed monitor prompt and post text.
pub open spec fn rendered_user_prompt(
    template: Seq<char>,
    monitor_prompt: Seq<char>,
    post_text: Seq<char>,
) -> Seq<char> {
    replace_pat_seq(
        replace_pat_seq(template, "{{monitor_prompt}}"@, trim_seq(monitor_prompt)),
        "{{post_text}}"@,
        trim_seq(post_text),
    )
}

/// Substitute the monitor prompt and post text into a prompt template.
pub fn render_user_prompt(template: &str, monitor_prompt: &str, post_text: &str) -> (r: String)
    ensures
        r@ == rendered_user_prompt(template@, monitor_prompt@, post_text@),
{
    let tv = str_to_chars(template);
    let p1 = str_to_chars("{{monitor_prompt}}");
    let mp = str_to_chars(monitor_prompt);
    let mp_t = crate::text::trim_chars(&mp);
    proof {
        reveal_strlit("{{monitor_prompt}}");
    }
    let step1 = crate::text::replace_pat_in(&tv, &p1, &mp_t);
    let p2 = str_to_chars("{{post_text}}");
    let pt = str_to_chars(post_text);
    let pt_t = crate::text::trim_chars(&pt);
    proof {
        reveal_strlit("{{post_text}}");
    }
    let step2 = crate::text::replace_pat_in(&step1, &p2, &pt_t);
    string_from_chars(&step2)
}

/// Prepare the three prompts of one analysis call: the fixed system prompt,
/// the monitor prompt (the default when blank), and the rendered user
/// prompt.
pub fn prepare_prompts(prompt: &str, post_text: &str) -> (r: (String, String, String))
    ensures
        r.0@ == default_system_prompt(),
        r.1@ == (if trim_seq(prompt@).len() == 0 {
            default_monitor_prompt()
        } else {
            trim_seq(prompt@)
        }),
        r.2@ == rendered_user_prompt(user_prompt_template(), r.1@, post_text@),
{
    let system_prompt =
        "You are an analyst for real-time Twitter monitoring. Provide concise, practical analysis based on the user's request.".to_owned();
    let trimmed = trim_str(prompt);
    let monitor_prompt: String = if trimmed.as_str().is_empty() {
        "Summarize why this post matters and what to watch next.".to_owned()
    } else {
        trimmed
    };
    let user_prompt = render_user_prompt(
        "{{monitor_prompt}}\n\nTwitter post:\n{{post_text}}",
        monitor_prompt.as_str(),
        post_text,
    );
    (system_prompt, monitor_prompt, user_prompt)
}

/// The chat endpoint behind a base address: trailing slashes dropped, then
/// `/chat/completions`.
pub open spec fn strip_trailing_slashes(s: Seq<char>) -> Seq<char>
    decreases s.len(),
{
    if s.len() > 0 && s[s.len() - 1] == '/' {
        strip_trailing_slashes(s.drop_last())
    } else {
        s
    }
}

pub open spec fn chat_endpoint_spec(base: Seq<char>) -> Seq<char> {
    strip_trailing_slashes(trim_seq(base)) + "/chat/completions"@
}

/// Derive the chat endpoint from a provider's base address.
pub fn chat_endpoint(base_url: &str) -> (r: Result<String, String>)
    ensures
        trim_seq(base_url@).len() == 0 ==> (r matches Err(e) && e@ == "AI endpoint is empty"@),
        trim_seq(base_url@).len() != 0 ==> (r matches Ok(u) && u@ == chat_endpoint_spec(base_url@)),
{
    let bv = str_to_chars(base_url);
    let trimmed = crate::text::trim_chars(&bv);
    if trimmed.len() == 0 {
        return Err("AI endpoint is empty".to_owned());
    }
    let mut hi: usize = trimmed.len();
    proof {
        assert(trimmed@.subrange(0, trimmed@.len() as int) =~= trimmed@);
    }
    while hi > 0 && trimmed[hi - 1] == '/'
        invariant
            hi <= trimmed@.len(),
            strip_trailing_slashes(trimmed@) == strip_trailing_slashes(
                trimmed@.subrange(0, hi as int),
            ),
        decreases hi,
    {
        proof {
            assert(trimmed@.subrange(0, hi as int).drop_last() =~= trimmed@.subrange(0, hi - 1));
        }
        hi -= 1;
    }
    proof {
        let head = trimmed@.subrange(0, hi as int);
        if hi > 0 {
            assert(head.len() > 0 && head[head.len() - 1] != '/');
        }
        assert(strip_trailing_slashes(head) == head);
    }
    let head = sub_chars(&trimmed, 0, hi);
    let mut u = string_from_chars(&head);
    u.append("/chat/completions");
    Ok(u)
}

/// The decoded error object of a chat response.
#[derive(Debug, Clone)]
pub struct ChatApiErrorInfo {
    pub kind: Option<String>,
    pub message: Option<String>,
}

/// The decoded fields of a chat response that the logic reads: the first
/// choice's content, and the error object when one came back.
#[derive(Debug)]
pub struct ChatResponseData {
    pub first_content: Option<String>,
    pub error: Option<ChatApiErrorInfo>,
}

pub open spec fn chat_error_text(e: ChatApiErrorInfo) -> Seq<char> {
    match e.kind {
        Some(k) => match e.message {
            Some(m) => k@ + ": "@ + m@,
            None => k@,
        },
        None => match e.message {
            Some(m) => m@,
            None => "unknown api error"@,
        },
    }
}

/// Interpret a decoded chat response: a reported error fails the call with
/// its type and message; otherwise the first choice's trimmed content is
/// the summary, and a missing or blank content fails the call.
pub fn interpret_chat_response(resp: ChatResponseData) -> (r: Result<String, String>)
    ensures
        resp.error matches Some(e) ==> (r matches Err(t) && t@ == "ai api error: "@
            + chat_error_text(e)),
        resp.error is None ==> match resp.first_content {
            Some(c) => if trim_seq(c@).len() != 0 {
                r matches Ok(s) && s@ == trim_seq(c@)
            } else {
                r matches Err(t) && t@ == "ai response did not contain a message"@
            },
            None => r matches Err(t) && t@ == "ai response did not contain a message"@,
        },
{
    match resp.error {
        Some(api_error) => {
            let rendered: String = match (api_error.kind, api_error.message) {
                (Some(k), Some(m)) => {
                    let mut s = k;
                    s.append(": ");
                    s.append(m.as_str());
                    s
                },
                (Some(k), None) => k,
                (None, Some(m)) => m,
                (None, None) => "unknown api error".to_owned(),
            };
            let mut t = "ai api error: ".to_owned();
            t.append(rendered.as_str());
            Err(t)
        },
        None => {
            match resp.first_content {
                Some(c) => {
                    let trimmed = trim_str(c.as_str());
                    if trimmed.as_str().is_empty() {
                        Err("ai response did not contain a message".to_owned())
                    } else {
                        Ok(trimmed)
                    }
                },
                None => Err("ai response did not contain a message".to_owned()),
            }
        },
    }
}

} // verus!
