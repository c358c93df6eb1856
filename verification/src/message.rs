//! How the commit message is produced: the prompt built from the staged diff,
//! the request aimed at the text-generation endpoint, and the fallback chain
//! that makes the step total — a message comes out of every run, whatever
//! failed on the way.

use crate::json::extract_candidate_text;
use crate::json::extracted_text;
use crate::json::payload_text;
use crate::json::request_payload;
use vstd::prelude::*;
use vstd::string::StringExecFns;

verus! {

/// The fixed message used whenever generation cannot complete.
pub open spec fn fallback_text() -> Seq<char> {
    "Updated files"@
}

/// The fixed message used when nothing is staged.
pub open spec fn noop_text() -> Seq<char> {
    "Minor updates"@
}

/// The instruction placed before the staged diff in the prompt.
pub open spec fn prompt_prefix() -> Seq<char> {
    "Generate a clear, concise Git commit message for the following changes:\n\n"@
}

/// The endpoint address up to the credential, which is passed as the value of
/// its one query parameter.
pub open spec fn endpoint_prefix() -> Seq<char> {
    "https://generativelanguage.googleapis.com/v1beta/models/gemini-1.5-flash:generateContent?key="@
}

/// The prompt sent for a staged diff.
pub open spec fn prompt_text(diff: Seq<char>) -> Seq<char> {
    prompt_prefix() + diff
}

/// The address the request is posted to for a given credential.
pub open spec fn url_text(credential: Seq<char>) -> Seq<char> {
    endpoint_prefix() + credential
}

/// The fixed message used whenever generation cannot complete.
pub fn fallback_message() -> (r: String)
    ensures
        r@ == fallback_text(),
{
    "Updated files".to_owned()
}

/// The fixed message used when nothing is staged.
pub fn noop_message() -> (r: String)
    ensures
        r@ == noop_text(),
{
    "Minor updates".to_owned()
}

/// The prompt for a staged diff: the fixed instruction, then the diff.
pub fn prompt_for(diff: &str) -> (r: String)
    ensures
        r@ == prompt_text(diff@),
{
    let mut out = "Generate a clear, concise Git commit message for the following changes:\n\n".to_owned();
    out.append(diff);
    out
}

/// The address the request is posted to, carrying the credential.
pub fn request_url(credential: &str) -> (r: String)
    ensures
        r@ == url_text(credential@),
{
    let mut out =
        "https://generativelanguage.googleapis.com/v1beta/models/gemini-1.5-flash:generateContent?key=".to_owned();
    out.append(credential);
    out
}

/// What the generation step does next, decided from the credential and the
/// staged diff before anything is sent.
pub enum MessagePlan {
    /// No credential: use the fixed fallback message, send nothing.
    UseFallback,
    /// Nothing staged: use the fixed no-op message, send nothing.
    UseNoop,
    /// Post `body` to `url` and read the message out of the reply.
    CallApi { url: String, body: String },
}

/// The plan for one generation step: without a credential the fallback, with
/// an empty diff the no-op message, otherwise the one permitted request,
/// aimed at the endpoint and carrying the prompt built from the diff.
pub fn plan_message(credential: &Option<String>, diff: &str) -> (r: MessagePlan)
    ensures
        credential is None ==> r is UseFallback,
        credential is Some && diff@.len() == 0 ==> r is UseNoop,
        credential matches Some(k) ==> diff@.len() > 0 ==> (r matches MessagePlan::CallApi {
            url,
            body,
        } && url@ == url_text(k@) && body@ == payload_text(prompt_text(diff@))),
{
    match credential {
        None => MessagePlan::UseFallback,
        Some(key) => {
            if diff.is_empty() {
                MessagePlan::UseNoop
            } else {
                let prompt = prompt_for(diff);
                MessagePlan::CallApi {
                    url: request_url(key.as_str()),
                    body: request_payload(prompt.as_str()),
                }
            }
        },
    }
}

/// The message taken from one exchange with the endpoint: the extracted text
/// when the status was a success and the field came back non-empty, the
/// fallback in every other case.
pub open spec fn chosen_message(status_ok: bool, text: Option<Seq<char>>) -> Seq<char> {
    match text {
        Some(t) => if status_ok && t.len() > 0 {
            t
        } else {
            fallback_text()
        },
        None => fallback_text(),
    }
}

/// The message for an extracted reply field: the text itself when the status
/// was a success and the field is non-empty, the fallback otherwise.
pub fn message_from_extracted(status_ok: bool, text: Option<String>) -> (r: String)
    ensures
        r@ == chosen_message(status_ok, text.deep_view()),
{
    match text {
        Some(t) => {
            if status_ok && !t.as_str().is_empty() {
                t
            } else {
                fallback_message()
            }
        },
        None => fallback_message(),
    }
}

/// The message taken from a reply: what the reply's first candidate carries
/// when the status was a success and that text is non-empty, the fallback in
/// every other case — a reply that is not JSON or lacks the field included.
pub fn message_from_response(status_ok: bool, body: &str) -> (r: String)
    ensures
        r@ == chosen_message(status_ok, extracted_text(body@)),
{
    let text = extract_candidate_text(body);
    message_from_extracted(status_ok, text)
}

/// The whole generation step as a function of the credential, the staged
/// diff, and the outcome of the one permitted exchange — `None` where the
/// transport failed, `Some((status, reply))` where an answer came back. The
/// exchange only matters when a credential is present and the diff is
/// non-empty; those are the only runs that send anything.
pub open spec fn generated_message(
    credential: Option<Seq<char>>,
    diff: Seq<char>,
    exchange: Option<(bool, Seq<char>)>,
) -> Seq<char> {
    if credential is None {
        fallback_text()
    } else if diff.len() == 0 {
        noop_text()
    } else {
        match exchange {
            None => fallback_text(),
            Some((status_ok, body)) => chosen_message(status_ok, extracted_text(body)),
        }
    }
}

/// Law: without a credential the generator yields the fixed fallback message,
/// whatever the diff holds and whatever an exchange would have returned.
pub proof fn lemma_no_credential_falls_back(diff: Seq<char>, exchange: Option<(bool, Seq<char>)>)
    ensures
        generated_message(None, diff, exchange) == fallback_text(),
{
}

/// Law: a failed transport on a non-empty diff yields the fixed fallback
/// message.
pub proof fn lemma_failed_transport_falls_back(credential: Seq<char>, diff: Seq<char>)
    requires
        diff.len() > 0,
    ensures
        generated_message(Some(credential), diff, None) == fallback_text(),
{
}

/// Law: with a credential and an empty diff the generator yields the fixed
/// no-op message, and the result does not depend on any exchange — none is
/// needed, so none is sent.
pub proof fn lemma_empty_diff_short_circuits(
    credential: Seq<char>,
    diff: Seq<char>,
    e1: Option<(bool, Seq<char>)>,
    e2: Option<(bool, Seq<char>)>,
)
    requires
        diff.len() == 0,
    ensures
        generated_message(Some(credential), diff, e1) == noop_text(),
        generated_message(Some(credential), diff, e1) == generated_message(
            Some(credential),
            diff,
            e2,
        ),
{
}

/// Law: a reply with a non-success status, or one that does not carry the
/// expected text field, yields the fixed fallback message.
pub proof fn lemma_bad_reply_falls_back(
    credential: Seq<char>,
    diff: Seq<char>,
    status_ok: bool,
    body: Seq<char>,
)
    requires
        diff.len() > 0,
        !status_ok || extracted_text(body) is None,
    ensures
        generated_message(Some(credential), diff, Some((status_ok, body))) == fallback_text(),
{
}

/// Law: a successful reply whose first candidate carries a non-empty text
/// yields exactly that text.
pub proof fn lemma_good_reply_is_verbatim(
    credential: Seq<char>,
    diff: Seq<char>,
    body: Seq<char>,
    t: Seq<char>,
)
    requires
        diff.len() > 0,
        extracted_text(body) == Some(t),
        t.len() > 0,
    ensures
        generated_message(Some(credential), diff, Some((true, body))) == t,
{
}

/// Law: the generator never yields an empty message; every path ends in the
/// extracted non-empty text or in one of the two fixed non-empty messages.
pub proof fn lemma_message_never_empty(
    credential: Option<Seq<char>>,
    diff: Seq<char>,
    exchange: Option<(bool, Seq<char>)>,
)
    ensures
        generated_message(credential, diff, exchange).len() > 0,
{
    reveal_strlit("Updated files");
    reveal_strlit("Minor updates");
}

} // verus!
