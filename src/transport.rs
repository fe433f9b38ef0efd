//! The request lifecycle of one chat-completion call: the endpoint URL, which
//! failures are retried and after what delay, and the text of the error that
//! ends a call.
use vstd::prelude::*;
use crate::json::{json_nested_str, json_nested_str_of, json_str_field, json_str_field_of};
use crate::text::{
    blank, decimal, decimal_text, has_substring, contains_text, trim, trim_seq, truncate, truncated,
    chars_of,
};

verus! {

/// Attempts made after the first one before a call fails for good.
pub const MAX_RETRIES: usize = 2;

/// Characters of the raw body quoted in an error message.
pub const BODY_SNIPPET_CHARS: usize = 2000;

/// HTTP statuses that mark a transient failure.
pub open spec fn retryable_status(status: u16) -> bool {
    status == 429 || status == 500 || status == 502 || status == 503 || status == 504
}

pub fn should_retry_status(status: u16) -> (r: bool)
    ensures
        r == retryable_status(status),
{
    status == 429 || status == 500 || status == 502 || status == 503 || status == 504
}

pub open spec fn is_success(status: u16) -> bool {
    200 <= status <= 299
}

/// The kind of an I/O error found in the source chain of a transport error.
#[derive(Clone, Copy, Debug, PartialEq, Eq, Structural)]
pub enum IoKind {
    UnexpectedEof,
    ConnectionReset,
    ConnectionAborted,
    BrokenPipe,
    Other,
}

/// I/O error kinds that stand for a truncated or dropped connection.
pub open spec fn retryable_io(k: IoKind) -> bool {
    !(k is Other)
}

/// Whether some link of a transport error's source chain is an I/O error of a
/// retryable kind (`None` stands for a link that is no I/O error).
pub open spec fn chain_has_retryable_io(chain: Seq<Option<IoKind>>) -> bool {
    exists|i: int| 0 <= i < chain.len() && (#[trigger] chain[i]) is Some && retryable_io(chain[i]->0)
}

/// Whether the source chain of a transport error holds an I/O error of a kind
/// that marks a dropped connection.
pub fn error_chain_has_retryable_io_dyn(chain: &Vec<Option<IoKind>>) -> (r: bool)
    ensures
        r == chain_has_retryable_io(chain@),
{
    let mut i: usize = 0;
    while i < chain.len()
        invariant
            i <= chain.len(),
            forall|k: int| 0 <= k < i ==> !((#[trigger] chain@[k]) is Some && retryable_io(chain@[k]->0)),
        decreases chain.len() - i,
    {
        match chain[i] {
            Some(IoKind::Other) | None => {},
            Some(_) => {
                assert(chain@[i as int] is Some && retryable_io(chain@[i as int]->0));
                return true;
            },
        }
        i = i + 1;
    }
    false
}

/// What the transport reported about a failed request or body read.
pub struct TransportFailure {
    pub timeout: bool,
    pub connect: bool,
    pub body: bool,
    pub decode: bool,
    pub io_chain: Vec<Option<IoKind>>,
}

pub open spec fn transport_retryable(f: TransportFailure) -> bool {
    f.timeout || f.connect || f.body || f.decode || chain_has_retryable_io(f.io_chain@)
}

/// Timeouts, connection failures, body and decode failures, and dropped
/// connections are worth another attempt.
pub fn should_retry_transport(f: &TransportFailure) -> (r: bool)
    ensures
        r == transport_retryable(*f),
{
    f.timeout || f.connect || f.body || f.decode || error_chain_has_retryable_io_dyn(&f.io_chain)
}

/// Number of trailing `/` of `s`.
pub open spec fn trail_slashes(s: Seq<char>) -> nat
    decreases s.len(),
{
    if s.len() > 0 && s.last() == '/' {
        1 + trail_slashes(s.drop_last())
    } else {
        0
    }
}

/// The completions endpoint under `base`.
pub open spec fn completions_url_of(base: Seq<char>) -> Seq<char> {
    base.take(base.len() - trail_slashes(base)) + "/chat/completions"@
}

proof fn lemma_trail_slashes_at(s: Seq<char>, k: int)
    requires
        0 <= k <= s.len(),
        forall|i: int| k <= i < s.len() ==> #[trigger] s[i] == '/',
        k == 0 || s[k - 1] != '/',
    ensures
        trail_slashes(s) == s.len() - k,
    decreases s.len(),
{
    if k < s.len() {
        assert forall|i: int| k <= i < s.len() - 1 implies #[trigger] s.drop_last()[i] == '/' by {
            assert(s.drop_last()[i] == s[i]);
        }
        if k > 0 {
            assert(s.drop_last()[k - 1] == s[k - 1]);
        }
        lemma_trail_slashes_at(s.drop_last(), k);
    }
}

/// The completions endpoint under `base_url`, whatever slashes end it.
pub fn completions_url(base_url: &str) -> (r: String)
    ensures
        r@ == completions_url_of(base_url@),
{
    let v = chars_of(base_url);
    let mut e: usize = v.len();
    while e > 0 && v[e - 1] == '/'
        invariant
            e <= v.len(),
            forall|i: int| e <= i < v.len() ==> #[trigger] v@[i] == '/',
        decreases e,
    {
        e = e - 1;
    }
    proof {
        lemma_trail_slashes_at(v@, e as int);
    }
    let mut r = String::new();
    let mut i: usize = 0;
    while i < e
        invariant
            i <= e <= v.len(),
            r@ == v@.take(i as int),
        decreases e - i,
    {
        let piece = char_text(v[i]);
        r.append(piece.as_str());
        assert(r@ =~= v@.take(i + 1));
        i = i + 1;
    }
    r.append("/chat/completions");
    r
}

/// A string of the one character `c`.
fn char_text(c: char) -> (r: String)
    ensures
        r@ == seq![c],
{
    let v: Vec<char> = vec![c];
    let r = crate::text::string_of_chars(&v);
    assert(v@ =~= seq![c]);
    r
}

pub open spec fn is_digit(c: char) -> bool {
    '0' <= c <= '9'
}

pub open spec fn digit_value(c: char) -> nat {
    (c as int - '0' as int) as nat
}

/// The number that the decimal digits `d` spell.
pub open spec fn digits_value(d: Seq<char>) -> nat
    decreases d.len(),
{
    if d.len() == 0 {
        0
    } else {
        digits_value(d.drop_last()) * 10 + digit_value(d.last())
    }
}

/// `s` without one leading `+`.
pub open spec fn sans_plus(s: Seq<char>) -> Seq<char> {
    if s.len() > 0 && s[0] == '+' {
        s.drop_first()
    } else {
        s
    }
}

/// Whether `d` is one or more decimal digits.
pub open spec fn all_digits(d: Seq<char>) -> bool {
    d.len() > 0 && forall|i: int| 0 <= i < d.len() ==> is_digit(#[trigger] d[i])
}

/// What `u64::from_str` accepts: an optional `+`, then one or more decimal
/// digits whose value fits.
pub open spec fn parse_u64_of(s: Seq<char>) -> Option<u64> {
    if all_digits(sans_plus(s)) && digits_value(sans_plus(s)) <= u64::MAX {
        Some(digits_value(sans_plus(s)) as u64)
    } else {
        None
    }
}

/// A `Retry-After` value read as delta-seconds (an HTTP date gives `None`).
pub open spec fn retry_after_of(v: Seq<char>) -> Option<u64> {
    parse_u64_of(trim_seq(v))
}

proof fn lemma_digits_prefix(d: Seq<char>, k: int)
    requires
        0 <= k <= d.len(),
    ensures
        digits_value(d.take(k)) <= digits_value(d),
    decreases d.len() - k,
{
    if k < d.len() {
        lemma_digits_prefix(d, k + 1);
        assert(d.take(k + 1).drop_last() =~= d.take(k));
    } else {
        assert(d.take(k) =~= d);
    }
}

fn parse_u64(v: &Vec<char>) -> (r: Option<u64>)
    ensures
        r == parse_u64_of(v@),
{
    let start: usize = if v.len() > 0 && v[0] == '+' {
        1
    } else {
        0
    };
    let ghost d = sans_plus(v@);
    assert(d =~= v@.subrange(start as int, v@.len() as int));
    if start == v.len() {
        return None;
    }
    let mut acc: u64 = 0;
    let mut i: usize = start;
    while i < v.len()
        invariant
            start <= i <= v.len(),
            d =~= v@.subrange(start as int, v@.len() as int),
            d == sans_plus(v@),
            d.len() > 0,
            acc as nat == digits_value(d.take(i - start)),
            forall|k: int| 0 <= k < i - start ==> is_digit(#[trigger] d[k]),
        decreases v.len() - i,
    {
        let c = v[i];
        assert(d[i - start] == c);
        if c < '0' || c > '9' {
            assert(!is_digit(d[i - start]));
            assert(!all_digits(d));
            return None;
        }
        let dv: u64 = (c as u32 - '0' as u32) as u64;
        assert(d.take(i - start + 1).drop_last() =~= d.take(i - start));
        assert(d.take(i - start + 1).last() == c);
        assert(digits_value(d.take(i - start + 1)) == acc * 10 + dv);
        proof {
            lemma_digits_prefix(d, i - start + 1);
        }
        let m = match acc.checked_mul(10) {
            Some(m) => m,
            None => return None,
        };
        let n = match m.checked_add(dv) {
            Some(n) => n,
            None => return None,
        };
        acc = n;
        i = i + 1;
    }
    assert(d.take(d.len() as int) =~= d);
    Some(acc)
}

/// Reads an unsigned integer, ignoring surrounding whitespace.
pub fn parse_trimmed_u64(value: &str) -> (r: Option<u64>)
    ensures
        r == parse_u64_of(trim_seq(value@)),
{
    let t = trim(value);
    let v = chars_of(t.as_str());
    parse_u64(&v)
}

/// Reads a `Retry-After` header value as delta-seconds.
pub fn parse_retry_after_secs(value: &str) -> (r: Option<u64>)
    ensures
        r == retry_after_of(value@),
{
    parse_trimmed_u64(value)
}

pub open spec fn pow2(n: nat) -> nat
    decreases n,
{
    if n == 0 {
        1
    } else {
        2 * pow2((n - 1) as nat)
    }
}

pub open spec fn min_nat(a: nat, b: nat) -> nat {
    if a <= b {
        a
    } else {
        b
    }
}

/// The wait before the retry that follows attempt `attempt` (0-based): 250 ms
/// doubled per attempt and capped at 3000 ms, or the server's `Retry-After`
/// in milliseconds where it gave one; plus `jitter` ms. Saturates at the
/// largest `u64`.
pub open spec fn backoff_ms(attempt: nat, retry_after: Option<u64>, jitter: u64) -> u64 {
    let base = 250 * pow2(min_nat(attempt, 10));
    let delay = match retry_after {
        Some(s) => min_nat((s * 1000) as nat, u64::MAX as nat),
        None => min_nat(base, 3000),
    };
    min_nat((delay + jitter) as nat, u64::MAX as nat) as u64
}

pub fn backoff_delay_ms(attempt: usize, retry_after: Option<u64>, jitter: u64) -> (r: u64)
    ensures
        r == backoff_ms(attempt as nat, retry_after, jitter),
{
    let steps: usize = if attempt < 10 {
        attempt
    } else {
        10
    };
    let mut base: u64 = 250;
    let mut k: usize = 0;
    while k < steps
        invariant
            k <= steps <= 10,
            base as nat == 250 * pow2(k as nat),
            pow2(k as nat) <= 1024,
        decreases steps - k,
    {
        proof {
            assert(pow2((k + 1) as nat) == 2 * pow2(k as nat));
            if k + 1 <= 10 {
                lemma_pow2_bound((k + 1) as nat);
            }
        }
        base = base * 2;
        k = k + 1;
    }
    let delay: u64 = match retry_after {
        Some(s) => match s.checked_mul(1000) {
            Some(ms) => ms,
            None => u64::MAX,
        },
        None => if base < 3000 {
            base
        } else {
            3000
        },
    };
    delay.saturating_add(jitter)
}

proof fn lemma_pow2_bound(n: nat)
    requires
        n <= 10,
    ensures
        pow2(n) <= 1024,
{
    reveal_with_fuel(pow2, 11);
}

} // verus!

verus! {

/// The remediation hint for an HTTP status, if any.
pub open spec fn hint_of(status: u16) -> Option<Seq<char>> {
    if status == 401 || status == 403 {
        Some(
            "Hint: check your API key (set `OPENROUTER_API_KEY` or use `--api-key`) and that it has access to the model."@,
        )
    } else if status == 404 {
        Some("Hint: check `--base-url` and the model name (`--model`)."@)
    } else if status == 408 || status == 504 {
        Some("Hint: the request timed out; try again or use a faster model."@)
    } else if status == 429 {
        Some("Hint: you may be rate limited; retry later or lower concurrency."@)
    } else if status == 500 || status == 502 || status == 503 {
        Some("Hint: upstream/server error; retry later."@)
    } else {
        None
    }
}

pub fn status_hint(status: u16) -> (r: Option<&'static str>)
    ensures
        match r {
            Some(h) => hint_of(status) == Some(h@),
            None => hint_of(status) is None,
        },
{
    if status == 401 || status == 403 {
        Some(
            "Hint: check your API key (set `OPENROUTER_API_KEY` or use `--api-key`) and that it has access to the model.",
        )
    } else if status == 404 {
        Some("Hint: check `--base-url` and the model name (`--model`).")
    } else if status == 408 || status == 504 {
        Some("Hint: the request timed out; try again or use a faster model.")
    } else if status == 429 {
        Some("Hint: you may be rate limited; retry later or lower concurrency.")
    } else if status == 500 || status == 502 || status == 503 {
        Some("Hint: upstream/server error; retry later.")
    } else {
        None
    }
}

/// The message of a failed HTTP call: status and URL, the request id when
/// there is one, the provider's message when it is not blank, the start of the
/// raw body when it is not blank, and the hint for the status.
pub open spec fn http_error_text(
    url: Seq<char>,
    status: u16,
    request_id: Seq<char>,
    api_message: Option<Seq<char>>,
    body: Seq<char>,
) -> Seq<char> {
    let head = "OpenRouter API error (HTTP "@ + decimal(status as nat) + ") when calling "@ + url;
    let rid = if request_id.len() > 0 {
        " (request_id: "@ + request_id + ")"@
    } else {
        Seq::empty()
    };
    let msg = match api_message {
        Some(m) => if trim_seq(m).len() > 0 {
            "\nMessage: "@ + trim_seq(m)
        } else {
            Seq::empty()
        },
        None => Seq::empty(),
    };
    let snippet = trim_seq(truncated(body, BODY_SNIPPET_CHARS as nat));
    let quoted = if snippet.len() > 0 {
        "\nBody:"@ + "\n"@ + snippet
    } else {
        Seq::empty()
    };
    let hint = match hint_of(status) {
        Some(h) => "\n"@ + h,
        None => Seq::empty(),
    };
    head + rid + msg + quoted + hint
}

/// Composes the message of a failed HTTP call from the provider message that
/// was read out of its body.
pub fn compose_http_error(
    url: &str,
    status: u16,
    request_id: &str,
    api_message: Option<String>,
    body: &str,
) -> (r: String)
    ensures
        r@ == http_error_text(url@, status, request_id@, crate::conversation::opt_text(api_message), body@),
{
    let mut msg = String::new();
    msg.append("OpenRouter API error (HTTP ");
    let code = decimal_text(status as u64);
    msg.append(code.as_str());
    msg.append(") when calling ");
    msg.append(url);
    let ghost head = msg@;
    if !request_id.is_empty() {
        msg.append(" (request_id: ");
        msg.append(request_id);
        msg.append(")");
    }
    let ghost with_rid = msg@;
    match &api_message {
        Some(m) => {
            let t = trim(m.as_str());
            if !t.as_str().is_empty() {
                msg.append("\nMessage: ");
                msg.append(t.as_str());
            }
        },
        None => {},
    }
    let ghost with_msg = msg@;
    let (snippet, _) = truncate(body, BODY_SNIPPET_CHARS);
    let s = trim(snippet.as_str());
    if !s.as_str().is_empty() {
        msg.append("\nBody:");
        msg.append("\n");
        msg.append(s.as_str());
    }
    let ghost with_body = msg@;
    match status_hint(status) {
        Some(h) => {
            msg.append("\n");
            msg.append(h);
        },
        None => {},
    }
    proof {
        let rid = if request_id@.len() > 0 {
            " (request_id: "@ + request_id@ + ")"@
        } else {
            Seq::<char>::empty()
        };
        assert(with_rid =~= head + rid);
    }
    assert(msg@ =~= http_error_text(
        url@,
        status,
        request_id@,
        crate::conversation::opt_text(api_message),
        body@,
    ));
    msg
}

/// The message of a provider error body: shaped `{"error":{"message":"..."}}`
/// or `{"error":"..."}`.
pub open spec fn api_error_message_of(body: Seq<char>) -> Option<Seq<char>> {
    match json_nested_str_of(body, "error"@, "message"@) {
        Some(m) => Some(m),
        None => json_str_field_of(body, "error"@),
    }
}

/// The message of a provider error body, where it has one.
pub fn api_error_message(body: &str) -> (r: Option<String>)
    ensures
        crate::conversation::opt_text(r) == api_error_message_of(body@),
{
    match json_nested_str(body, "error", "message") {
        Some(m) => Some(m),
        None => json_str_field(body, "error"),
    }
}

/// The message of a failed HTTP call, with the provider message read out of
/// `body` as JSON.
pub fn format_http_error(url: &str, status: u16, request_id: &str, body: &str) -> (r: String)
    ensures
        r@ == http_error_text(url@, status, request_id@, api_error_message_of(body@), body@),
{
    let api_message = api_error_message(body);
    compose_http_error(url, status, request_id, api_message, body)
}

/// What one attempt of a call came to.
pub enum AttemptOutcome {
    /// The request could not be sent or got no response.
    SendFailed { retryable: bool },
    /// A response came but its body could not be read; `status_text` is the
    /// status as the transport renders it.
    BodyFailed { status_text: String, retryable: bool },
    /// A response with its status, `Retry-After` delta-seconds, request id
    /// (empty if none) and body.
    Response { status: u16, retry_after: Option<u64>, request_id: String, body: String },
}

/// What to do after an attempt.
pub enum AttemptDecision {
    /// Wait `delay_ms` and try again.
    Retry { delay_ms: u64 },
    /// The call fails with this message.
    Fail { message: String },
    /// The response succeeded: read its body.
    Accept,
}

/// Whether a failed response may be retried: a 429 only when the server gave
/// `Retry-After` or retrying 429s is enabled.
pub open spec fn retry_allowed(status: u16, retry_after: Option<u64>, retry_429: bool) -> bool {
    status != 429 || retry_429 || retry_after is Some
}

/// The delay before the next attempt when attempt `attempt` (0-based) is
/// retried, or `None` when it is not.
pub open spec fn retry_delay(attempt: nat, o: AttemptOutcome, retry_429: bool, jitter: u64) -> Option<u64> {
    match o {
        AttemptOutcome::SendFailed { retryable } => if attempt < MAX_RETRIES && retryable {
            Some(backoff_ms(attempt, None, jitter))
        } else {
            None
        },
        AttemptOutcome::BodyFailed { retryable, .. } => if attempt < MAX_RETRIES && retryable {
            Some(backoff_ms(attempt, None, jitter))
        } else {
            None
        },
        AttemptOutcome::Response { status, retry_after, .. } => if !is_success(status) && attempt
            < MAX_RETRIES && retry_allowed(status, retry_after, retry_429) && retryable_status(status) {
            Some(backoff_ms(attempt, retry_after, jitter))
        } else {
            None
        },
    }
}

/// `" (attempt n/m)"` for attempt `attempt` (0-based).
pub open spec fn attempt_suffix(attempt: nat) -> Seq<char> {
    " (attempt "@ + decimal(attempt + 1) + "/"@ + decimal((MAX_RETRIES + 1) as nat) + ")"@
}

/// The message with which an attempt that is not retried ends the call.
pub open spec fn failure_text(attempt: nat, o: AttemptOutcome, url: Seq<char>) -> Seq<char> {
    match o {
        AttemptOutcome::SendFailed { .. } => "OpenRouter request failed: POST "@ + url + attempt_suffix(
            attempt,
        ),
        AttemptOutcome::BodyFailed { status_text, .. } => "failed to read OpenRouter response body (HTTP "@
            + status_text@ + ")"@ + attempt_suffix(attempt),
        AttemptOutcome::Response { status, request_id, body, .. } => http_error_text(
            url,
            status,
            request_id@,
            api_error_message_of(body@),
            body@,
        ),
    }
}

fn append_attempt_suffix(msg: &mut String, attempt: usize)
    requires
        attempt <= MAX_RETRIES,
    ensures
        final(msg)@ == old(msg)@ + attempt_suffix(attempt as nat),
{
    msg.append(" (attempt ");
    let a = decimal_text((attempt + 1) as u64);
    msg.append(a.as_str());
    msg.append("/");
    let b = decimal_text((MAX_RETRIES + 1) as u64);
    msg.append(b.as_str());
    msg.append(")");
    assert(final(msg)@ =~= old(msg)@ + attempt_suffix(attempt as nat));
}

/// The decision owed after attempt `attempt`: a retry after the backoff where
/// the outcome is retried, acceptance of a successful status, else failure
/// with the outcome's message.
pub open spec fn decided(
    r: AttemptDecision,
    attempt: nat,
    o: AttemptOutcome,
    retry_429: bool,
    url: Seq<char>,
    jitter: u64,
) -> bool {
    match retry_delay(attempt, o, retry_429, jitter) {
        Some(d) => r == AttemptDecision::Retry { delay_ms: d },
        None => match o {
            AttemptOutcome::Response { status, .. } if is_success(status) => r is Accept,
            _ => r matches AttemptDecision::Fail { message } && message@ == failure_text(attempt, o, url),
        },
    }
}

/// The status of a response outcome.
pub open spec fn status_of(o: AttemptOutcome) -> Option<u16> {
    match o {
        AttemptOutcome::Response { status, .. } => Some(status),
        _ => None,
    }
}

/// Whether the outcome is a response that carried `Retry-After`.
pub open spec fn gave_retry_after(o: AttemptOutcome) -> bool {
    o matches AttemptOutcome::Response { retry_after: Some(_), .. }
}

/// Decides what follows attempt `attempt` (0-based) of a call to `url`:
/// transient failures are retried after a backoff while attempts remain, a
/// successful status is accepted, and anything else ends the call.
pub fn decide_attempt(
    attempt: usize,
    outcome: &AttemptOutcome,
    retry_429: bool,
    url: &str,
    jitter_ms: u64,
) -> (r: AttemptDecision)
    requires
        attempt <= MAX_RETRIES,
    ensures
        decided(r, attempt as nat, *outcome, retry_429, url@, jitter_ms),
{
    let can_retry = attempt < MAX_RETRIES;
    match outcome {
        AttemptOutcome::SendFailed { retryable } => {
            if can_retry && *retryable {
                AttemptDecision::Retry { delay_ms: backoff_delay_ms(attempt, None, jitter_ms) }
            } else {
                let mut message = String::new();
                message.append("OpenRouter request failed: POST ");
                message.append(url);
                append_attempt_suffix(&mut message, attempt);
                assert(message@ =~= failure_text(attempt as nat, *outcome, url@));
                AttemptDecision::Fail { message }
            }
        },
        AttemptOutcome::BodyFailed { status_text, retryable } => {
            if can_retry && *retryable {
                AttemptDecision::Retry { delay_ms: backoff_delay_ms(attempt, None, jitter_ms) }
            } else {
                let mut message = String::new();
                message.append("failed to read OpenRouter response body (HTTP ");
                message.append(status_text.as_str());
                message.append(")");
                append_attempt_suffix(&mut message, attempt);
                assert(message@ =~= failure_text(attempt as nat, *outcome, url@));
                AttemptDecision::Fail { message }
            }
        },
        AttemptOutcome::Response { status, retry_after, request_id, body } => {
            if 200 <= *status && *status <= 299 {
                AttemptDecision::Accept
            } else {
                let allowed = *status != 429 || retry_429 || retry_after.is_some();
                if can_retry && allowed && should_retry_status(*status) {
                    AttemptDecision::Retry {
                        delay_ms: backoff_delay_ms(attempt, *retry_after, jitter_ms),
                    }
                } else {
                    let message = format_http_error(url, *status, request_id.as_str(), body.as_str());
                    AttemptDecision::Fail { message }
                }
            }
        },
    }
}

/// The retry policy: no outcome is retried once the attempt bound is reached,
/// so a call makes at most `MAX_RETRIES + 1` attempts; a successful status is
/// never retried; a 503 is retried exactly while attempts remain; and a 429
/// without `Retry-After` is retried exactly when retrying 429s is enabled and
/// attempts remain.
pub proof fn lemma_retry_policy(attempt: nat, o: AttemptOutcome, retry_429: bool, jitter: u64)
    ensures
        attempt >= MAX_RETRIES ==> retry_delay(attempt, o, retry_429, jitter) == None::<u64>,
        status_of(o) matches Some(st) && is_success(st) ==> retry_delay(attempt, o, retry_429, jitter)
            == None::<u64>,
        status_of(o) == Some(503u16) ==> (retry_delay(attempt, o, retry_429, jitter) != None::<u64>
            <==> attempt < MAX_RETRIES),
        status_of(o) == Some(429u16) && !gave_retry_after(o) ==> (retry_delay(attempt, o, retry_429, jitter)
            != None::<u64> <==> (retry_429 && attempt < MAX_RETRIES)),
{
}

/// Milliseconds since the Unix epoch, or 0 when the clock reads earlier.
/// Relies on `SystemTime::now`, `SystemTime::duration_since` and
/// `Duration::as_millis` to read the clock.
#[verifier::external_body]
pub fn now_millis() -> (r: u128) {
    std::time::SystemTime::now()
        .duration_since(std::time::UNIX_EPOCH)
        .unwrap_or_else(|_| std::time::Duration::from_millis(0))
        .as_millis()
}

/// The jitter added to a backoff: the clock's milliseconds modulo 50.
pub fn jitter_ms() -> (r: u64)
    ensures
        r < 50,
{
    (now_millis() % 50) as u64
}

/// The lower-case form of `s`.
pub uninterp spec fn lower_of(s: Seq<char>) -> Seq<char>;

/// Relies on `str::to_lowercase` to compare text without regard to case.
#[verifier::external_body]
pub(crate) fn lowercase(s: &str) -> (r: String)
    ensures
        r@ == lower_of(s@),
{
    s.to_lowercase()
}

/// Whether lower-case error text speaks of the context length.
pub open spec fn names_context_length(lowered: Seq<char>) -> bool {
    has_substring(lowered, "context"@) && has_substring(lowered, "length"@)
}

/// Whether already lower-cased error text speaks of the context length.
pub fn mentions_context_length(lowered: &str) -> (r: bool)
    ensures
        r == names_context_length(lowered@),
{
    contains_text(lowered, "context") && contains_text(lowered, "length")
}

/// Whether an error message reports an exceeded context window: it holds both
/// "context" and "length", whatever their case.
pub fn is_context_error(message: &str) -> (r: bool)
    ensures
        r == names_context_length(lower_of(message@)),
{
    let lowered = lowercase(message);
    mentions_context_length(lowered.as_str())
}

} // verus!
