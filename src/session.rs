//! Settings of a run that follow from the command line and the environment:
//! the submission mode, the API key, the log file name, the output mode, and
//! the limits of the tools.
use vstd::prelude::*;
use crate::conversation::opt_text;
use crate::text::{blank, chars_of, is_blank, string_of_chars};
use crate::text::trim_seq;
use crate::transport::{parse_trimmed_u64, parse_u64_of};

verus! {

/// Whether the model ends the run by calling `submit`: forced on by `exec`,
/// off by `no_submit`, else on exactly when the task comes from a file.
pub fn submit_mode(exec: bool, no_submit: bool, has_prompt_file: bool) -> (r: Result<bool, String>)
    ensures
        r is Err <==> (exec && no_submit),
        r matches Ok(b) ==> b == (exec || (!no_submit && has_prompt_file)),
        r matches Err(m) ==> m@ == "--exec and --no-submit cannot both be set"@,
{
    if exec && no_submit {
        return Err(copy("--exec and --no-submit cannot both be set"));
    }
    Ok(if exec {
        true
    } else if no_submit {
        false
    } else {
        has_prompt_file
    })
}

/// Buffered and streamed JSON output exclude each other.
pub fn check_output_modes(json: bool, stream_json: bool) -> (r: Result<(), String>)
    ensures
        r is Err <==> (json && stream_json),
        r matches Err(m) ==> m@ == "--json and --stream-json cannot both be set"@,
{
    if json && stream_json {
        return Err(copy("--json and --stream-json cannot both be set"));
    }
    Ok(())
}

fn copy(s: &str) -> (r: String)
    ensures
        r@ == s@,
{
    string_of_chars(&chars_of(s))
}

/// The refusal of a missing or empty API key.
pub open spec fn missing_key_text() -> Seq<char> {
    "missing API key: set --api-key or OPENROUTER_API_KEY"@
}

/// The API key: the flag's value, else the environment's; a missing or empty
/// key is an error.
pub fn resolve_api_key(flag: Option<String>, env: Option<String>) -> (r: Result<String, String>)
    ensures
        match (flag, env) {
            (Some(k), _) | (None, Some(k)) => if k@.len() > 0 {
                r matches Ok(v) && v@ == k@
            } else {
                r matches Err(m) && m@ == missing_key_text()
            },
            (None, None) => r matches Err(m) && m@ == missing_key_text(),
        },
{
    let key = match flag {
        Some(k) => Some(k),
        None => env,
    };
    match key {
        Some(k) => if k.as_str().is_empty() {
            Err(copy("missing API key: set --api-key or OPENROUTER_API_KEY"))
        } else {
            Ok(k)
        },
        None => Err(copy("missing API key: set --api-key or OPENROUTER_API_KEY")),
    }
}

/// `s` with every `:` turned into `-`.
pub open spec fn colons_to_dashes(s: Seq<char>) -> Seq<char> {
    s.map_values(|c: char|
        if c == ':' {
            '-'
        } else {
            c
        })
}

/// The default log file name of a run: its start time (with `:` made file
/// safe) and its session id.
pub open spec fn log_file_name_of(timestamp: Seq<char>, session_id: Seq<char>) -> Seq<char> {
    "ra-"@ + colons_to_dashes(timestamp) + "-"@ + session_id + ".jsonl"@
}

pub fn log_file_name(timestamp: &str, session_id: &str) -> (r: String)
    ensures
        r@ == log_file_name_of(timestamp@, session_id@),
{
    let v = chars_of(timestamp);
    let mut safe: Vec<char> = Vec::new();
    let mut i: usize = 0;
    while i < v.len()
        invariant
            i <= v.len(),
            v@ == timestamp@,
            safe@ == colons_to_dashes(v@.take(i as int)),
        decreases v.len() - i,
    {
        let c = if v[i] == ':' {
            '-'
        } else {
            v[i]
        };
        safe.push(c);
        assert(safe@ =~= colons_to_dashes(v@.take(i + 1)));
        i = i + 1;
    }
    assert(v@.take(v.len() as int) =~= v@);
    let mut r = copy("ra-");
    let s = string_of_chars(&safe);
    r.append(s.as_str());
    r.append("-");
    r.append(session_id);
    r.append(".jsonl");
    r
}

/// `path` taken relative to `cwd` unless it is absolute, joined as a Unix
/// path is: with one `/` between them unless `cwd` is empty or ends in one.
pub open spec fn resolved_path_of(cwd: Seq<char>, path: Seq<char>) -> Seq<char> {
    if path.len() > 0 && path[0] == '/' {
        path
    } else if cwd.len() == 0 || cwd.last() == '/' {
        cwd + path
    } else {
        cwd + "/"@ + path
    }
}

pub fn resolve_path(cwd: &str, path: &str) -> (r: String)
    ensures
        r@ == resolved_path_of(cwd@, path@),
{
    let p = chars_of(path);
    if p.len() > 0 && p[0] == '/' {
        return string_of_chars(&p);
    }
    let c = chars_of(cwd);
    let mut r = string_of_chars(&c);
    if !(c.len() == 0 || c[c.len() - 1] == '/') {
        r.append("/");
    }
    r.append(path);
    r
}

/// Bounds and default of the byte cap of web fetches.
pub const WEB_MAX_BYTES_DEFAULT: u64 = 2097152;

pub const WEB_MAX_BYTES_MIN: u64 = 65536;

pub const WEB_MAX_BYTES_MAX: u64 = 20971520;

/// The byte cap of web fetches from its setting: unset, blank or unreadable
/// settings give the default; others are held between the bounds.
pub open spec fn web_max_bytes_of(raw: Option<Seq<char>>) -> u64 {
    match raw {
        None => WEB_MAX_BYTES_DEFAULT,
        Some(s) => if is_blank(s) {
            WEB_MAX_BYTES_DEFAULT
        } else {
            match parse_u64_of(trim_seq(s)) {
                None => WEB_MAX_BYTES_DEFAULT,
                Some(v) => if v < WEB_MAX_BYTES_MIN {
                    WEB_MAX_BYTES_MIN
                } else if v > WEB_MAX_BYTES_MAX {
                    WEB_MAX_BYTES_MAX
                } else {
                    v
                },
            }
        },
    }
}

pub fn web_max_bytes_from(raw: Option<String>) -> (r: u64)
    ensures
        r == web_max_bytes_of(opt_text(raw)),
{
    match raw {
        None => WEB_MAX_BYTES_DEFAULT,
        Some(s) => {
            if blank(s.as_str()) {
                return WEB_MAX_BYTES_DEFAULT;
            }
            match parse_trimmed_u64(s.as_str()) {
                None => WEB_MAX_BYTES_DEFAULT,
                Some(v) => if v < WEB_MAX_BYTES_MIN {
                    WEB_MAX_BYTES_MIN
                } else if v > WEB_MAX_BYTES_MAX {
                    WEB_MAX_BYTES_MAX
                } else {
                    v
                },
            }
        },
    }
}

/// Whether either web-search key setting holds a key that is not blank.
pub fn has_search_key(primary: Option<String>, fallback: Option<String>) -> (r: bool)
    ensures
        r == ((primary matches Some(k) && !is_blank(k@)) || (fallback matches Some(k) && !is_blank(k@))),
{
    let a = match &primary {
        Some(k) => !blank(k.as_str()),
        None => false,
    };
    let b = match &fallback {
        Some(k) => !blank(k.as_str()),
        None => false,
    };
    a || b
}

/// Statuses after which a web fetch is tried again.
pub fn should_retry_web_status(status: u16) -> (r: bool)
    ensures
        r == (status == 408 || status == 429 || (500 <= status <= 599)),
{
    status == 408 || status == 429 || (500 <= status && status <= 599)
}

/// The wait before retry `attempt` (0-based) of a web fetch.
pub fn web_backoff_ms(attempt: usize) -> (r: u64)
    ensures
        r == (if attempt == 0 {
            500u64
        } else if attempt == 1 {
            1000u64
        } else {
            2000u64
        }),
{
    match attempt {
        0 => 500,
        1 => 1000,
        _ => 2000,
    }
}

} // verus!
