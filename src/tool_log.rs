//! What the event log records of a tool call: the command line shown for it,
//! the files a patch touches, and whether the call succeeded.
use vstd::prelude::*;
use crate::conversation::opt_text;
use crate::json::{
    json_has_key, json_has_key_of, json_i32_field, json_i32_field_of,
    json_object_of, json_object_text, json_str_field, json_str_field_of,
};
use crate::text::{
    blank, chars_of, is_blank, lines, lines_seq, same_text, starts_with, starts_with_text, string_of_chars,
    texts, trim, trim_seq,
};

verus! {

/// How a patch touches a file.
#[derive(Clone, Copy, Debug, PartialEq, Eq, Structural)]
pub enum ChangeKind {
    Add,
    Delete,
    Update,
}

/// A file that a patch touches.
#[derive(Debug)]
pub struct FileChange {
    pub path: String,
    pub kind: ChangeKind,
}

pub open spec fn changes_view(v: Seq<FileChange>) -> Seq<(Seq<char>, ChangeKind)> {
    v.map_values(|c: FileChange| (c.path@, c.kind))
}

/// A path of a patch header, trimmed and without its `a/` or `b/` prefix;
/// `/dev/null` gives the empty path.
pub open spec fn patch_path_of(p: Seq<char>) -> Seq<char> {
    let t = trim_seq(p);
    if t == "/dev/null"@ {
        Seq::empty()
    } else if starts_with(t, "a/"@) || starts_with(t, "b/"@) {
        t.skip(2)
    } else {
        t
    }
}

/// A path of a patch header, trimmed and without its `a/` or `b/` prefix;
/// `/dev/null` gives the empty path.
pub fn strip_patch_prefix(path: &str) -> (r: String)
    ensures
        r@ == patch_path_of(path@),
{
    let t = trim(path);
    if same_text(t.as_str(), "/dev/null") {
        return String::new();
    }
    let v = chars_of(t.as_str());
    if starts_with_text(&v, "a/") || starts_with_text(&v, "b/") {
        proof {
            reveal_strlit("a/");
            reveal_strlit("b/");
        }
        let mut rest: Vec<char> = Vec::new();
        let mut i: usize = 2;
        while i < v.len()
            invariant
                2 <= i <= v.len(),
                rest@ == v@.subrange(2, i as int),
            decreases v.len() - i,
        {
            rest.push(v[i]);
            assert(rest@ =~= v@.subrange(2, i + 1));
            i = i + 1;
        }
        assert(v@.subrange(2, v@.len() as int) =~= t@.skip(2));
        string_of_chars(&rest)
    } else {
        t
    }
}

/// Whether a patch line shows the `a/` and `b/` prefixes of a git diff.
pub open spec fn marks_git_prefix(l: Seq<char>) -> bool {
    ||| starts_with(l, "diff --git a/"@)
    ||| starts_with(l, "--- a/"@)
    ||| starts_with(l, "+++ a/"@)
    ||| starts_with(l, "--- b/"@)
    ||| starts_with(l, "+++ b/"@)
}

/// The `-p` level to apply a patch with: 1 for a git diff, else 0.
pub open spec fn strip_level_of(patch: Seq<char>) -> usize {
    if exists|i: int| 0 <= i < lines_seq(patch).len() && marks_git_prefix(#[trigger] lines_seq(patch)[i]) {
        1
    } else {
        0
    }
}

fn marks_git_prefix_exec(line: &str) -> (r: bool)
    ensures
        r == marks_git_prefix(line@),
{
    let v = chars_of(line);
    starts_with_text(&v, "diff --git a/") || starts_with_text(&v, "--- a/") || starts_with_text(
        &v,
        "+++ a/",
    ) || starts_with_text(&v, "--- b/") || starts_with_text(&v, "+++ b/")
}

/// The `-p` level to apply a patch with: 1 when a line shows git's `a/` or
/// `b/` prefixes, else 0.
pub fn detect_patch_strip_level(patch: &str) -> (r: usize)
    ensures
        r == strip_level_of(patch@),
{
    let ls = lines(patch);
    let mut i: usize = 0;
    while i < ls.len()
        invariant
            i <= ls.len(),
            texts(ls@) == lines_seq(patch@),
            forall|k: int| 0 <= k < i ==> !marks_git_prefix(#[trigger] lines_seq(patch@)[k]),
        decreases ls.len() - i,
    {
        assert(lines_seq(patch@)[i as int] == ls@[i as int]@);
        if marks_git_prefix_exec(ls[i].as_str()) {
            return 1;
        }
        i = i + 1;
    }
    0
}

/// Whether `changes` already names `path`.
pub open spec fn path_seen(changes: Seq<(Seq<char>, ChangeKind)>, path: Seq<char>) -> bool {
    exists|i: int| 0 <= i < changes.len() && (#[trigger] changes[i]).0 == path
}

/// The state of a scan over patch lines: the pending `---` path, and the
/// changes found so far.
pub open spec fn scan_step(
    st: (Option<Seq<char>>, Seq<(Seq<char>, ChangeKind)>),
    line: Seq<char>,
) -> (Option<Seq<char>>, Seq<(Seq<char>, ChangeKind)>) {
    if starts_with(line, "--- "@) {
        (Some(trim_seq(line.skip(4))), st.1)
    } else if starts_with(line, "+++ "@) {
        let new_path = trim_seq(line.skip(4));
        match st.0 {
            None => (None, st.1),
            Some(old) => {
                let kind = if old == "/dev/null"@ {
                    ChangeKind::Add
                } else if new_path == "/dev/null"@ {
                    ChangeKind::Delete
                } else {
                    ChangeKind::Update
                };
                let raw = if kind is Delete {
                    old
                } else {
                    new_path
                };
                let p = patch_path_of(raw);
                if p.len() > 0 && !path_seen(st.1, p) {
                    (None, st.1.push((p, kind)))
                } else {
                    (None, st.1)
                }
            },
        }
    } else {
        st
    }
}

pub open spec fn patch_scan(ls: Seq<Seq<char>>) -> (Option<Seq<char>>, Seq<(Seq<char>, ChangeKind)>)
    decreases ls.len(),
{
    if ls.len() == 0 {
        (None, Seq::empty())
    } else {
        scan_step(patch_scan(ls.drop_last()), ls.last())
    }
}

/// The files a unified diff touches, each once, in order of first mention:
/// a `---`/`+++` header pair gives an addition when the old side is
/// `/dev/null`, a deletion when the new side is, else an update.
pub open spec fn patch_changes_of(patch: Seq<char>) -> Seq<(Seq<char>, ChangeKind)> {
    patch_scan(lines_seq(patch)).1
}

/// The text of `line` after its first four characters, trimmed.
fn header_path(line: &Vec<char>) -> (r: String)
    requires
        line.len() >= 4,
    ensures
        r@ == trim_seq(line@.skip(4)),
{
    let mut rest: Vec<char> = Vec::new();
    let mut i: usize = 4;
    while i < line.len()
        invariant
            4 <= i <= line.len(),
            rest@ == line@.subrange(4, i as int),
        decreases line.len() - i,
    {
        rest.push(line[i]);
        assert(rest@ =~= line@.subrange(4, i + 1));
        i = i + 1;
    }
    assert(rest@ =~= line@.skip(4));
    let s = string_of_chars(&rest);
    trim(s.as_str())
}

fn seen_path(changes: &Vec<FileChange>, path: &String) -> (r: bool)
    ensures
        r == path_seen(changes_view(changes@), path@),
{
    let ghost cv = changes_view(changes@);
    let mut i: usize = 0;
    while i < changes.len()
        invariant
            i <= changes.len(),
            cv == changes_view(changes@),
            forall|k: int| 0 <= k < i ==> (#[trigger] cv[k]).0 != path@,
        decreases changes.len() - i,
    {
        if same_text(changes[i].path.as_str(), path.as_str()) {
            assert(cv[i as int].0 == path@);
            return true;
        }
        i = i + 1;
    }
    false
}

/// The files a unified diff touches, each once, in order of first mention.
pub fn parse_patch_changes(patch: &str) -> (r: Vec<FileChange>)
    ensures
        changes_view(r@) == patch_changes_of(patch@),
{
    proof {
        reveal_strlit("--- ");
        reveal_strlit("+++ ");
    }
    let ls = lines(patch);
    let ghost lv = lines_seq(patch@);
    let mut changes: Vec<FileChange> = Vec::new();
    let mut old_path: Option<String> = None;
    let mut i: usize = 0;
    while i < ls.len()
        invariant
            i <= ls.len(),
            texts(ls@) == lv,
            lv == lines_seq(patch@),
            (opt_text(old_path), changes_view(changes@)) == patch_scan(lv.take(i as int)),
        decreases ls.len() - i,
    {
        proof {
            reveal_strlit("--- ");
            reveal_strlit("+++ ");
        }
        assert(lv.take(i + 1).drop_last() =~= lv.take(i as int));
        assert(lv.take(i + 1).last() == ls@[i as int]@);
        let v = chars_of(ls[i].as_str());
        if starts_with_text(&v, "--- ") {
            old_path = Some(header_path(&v));
        } else if starts_with_text(&v, "+++ ") {
            let new_path = header_path(&v);
            match old_path {
                None => {},
                Some(old) => {
                    old_path = None;
                    let (kind, raw) = if same_text(old.as_str(), "/dev/null") {
                        (ChangeKind::Add, new_path)
                    } else if same_text(new_path.as_str(), "/dev/null") {
                        (ChangeKind::Delete, old)
                    } else {
                        (ChangeKind::Update, new_path)
                    };
                    let path = strip_patch_prefix(raw.as_str());
                    if !path.as_str().is_empty() && !seen_path(&changes, &path) {
                        let c = FileChange { path, kind };
                        assert(changes_view(changes@.push(c)) =~= changes_view(changes@).push(
                            (c.path@, c.kind),
                        ));
                        changes.push(c);
                    }
                },
            }
        }
        i = i + 1;
    }
    assert(lv.take(ls.len() as int) =~= lv);
    changes
}

/// `s`, or nothing.
pub open spec fn text_or_empty(s: Option<Seq<char>>) -> Seq<char> {
    match s {
        Some(t) => t,
        None => Seq::empty(),
    }
}

/// Standard output followed by standard error, on a line of its own, when
/// the latter is not blank.
pub open spec fn aggregate_output(out: Seq<char>, err: Seq<char>) -> Seq<char> {
    if trim_seq(err).len() > 0 {
        if out.len() > 0 {
            out + "\n"@ + err
        } else {
            err
        }
    } else {
        out
    }
}

/// The exit code and combined output of a command result, given as a JSON
/// object with `exit_code` and optional `stdout` and `stderr`.
pub open spec fn command_output_of(output: Seq<char>) -> Option<(i32, Seq<char>)> {
    match json_i32_field_of(output, "exit_code"@) {
        None => None,
        Some(code) => Some(
            (
                code,
                aggregate_output(
                    text_or_empty(json_str_field_of(output, "stdout"@)),
                    text_or_empty(json_str_field_of(output, "stderr"@)),
                ),
            ),
        ),
    }
}

/// Combines the streams of a command result that were read out of its JSON.
pub fn aggregate_streams(stdout: Option<String>, stderr: Option<String>) -> (r: String)
    ensures
        r@ == aggregate_output(text_or_empty(opt_text(stdout)), text_or_empty(opt_text(stderr))),
{
    let mut out = match stdout {
        Some(s) => s,
        None => String::new(),
    };
    let err = match stderr {
        Some(s) => s,
        None => String::new(),
    };
    if !blank(err.as_str()) {
        if !out.as_str().is_empty() {
            out.append("\n");
        }
        out.append(err.as_str());
    }
    out
}

/// The exit code and combined output of a command result.
pub fn parse_command_output(output: &str) -> (r: Option<(i32, String)>)
    ensures
        match r {
            Some((code, text)) => command_output_of(output@) == Some((code, text@)),
            None => command_output_of(output@) is None,
        },
{
    let code = match json_i32_field(output, "exit_code") {
        Some(c) => c,
        None => return None,
    };
    let stdout = json_str_field(output, "stdout");
    let stderr = json_str_field(output, "stderr");
    Some((code, aggregate_streams(stdout, stderr)))
}

/// Whether a tool's output is a JSON object with an `error` member.
pub fn output_is_error_json(output: &str) -> (r: bool)
    ensures
        r == json_has_key_of(output@, "error"@),
{
    json_has_key(output, "error")
}

/// The JSON object `{"error": message}` that reports a failed tool call.
pub open spec fn error_json_of(message: Seq<char>) -> Seq<char> {
    json_object_of("error"@, message)
}

/// The JSON object `{"error": message}` that reports a failed tool call.
pub fn tool_error(message: &str) -> (r: String)
    ensures
        r@ == error_json_of(message@),
{
    json_object_text("error", message)
}

/// The command line shown for a tool call: `bash -lc` and the command of a
/// shell call, else `tool:` and the name, then the arguments unless blank.
pub open spec fn command_text_of(name: Seq<char>, arguments: Seq<char>) -> Seq<char> {
    if name == "shell_command"@ {
        "bash -lc "@ + match json_str_field_of(arguments, "command"@) {
            Some(c) => c,
            None => arguments,
        }
    } else if is_blank(arguments) {
        "tool:"@ + name
    } else {
        "tool:"@ + name + " "@ + arguments
    }
}

/// The command line shown for a tool call.
pub fn tool_command_string(tool_name: &str, arguments: &str) -> (r: String)
    ensures
        r@ == command_text_of(tool_name@, arguments@),
{
    let mut r = String::new();
    if same_text(tool_name, "shell_command") {
        r.append("bash -lc ");
        match json_str_field(arguments, "command") {
            Some(c) => r.append(c.as_str()),
            None => r.append(arguments),
        }
        return r;
    }
    r.append("tool:");
    r.append(tool_name);
    if !blank(arguments) {
        r.append(" ");
        r.append(arguments);
    }
    r
}

/// The outcome of a shell or generic tool call as logged: exit code, output
/// and success. A shell call is judged by the exit code in its output, another
/// tool by the dispatch's success and the absence of an `error` member.
pub open spec fn command_result_of(name: Seq<char>, content: Seq<char>, success: bool) -> (
    Option<i32>,
    Seq<char>,
    bool,
) {
    if name == "shell_command"@ {
        match command_output_of(content) {
            Some((code, out)) => (Some(code), out, code == 0),
            None => (None, content, success),
        }
    } else {
        let ok = success && !json_has_key_of(content, "error"@);
        (
            if ok {
                Some(0i32)
            } else {
                Some(1i32)
            },
            content,
            ok,
        )
    }
}

/// Whether a patch call succeeded: by the exit code in its output where there
/// is one, else by the dispatch's success and the absence of an `error` member.
pub open spec fn patch_succeeded(content: Seq<char>, success: bool) -> bool {
    match command_output_of(content) {
        Some((code, _)) => code == 0,
        None => success && !json_has_key_of(content, "error"@),
    }
}

pub fn patch_status(content: &str, success: bool) -> (r: bool)
    ensures
        r == patch_succeeded(content@, success),
{
    match parse_command_output(content) {
        Some((code, _)) => code == 0,
        None => success && !output_is_error_json(content),
    }
}

pub fn command_result(tool_name: &str, content: &str, success: bool) -> (r: (Option<i32>, String, bool))
    ensures
        (r.0, r.1@, r.2) == command_result_of(tool_name@, content@, success),
{
    if same_text(tool_name, "shell_command") {
        match parse_command_output(content) {
            Some((code, out)) => (Some(code), out, code == 0),
            None => (None, content_string(content), success),
        }
    } else {
        let ok = success && !output_is_error_json(content);
        let code: i32 = if ok {
            0
        } else {
            1
        };
        (Some(code), content_string(content), ok)
    }
}

fn content_string(s: &str) -> (r: String)
    ensures
        r@ == s@,
{
    let v = chars_of(s);
    string_of_chars(&v)
}

} // verus!
