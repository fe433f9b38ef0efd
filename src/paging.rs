//! Pagination of the file tools: which part of a file or listing a call asks
//! for, and the messages that refuse a request.
use vstd::prelude::*;
use crate::text::{decimal, decimal_text};

verus! {

pub const DEFAULT_READ_LIMIT: usize = 200;

pub const DEFAULT_LIST_LIMIT: usize = 200;

pub const DEFAULT_GREP_LIMIT: usize = 100;

pub const DEFAULT_MAX_TOOL_OUTPUT_CHARS: usize = 8000;

/// The limit a call gets: the one it asks for, or `cap`, and never above `cap`.
pub open spec fn capped(limit: Option<usize>, cap: usize) -> usize {
    match limit {
        Some(l) => if l < cap {
            l
        } else {
            cap
        },
        None => cap,
    }
}

fn cap_limit(limit: Option<usize>, cap: usize) -> (r: usize)
    ensures
        r == capped(limit, cap),
{
    match limit {
        Some(l) => if l < cap {
            l
        } else {
            cap
        },
        None => cap,
    }
}

fn copy(s: &str) -> (r: String)
    ensures
        r@ == s@,
{
    crate::text::string_of_chars(&crate::text::chars_of(s))
}

/// The refusal of a line range whose offset or limit is below 1.
pub open spec fn bad_paging_text(tool: Seq<char>) -> Seq<char> {
    "invalid pagination: "@ + tool + ".offset and "@ + tool + ".limit must be >= 1 (offset is 1-indexed)"@
}

/// The 1-based first line and the line count that a call of the line-reading
/// tool `tool` asks for; both must be at least 1.
pub fn line_paging(tool: &str, offset: Option<usize>, limit: Option<usize>) -> (r: Result<(usize, usize), String>)
    ensures
        ({
            let o = match offset {
                Some(v) => v,
                None => 1,
            };
            let l = capped(limit, DEFAULT_READ_LIMIT);
            if o >= 1 && l >= 1 {
                r == Ok::<(usize, usize), String>((o, l))
            } else {
                r matches Err(m) && m@ == bad_paging_text(tool@)
            }
        }),
{
    let o = match offset {
        Some(v) => v,
        None => 1,
    };
    let l = cap_limit(limit, DEFAULT_READ_LIMIT);
    if o < 1 || l < 1 {
        let mut m = copy("invalid pagination: ");
        m.append(tool);
        m.append(".offset and ");
        m.append(tool);
        m.append(".limit must be >= 1 (offset is 1-indexed)");
        return Err(m);
    }
    Ok((o, l))
}

/// The last line (1-based, inclusive) shown from `offset` on, `limit` lines
/// at most, of `total`.
pub open spec fn window_end(offset: nat, limit: nat, total: nat) -> nat {
    if offset + limit - 1 < total {
        (offset + limit - 1) as nat
    } else {
        total
    }
}

fn end_of_window(offset: usize, limit: usize, total: usize) -> (r: usize)
    requires
        1 <= offset <= total,
        limit >= 1,
    ensures
        r as nat == window_end(offset as nat, limit as nat, total as nat),
{
    if limit - 1 < total - offset {
        offset + limit - 1
    } else {
        total
    }
}

/// `"offset (o) is beyond total <what> (t)"`.
pub open spec fn beyond_text(offset: nat, what: Seq<char>, total: nat) -> Seq<char> {
    "offset ("@ + decimal(offset) + ") is beyond total "@ + what + " ("@ + decimal(total) + ")"@
}

fn beyond_message(offset: usize, what: &str, total: usize) -> (r: String)
    ensures
        r@ == beyond_text(offset as nat, what@, total as nat),
{
    let mut m = copy("offset (");
    let a = decimal_text(offset as u64);
    m.append(a.as_str());
    m.append(") is beyond total ");
    m.append(what);
    m.append(" (");
    let b = decimal_text(total as u64);
    m.append(b.as_str());
    m.append(")");
    m
}

/// The last line shown of a file of `total` lines, read from line `offset`
/// with `limit`; an offset past the end is refused.
pub fn read_file_window(offset: usize, limit: usize, total: usize) -> (r: Result<usize, String>)
    requires
        offset >= 1,
        limit >= 1,
    ensures
        offset <= total ==> r == Ok::<usize, String>(
            window_end(offset as nat, limit as nat, total as nat) as usize,
        ),
        offset > total ==> (r matches Err(m) && m@ == beyond_text(offset as nat, "lines"@, total as nat)),
{
    if offset > total {
        return Err(beyond_message(offset, "lines", total));
    }
    Ok(end_of_window(offset, limit, total))
}

/// Line `n` of a file as `read_file` shows it.
pub open spec fn numbered_line(n: nat, line: Seq<char>) -> Seq<char> {
    decimal(n) + ": "@ + line
}

/// Lines `offset..=end` (1-based) of `lines`, each led by its number.
pub fn numbered_lines(lines: &Vec<String>, offset: usize, end: usize) -> (r: Vec<String>)
    requires
        1 <= offset,
        offset <= end + 1,
        end <= lines.len(),
    ensures
        r.len() == end + 1 - offset,
        forall|k: int|
            0 <= k < r.len() ==> (#[trigger] r@[k])@ == numbered_line(
                (offset + k) as nat,
                lines@[offset - 1 + k]@,
            ),
{
    let mut r: Vec<String> = Vec::new();
    let mut j: usize = offset - 1;
    while j < end
        invariant
            1 <= offset,
            offset - 1 <= j <= end,
            end <= lines.len(),
            r.len() == j - (offset - 1),
            forall|k: int|
                0 <= k < r.len() ==> (#[trigger] r@[k])@ == numbered_line(
                    (offset + k) as nat,
                    lines@[offset - 1 + k]@,
                ),
        decreases end - j,
    {
        let mut s = decimal_text((j + 1) as u64);
        s.append(": ");
        s.append(lines[j].as_str());
        r.push(s);
        j = j + 1;
    }
    r
}

/// The offset, limit and depth of a `list_dir` call; all must be at least 1.
pub fn list_dir_paging(offset: Option<usize>, limit: Option<usize>, depth: Option<usize>) -> (r: Result<
    (usize, usize, usize),
    String,
>)
    ensures
        ({
            let o = match offset {
                Some(v) => v,
                None => 1,
            };
            let l = capped(limit, DEFAULT_LIST_LIMIT);
            let d = match depth {
                Some(v) => v,
                None => 1,
            };
            if o >= 1 && l >= 1 && d >= 1 {
                r == Ok::<(usize, usize, usize), String>((o, l, d))
            } else {
                r matches Err(m) && m@
                    == "invalid pagination: list_dir.offset, list_dir.limit, and list_dir.depth must be >= 1 (offset is 1-indexed)"@
            }
        }),
{
    let o = match offset {
        Some(v) => v,
        None => 1,
    };
    let l = cap_limit(limit, DEFAULT_LIST_LIMIT);
    let d = match depth {
        Some(v) => v,
        None => 1,
    };
    if o < 1 || l < 1 || d < 1 {
        return Err(
            copy(
                "invalid pagination: list_dir.offset, list_dir.limit, and list_dir.depth must be >= 1 (offset is 1-indexed)",
            ),
        );
    }
    Ok((o, l, d))
}

/// The first and last entry (1-based) shown of `total` sorted entries, both 0
/// when there are none; an offset past a non-empty listing is refused.
pub fn list_dir_window(offset: usize, limit: usize, total: usize) -> (r: Result<(usize, usize), String>)
    requires
        offset >= 1,
        limit >= 1,
    ensures
        total == 0 ==> r == Ok::<(usize, usize), String>((0, 0)),
        0 < total && offset <= total ==> r == Ok::<(usize, usize), String>(
            (offset, window_end(offset as nat, limit as nat, total as nat) as usize),
        ),
        0 < total && offset > total ==> (r matches Err(m) && m@ == beyond_text(
            offset as nat,
            "entries"@,
            total as nat,
        )),
{
    if total == 0 {
        return Ok((0, 0));
    }
    if offset > total {
        return Err(beyond_message(offset, "entries", total));
    }
    Ok((offset, end_of_window(offset, limit, total)))
}

/// The match limit of a `grep_files` call; it must be at least 1.
pub fn grep_limit(limit: Option<usize>) -> (r: Result<usize, String>)
    ensures
        capped(limit, DEFAULT_GREP_LIMIT) >= 1 ==> r == Ok::<usize, String>(capped(limit, DEFAULT_GREP_LIMIT)),
        capped(limit, DEFAULT_GREP_LIMIT) < 1 ==> (r matches Err(m) && m@
            == "invalid limit: grep_files.limit must be >= 1"@),
{
    let l = cap_limit(limit, DEFAULT_GREP_LIMIT);
    if l < 1 {
        return Err(copy("invalid limit: grep_files.limit must be >= 1"));
    }
    Ok(l)
}

} // verus!
