//! Reading fetched web pages: which content types are read as text, and where
//! a search pattern occurs in a page's lines.
use vstd::prelude::*;
use crate::text::{chars_of, contains_text, has_substring, starts_with, starts_with_text, texts};
use crate::transport::{lower_of, lowercase};

verus! {

/// How a fetched body is read.
#[derive(Clone, Copy, Debug, PartialEq, Eq, Structural)]
pub enum PageKind {
    /// Markup: tags are stripped before reading.
    Html,
    /// Plain text or JSON, read as it is.
    Text,
    /// Anything else is refused.
    Unsupported,
}

/// The reading of a body by its content type: HTML by type or by an `<html`
/// tag in the body, then `text/` types, a missing type and JSON as text.
pub open spec fn page_kind_of(content_type: Seq<char>, body: Seq<char>) -> PageKind {
    if has_substring(content_type, "text/html"@) || has_substring(content_type, "application/xhtml"@)
        || has_substring(body, "<html"@) {
        PageKind::Html
    } else if starts_with(content_type, "text/"@) || content_type.len() == 0 || starts_with(
        content_type,
        "application/json"@,
    ) {
        PageKind::Text
    } else {
        PageKind::Unsupported
    }
}

pub fn page_kind(content_type: &str, body: &str) -> (r: PageKind)
    ensures
        r == page_kind_of(content_type@, body@),
{
    if contains_text(content_type, "text/html") || contains_text(content_type, "application/xhtml")
        || contains_text(body, "<html") {
        return PageKind::Html;
    }
    let ct = chars_of(content_type);
    if starts_with_text(&ct, "text/") || ct.len() == 0 || starts_with_text(&ct, "application/json") {
        PageKind::Text
    } else {
        PageKind::Unsupported
    }
}

/// `v` held between `lo` and `hi`.
pub open spec fn clamped(v: usize, lo: usize, hi: usize) -> usize {
    if v < lo {
        lo
    } else if v > hi {
        hi
    } else {
        v
    }
}

/// The match cap (default 10, held to 1..=50) and context size (default 2,
/// held to 0..=10) of a page search.
pub fn find_limits(max_results: Option<usize>, context_lines: Option<usize>) -> (r: (usize, usize))
    ensures
        r.0 == clamped(
            match max_results {
                Some(v) => v,
                None => 10,
            },
            1,
            50,
        ),
        r.1 == clamped(
            match context_lines {
                Some(v) => v,
                None => 2,
            },
            0,
            10,
        ),
{
    let m = match max_results {
        Some(v) => v,
        None => 10,
    };
    let c = match context_lines {
        Some(v) => v,
        None => 2,
    };
    let m = if m < 1 {
        1
    } else if m > 50 {
        50
    } else {
        m
    };
    let c = if c > 10 {
        10
    } else {
        c
    };
    (m, c)
}

/// A match of a page search: the lines (1-based, inclusive) shown around the
/// matching line.
#[derive(Clone, Copy, Debug, PartialEq, Eq, Structural)]
pub struct FindMatch {
    pub start_line: usize,
    pub end_line: usize,
    pub match_line: usize,
}

/// The window shown around line `n` (1-based) of `total` lines.
pub open spec fn window_of(n: nat, context: nat, total: nat) -> (nat, nat) {
    (
        if n > context + 1 {
            (n - context) as nat
        } else {
            1
        },
        if n + context < total {
            n + context
        } else {
            total
        },
    )
}

/// The matches among the first lines `ls` of a page of `total` lines: lines
/// whose lower-case form holds `needle`, at most `max` of them.
pub open spec fn matches_of(ls: Seq<Seq<char>>, needle: Seq<char>, max: nat, context: nat, total: nat) -> Seq<
    FindMatch,
>
    decreases ls.len(),
{
    if ls.len() == 0 {
        Seq::empty()
    } else {
        let prev = matches_of(ls.drop_last(), needle, max, context, total);
        if prev.len() < max && has_substring(lower_of(ls.last()), needle) {
            let w = window_of(ls.len(), context, total);
            prev.push(FindMatch { start_line: w.0 as usize, end_line: w.1 as usize, match_line: ls.len() as usize })
        } else {
            prev
        }
    }
}

/// Where the lower-case `needle` occurs in the lines of a page, case
/// ignored, with `context` lines around each match, at most `max` matches.
pub fn find_matches(lines: &Vec<String>, needle: &str, max: usize, context: usize) -> (r: Vec<FindMatch>)
    ensures
        r@ == matches_of(texts(lines@), needle@, max as nat, context as nat, lines.len() as nat),
{
    let ghost lv = texts(lines@);
    let mut out: Vec<FindMatch> = Vec::new();
    let mut i: usize = 0;
    while i < lines.len()
        invariant
            i <= lines.len(),
            lv == texts(lines@),
            out@ == matches_of(lv.take(i as int), needle@, max as nat, context as nat, lines.len() as nat),
        decreases lines.len() - i,
    {
        assert(lv.take(i + 1).drop_last() =~= lv.take(i as int));
        assert(lv.take(i + 1).last() == lines@[i as int]@);
        if out.len() < max {
            let lowered = lowercase(lines[i].as_str());
            if contains_text(lowered.as_str(), needle) {
                let n = i + 1;
                let start = if n - 1 > context {
                    n - context
                } else {
                    1
                };
                let end = if lines.len() - n > context {
                    n + context
                } else {
                    lines.len()
                };
                out.push(FindMatch { start_line: start, end_line: end, match_line: n });
            }
        }
        i = i + 1;
    }
    assert(lv.take(lines.len() as int) =~= lv);
    out
}

} // verus!
