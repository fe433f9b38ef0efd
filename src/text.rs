//! Text helpers over the characters of a string: whitespace trimming,
//! truncation, decimal rendering, substring search and line splitting.
use vstd::prelude::*;

verus! {

/// The characters with the Unicode `White_Space` property, those that
/// `char::is_whitespace` accepts.
pub open spec fn is_ws(c: char) -> bool {
    ||| ('\t' <= c <= '\r')
    ||| c == ' '
    ||| c == '\u{85}'
    ||| c == '\u{A0}'
    ||| c == '\u{1680}'
    ||| ('\u{2000}' <= c <= '\u{200A}')
    ||| c == '\u{2028}'
    ||| c == '\u{2029}'
    ||| c == '\u{202F}'
    ||| c == '\u{205F}'
    ||| c == '\u{3000}'
}

/// Number of leading whitespace characters of `s`.
pub open spec fn lead_ws(s: Seq<char>) -> nat
    decreases s.len(),
{
    if s.len() > 0 && is_ws(s[0]) {
        1 + lead_ws(s.drop_first())
    } else {
        0
    }
}

/// Number of trailing whitespace characters of `s`.
pub open spec fn trail_ws(s: Seq<char>) -> nat
    decreases s.len(),
{
    if s.len() > 0 && is_ws(s.last()) {
        1 + trail_ws(s.drop_last())
    } else {
        0
    }
}

/// `s` without trailing whitespace.
pub open spec fn trim_end_seq(s: Seq<char>) -> Seq<char> {
    s.take(s.len() - trail_ws(s))
}

/// `s` without leading or trailing whitespace.
pub open spec fn trim_seq(s: Seq<char>) -> Seq<char> {
    let e = trim_end_seq(s);
    e.skip(lead_ws(e) as int)
}

/// Whether `s` holds nothing but whitespace.
pub open spec fn is_blank(s: Seq<char>) -> bool {
    forall|i: int| 0 <= i < s.len() ==> is_ws(#[trigger] s[i])
}

pub fn is_ws_char(c: char) -> (r: bool)
    ensures
        r == is_ws(c),
{
    ('\t' <= c && c <= '\r') || c == ' ' || c == '\u{85}' || c == '\u{A0}' || c == '\u{1680}' || (
    '\u{2000}' <= c && c <= '\u{200A}') || c == '\u{2028}' || c == '\u{2029}' || c == '\u{202F}'
        || c == '\u{205F}' || c == '\u{3000}'
}

/// The characters of `s`.
pub fn chars_of(s: &str) -> (r: Vec<char>)
    ensures
        r@ == s@,
{
    let mut v: Vec<char> = Vec::new();
    for c in iter: s.chars()
        invariant
            v@ == iter.seq().take(iter.index() as int),
    {
        v.push(c);
        assert(v@ =~= iter.seq().take(iter.index() + 1));
    }
    assert(v@ =~= s@);
    v
}

proof fn lemma_lead_ws_bound(s: Seq<char>)
    ensures
        lead_ws(s) <= s.len(),
        forall|i: int| 0 <= i < lead_ws(s) ==> is_ws(#[trigger] s[i]),
        lead_ws(s) < s.len() ==> !is_ws(s[lead_ws(s) as int]),
    decreases s.len(),
{
    if s.len() > 0 && is_ws(s[0]) {
        lemma_lead_ws_bound(s.drop_first());
        assert forall|i: int| 0 <= i < lead_ws(s) implies is_ws(#[trigger] s[i]) by {
            if i > 0 {
                assert(s[i] == s.drop_first()[i - 1]);
            }
        }
    }
}

proof fn lemma_lead_ws_at(s: Seq<char>, k: int)
    requires
        0 <= k <= s.len(),
        forall|i: int| 0 <= i < k ==> is_ws(#[trigger] s[i]),
        k == s.len() || !is_ws(s[k]),
    ensures
        lead_ws(s) == k,
    decreases s.len(),
{
    if k > 0 {
        assert forall|i: int| 0 <= i < k - 1 implies is_ws(#[trigger] s.drop_first()[i]) by {
            assert(s.drop_first()[i] == s[i + 1]);
        }
        if k < s.len() {
            assert(s.drop_first()[k - 1] == s[k]);
        }
        lemma_lead_ws_at(s.drop_first(), k - 1);
    }
}

proof fn lemma_trail_ws_at(s: Seq<char>, k: int)
    requires
        0 <= k <= s.len(),
        forall|i: int| k <= i < s.len() ==> is_ws(#[trigger] s[i]),
        k == 0 || !is_ws(s[k - 1]),
    ensures
        trail_ws(s) == s.len() - k,
    decreases s.len(),
{
    if k < s.len() {
        assert forall|i: int| k <= i < s.len() - 1 implies is_ws(#[trigger] s.drop_last()[i]) by {
            assert(s.drop_last()[i] == s[i]);
        }
        if k > 0 {
            assert(s.drop_last()[k - 1] == s[k - 1]);
        }
        lemma_trail_ws_at(s.drop_last(), k);
    }
}

/// The index one past the last non-whitespace character of `v`.
fn trimmed_end(v: &Vec<char>) -> (e: usize)
    ensures
        e == v@.len() - trail_ws(v@),
{
    let mut e: usize = v.len();
    while e > 0 && is_ws_char(v[e - 1])
        invariant
            e <= v.len(),
            forall|i: int| e <= i < v.len() ==> is_ws(#[trigger] v@[i]),
        decreases e,
    {
        e = e - 1;
    }
    proof {
        lemma_trail_ws_at(v@, e as int);
    }
    e
}

/// The index of the first non-whitespace character of `v` before `e`, or `e`.
fn trimmed_start(v: &Vec<char>, e: usize) -> (b: usize)
    requires
        e <= v.len(),
    ensures
        b == lead_ws(v@.take(e as int)),
        b <= e,
{
    let mut b: usize = 0;
    while b < e && is_ws_char(v[b])
        invariant
            b <= e <= v.len(),
            forall|i: int| 0 <= i < b ==> is_ws(#[trigger] v@[i]),
        decreases e - b,
    {
        b = b + 1;
    }
    proof {
        let t = v@.take(e as int);
        assert forall|i: int| 0 <= i < b implies is_ws(#[trigger] t[i]) by {
            assert(t[i] == v@[i]);
        }
        lemma_lead_ws_at(t, b as int);
    }
    b
}

/// A string holding `v[from..to]`.
fn string_of(v: &Vec<char>, from: usize, to: usize) -> (r: String)
    requires
        from <= to <= v.len(),
    ensures
        r@ == v@.subrange(from as int, to as int),
{
    let mut r = String::new();
    let mut i: usize = from;
    while i < to
        invariant
            from <= i <= to <= v.len(),
            r@ == v@.subrange(from as int, i as int),
        decreases to - i,
    {
        push_char(&mut r, v[i]);
        assert(r@ =~= v@.subrange(from as int, i + 1));
        i = i + 1;
    }
    r
}

/// Relies on `String::push` to append one character.
#[verifier::external_body]
fn push_char(s: &mut String, c: char)
    ensures
        final(s)@ == old(s)@.push(c),
{
    s.push(c)
}

/// `s` without leading or trailing whitespace.
pub fn trim(s: &str) -> (r: String)
    ensures
        r@ == trim_seq(s@),
{
    let v = chars_of(s);
    let e = trimmed_end(&v);
    let b = trimmed_start(&v, e);
    let r = string_of(&v, b, e);
    assert(r@ =~= trim_seq(s@));
    r
}

/// `s` without trailing whitespace.
pub fn trim_end(s: &str) -> (r: String)
    ensures
        r@ == trim_end_seq(s@),
{
    let v = chars_of(s);
    let e = trimmed_end(&v);
    let r = string_of(&v, 0, e);
    assert(r@ =~= trim_end_seq(s@));
    r
}

/// Whether `s` holds nothing but whitespace (so trims to nothing).
pub fn blank(s: &str) -> (r: bool)
    ensures
        r == is_blank(s@),
        r == (trim_seq(s@).len() == 0),
{
    let v = chars_of(s);
    let e = trimmed_end(&v);
    let b = trimmed_start(&v, e);
    proof {
        let t = v@.take(e as int);
        lemma_lead_ws_bound(t);
        lemma_trail_ws_bound(v@);
        assert(trim_seq(s@) =~= v@.subrange(b as int, e as int));
        if e > 0 {
            assert(!is_ws(v@[e - 1]));
            assert(t[e - 1] == v@[e - 1]);
            assert(!is_blank(s@));
        } else {
            assert forall|i: int| 0 <= i < s@.len() implies is_ws(#[trigger] s@[i]) by {
                assert(is_ws(v@[i]));
            }
        }
    }
    e == 0
}

proof fn lemma_trail_ws_bound(s: Seq<char>)
    ensures
        trail_ws(s) <= s.len(),
        forall|i: int| s.len() - trail_ws(s) <= i < s.len() ==> is_ws(#[trigger] s[i]),
        trail_ws(s) < s.len() ==> !is_ws(s[s.len() - trail_ws(s) - 1]),
    decreases s.len(),
{
    if s.len() > 0 && is_ws(s.last()) {
        lemma_trail_ws_bound(s.drop_last());
        assert forall|i: int| s.len() - trail_ws(s) <= i < s.len() implies is_ws(#[trigger] s[i]) by {
            if i < s.len() - 1 {
                assert(s[i] == s.drop_last()[i]);
            }
        }
    }
}

/// What `truncate` keeps of `s`: the first `limit` characters followed by a
/// marker when `s` is longer, else `s` itself.
pub open spec fn truncated(s: Seq<char>, limit: nat) -> Seq<char> {
    if s.len() > limit {
        s.take(limit as int) + "\n...[truncated]..."@
    } else {
        s
    }
}

/// Keeps at most `limit` characters of `value`, marking a cut; the flag says
/// whether anything was cut.
pub fn truncate(value: &str, limit: usize) -> (r: (String, bool))
    ensures
        r.0@ == truncated(value@, limit as nat),
        r.1 == (value@.len() > limit),
{
    let v = chars_of(value);
    if v.len() > limit {
        let mut out = string_of(&v, 0, limit);
        out.append("\n...[truncated]...");
        assert(v@.subrange(0, limit as int) =~= value@.take(limit as int));
        (out, true)
    } else {
        (string_of(&v, 0, v.len()), false)
    }
}

/// The decimal digit `d`.
pub open spec fn digit_char(d: nat) -> char {
    seq!['0', '1', '2', '3', '4', '5', '6', '7', '8', '9'][d as int]
}

/// The decimal rendering of `n`, without leading zeros.
pub open spec fn decimal(n: nat) -> Seq<char>
    decreases n,
{
    if n < 10 {
        seq![digit_char(n)]
    } else {
        decimal(n / 10).push(digit_char(n % 10))
    }
}

fn digit(d: u64) -> (c: char)
    requires
        d < 10,
    ensures
        c == digit_char(d as nat),
{
    match d {
        0 => '0',
        1 => '1',
        2 => '2',
        3 => '3',
        4 => '4',
        5 => '5',
        6 => '6',
        7 => '7',
        8 => '8',
        _ => '9',
    }
}

/// The decimal rendering of `n`.
pub fn decimal_text(n: u64) -> (r: String)
    ensures
        r@ == decimal(n as nat),
    decreases n,
{
    if n < 10 {
        let mut r = String::new();
        push_char(&mut r, digit(n));
        assert(r@ =~= decimal(n as nat));
        r
    } else {
        let mut r = decimal_text(n / 10);
        push_char(&mut r, digit(n % 10));
        r
    }
}

/// Whether `n` occurs in `h` at index `i`.
pub open spec fn occurs_at(h: Seq<char>, n: Seq<char>, i: int) -> bool {
    0 <= i && i + n.len() <= h.len() && h.subrange(i, i + n.len()) == n
}

/// Whether `n` occurs somewhere in `h`.
pub open spec fn has_substring(h: Seq<char>, n: Seq<char>) -> bool {
    exists|i: int| occurs_at(h, n, i)
}

fn occurs_at_exec(h: &Vec<char>, n: &Vec<char>, i: usize) -> (r: bool)
    requires
        i + n.len() <= h.len(),
    ensures
        r == occurs_at(h@, n@, i as int),
{
    let mut j: usize = 0;
    while j < n.len()
        invariant
            j <= n.len(),
            i + n.len() <= h.len(),
            forall|k: int| 0 <= k < j ==> h@[i + k] == n@[k],
        decreases n.len() - j,
    {
        if h[i + j] != n[j] {
            assert(h@.subrange(i as int, i + n.len())[j as int] != n@[j as int]);
            return false;
        }
        j = j + 1;
    }
    assert(h@.subrange(i as int, i + n.len()) =~= n@);
    true
}

/// Whether `needle` occurs in `hay`.
pub fn contains_text(hay: &str, needle: &str) -> (r: bool)
    ensures
        r == has_substring(hay@, needle@),
{
    let h = chars_of(hay);
    let n = chars_of(needle);
    if n.len() == 0 {
        assert(h@.subrange(0, 0) =~= n@);
        assert(occurs_at(h@, n@, 0));
        return true;
    }
    if n.len() > h.len() {
        return false;
    }
    let last = h.len() - n.len();
    let mut i: usize = 0;
    while i <= last
        invariant
            last == h.len() - n.len(),
            1 <= n.len() <= h.len(),
            i <= last + 1,
            h@ == hay@,
            n@ == needle@,
            forall|k: int| 0 <= k < i ==> !occurs_at(h@, n@, k),
        decreases last + 1 - i,
    {
        if occurs_at_exec(&h, &n, i) {
            return true;
        }
        i = i + 1;
    }
    false
}

/// Whether `s` begins with `p`.
pub open spec fn starts_with(s: Seq<char>, p: Seq<char>) -> bool {
    p.len() <= s.len() && s.take(p.len() as int) == p
}

/// Whether `s` begins with `p`.
pub fn starts_with_text(s: &Vec<char>, p: &str) -> (r: bool)
    ensures
        r == starts_with(s@, p@),
{
    let pv = chars_of(p);
    if pv.len() > s.len() {
        return false;
    }
    let r = occurs_at_exec(s, &pv, 0);
    assert(s@.subrange(0, pv@.len() as int) =~= s@.take(pv@.len() as int));
    r
}

} // verus!

verus! {

/// A string holding the characters `v`.
pub fn string_of_chars(v: &Vec<char>) -> (r: String)
    ensures
        r@ == v@,
{
    let r = string_of(v, 0, v.len());
    assert(v@.subrange(0, v@.len() as int) =~= v@);
    r
}

} // verus!

verus! {

/// `l` without one trailing carriage return.
pub open spec fn strip_cr(l: Seq<char>) -> Seq<char> {
    if l.len() > 0 && l.last() == '\r' {
        l.drop_last()
    } else {
        l
    }
}

/// The lines of `s` from index `i` on, where the current line began at
/// `start`: lines end at `\n` (a `\r` before it is dropped), and an empty
/// piece after the last `\n` is no line.
pub open spec fn lines_acc(s: Seq<char>, start: int, i: int) -> Seq<Seq<char>>
    decreases s.len() - i,
{
    if i < 0 || i >= s.len() {
        if 0 <= start < s.len() {
            seq![s.subrange(start, s.len() as int)]
        } else {
            Seq::empty()
        }
    } else if s[i] == '\n' {
        seq![strip_cr(s.subrange(start, i))] + lines_acc(s, i + 1, i + 1)
    } else {
        lines_acc(s, start, i + 1)
    }
}

/// The lines of `s`, as `str::lines` yields them.
pub open spec fn lines_seq(s: Seq<char>) -> Seq<Seq<char>> {
    lines_acc(s, 0, 0)
}

/// The texts of a sequence of strings.
pub open spec fn texts(v: Seq<String>) -> Seq<Seq<char>> {
    v.map_values(|x: String| x@)
}

/// The lines of `s`.
pub fn lines(s: &str) -> (r: Vec<String>)
    ensures
        texts(r@) == lines_seq(s@),
{
    let v = chars_of(s);
    let mut r: Vec<String> = Vec::new();
    let mut start: usize = 0;
    let mut i: usize = 0;
    while i < v.len()
        invariant
            start <= i <= v.len(),
            v@ == s@,
            texts(r@) + lines_acc(v@, start as int, i as int) == lines_seq(s@),
        decreases v.len() - i,
    {
        if v[i] == '\n' {
            let end = if i > start && v[i - 1] == '\r' {
                i - 1
            } else {
                i
            };
            let line = string_of(&v, start, end);
            assert(line@ == strip_cr(v@.subrange(start as int, i as int))) by {
                if i > start && v@[i - 1] == '\r' {
                    assert(v@.subrange(start as int, i as int).drop_last() =~= v@.subrange(
                        start as int,
                        i - 1,
                    ));
                }
            }
            assert(texts(r@.push(line)) =~= texts(r@).push(line@));
            assert(texts(r@) + lines_acc(v@, start as int, i as int) =~= texts(r@).push(line@)
                + lines_acc(v@, i + 1, i + 1));
            r.push(line);
            start = i + 1;
        }
        i = i + 1;
    }
    if start < v.len() {
        let line = string_of(&v, start, v.len());
        assert(texts(r@.push(line)) =~= texts(r@).push(line@));
        assert(texts(r@) + lines_acc(v@, start as int, i as int) =~= texts(r@).push(line@));
        r.push(line);
    } else {
        assert(texts(r@) + lines_acc(v@, start as int, i as int) =~= texts(r@));
    }
    r
}

} // verus!

verus! {

/// Whether `a` and `b` hold the same characters.
pub fn same_text(a: &str, b: &str) -> (r: bool)
    ensures
        r == (a@ == b@),
{
    let av = chars_of(a);
    let bv = chars_of(b);
    if av.len() != bv.len() {
        return false;
    }
    let r = occurs_at_exec(&av, &bv, 0);
    assert(av@.subrange(0, bv@.len() as int) =~= av@);
    r
}

} // verus!

verus! {

/// `parts` joined with a newline between each two.
pub open spec fn join_lines(parts: Seq<Seq<char>>) -> Seq<char>
    decreases parts.len(),
{
    if parts.len() == 0 {
        Seq::empty()
    } else if parts.len() == 1 {
        parts[0]
    } else {
        join_lines(parts.drop_last()) + "\n"@ + parts.last()
    }
}

/// One line of `normalize_text`: trailing whitespace goes, and a blank line
/// is kept only when the line before was not blank.
pub open spec fn normalize_step(st: (Seq<Seq<char>>, bool), line: Seq<char>) -> (Seq<Seq<char>>, bool) {
    let l = trim_end_seq(line);
    if is_blank(l) {
        if st.1 {
            st
        } else {
            (st.0.push(Seq::empty()), true)
        }
    } else {
        (st.0.push(l), false)
    }
}

pub open spec fn normalize_scan(ls: Seq<Seq<char>>) -> (Seq<Seq<char>>, bool)
    decreases ls.len(),
{
    if ls.len() == 0 {
        (Seq::empty(), false)
    } else {
        normalize_step(normalize_scan(ls.drop_last()), ls.last())
    }
}

/// Text with trailing spaces trimmed and runs of blank lines collapsed to one.
pub open spec fn normalized_of(text: Seq<char>) -> Seq<char> {
    join_lines(normalize_scan(lines_seq(text)).0)
}

/// Trims trailing spaces of every line and collapses runs of blank lines.
pub fn normalize_text(text: &str) -> (r: String)
    ensures
        r@ == normalized_of(text@),
{
    let ls = lines(text);
    let ghost lv = lines_seq(text@);
    let mut out: Vec<String> = Vec::new();
    let mut last_blank = false;
    let mut i: usize = 0;
    while i < ls.len()
        invariant
            i <= ls.len(),
            texts(ls@) == lv,
            (texts(out@), last_blank) == normalize_scan(lv.take(i as int)),
        decreases ls.len() - i,
    {
        assert(lv.take(i + 1).drop_last() =~= lv.take(i as int));
        assert(lv.take(i + 1).last() == ls@[i as int]@);
        let line = trim_end(ls[i].as_str());
        if blank(line.as_str()) {
            if !last_blank {
                last_blank = true;
                let e = String::new();
                assert(texts(out@.push(e)) =~= texts(out@).push(Seq::empty()));
                out.push(e);
            }
        } else {
            last_blank = false;
            assert(texts(out@.push(line)) =~= texts(out@).push(line@));
            out.push(line);
        }
        i = i + 1;
    }
    assert(lv.take(ls.len() as int) =~= lv);
    let ghost ov = texts(out@);
    let mut r = String::new();
    let mut k: usize = 0;
    while k < out.len()
        invariant
            k <= out.len(),
            ov == texts(out@),
            r@ == join_lines(ov.take(k as int)),
        decreases out.len() - k,
    {
        if k > 0 {
            r.append("\n");
        }
        r.append(out[k].as_str());
        assert(ov.take(k + 1).drop_last() =~= ov.take(k as int));
        if k == 0 {
            assert(join_lines(ov.take(1)) == ov.take(1)[0]);
        }
        k = k + 1;
    }
    assert(ov.take(out.len() as int) =~= ov);
    r
}

} // verus!
