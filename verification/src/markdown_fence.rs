//! Line scanning for streamed Markdown: code-fence detection and the stable
//! boundary up to which a streamed tail can be promoted.
//!
//! Text is a sequence of chars; lines are separated by `\n`, and a line's
//! content drops its trailing `\r`s. Whitespace is Unicode `White_Space`.

use vstd::prelude::*;
use crate::text::{char_is_whitespace, is_whitespace};

verus! {

// ── Char-level predicates over a line `s[lo..hi]` ───────────────────────────

/// First index at or after `i` (below `hi`) that is not white space.
pub open spec fn skip_ws(s: Seq<char>, i: int, hi: int) -> int
    decreases hi - i,
{
    if 0 <= i < hi && i < s.len() && char_is_whitespace(s[i]) { skip_ws(s, i + 1, hi) } else { i }
}

/// End of the line content once trailing white space is dropped.
pub open spec fn rskip_ws(s: Seq<char>, lo: int, j: int) -> int
    decreases j - lo,
{
    if lo < j && 0 < j <= s.len() && char_is_whitespace(s[j - 1]) { rskip_ws(s, lo, j - 1) } else { j }
}

/// End of the run of `ch` starting at `i`.
pub open spec fn run_end(s: Seq<char>, i: int, hi: int, ch: char) -> int
    decreases hi - i,
{
    if 0 <= i < hi && i < s.len() && s[i] == ch { run_end(s, i + 1, hi, ch) } else { i }
}

/// End of the line once trailing `\r`s are dropped.
pub open spec fn cr_end(s: Seq<char>, lo: int, j: int) -> int
    decreases j - lo,
{
    if lo < j && 0 < j <= s.len() && s[j - 1] == '\r' { cr_end(s, lo, j - 1) } else { j }
}

/// Three equal fence chars (`` ` `` or `~`) at `a`.
pub open spec fn fence_triple(s: Seq<char>, a: int) -> bool {
    (s[a] == '`' && s[a + 1] == '`' && s[a + 2] == '`') || (s[a] == '~' && s[a + 1] == '~' && s[a + 2] == '~')
}

/// An opening fence: after leading white space, three backticks or tildes,
/// with or without an info string (a language tag, say) after them.
pub open spec fn is_fence_open(s: Seq<char>, lo: int, hi: int) -> bool {
    let a = skip_ws(s, lo, hi);
    &&& a + 3 <= hi
    &&& fence_triple(s, a)
}

/// Length of the fence marker: the run of the first non-blank char, at
/// least three.
pub open spec fn fence_ticks(s: Seq<char>, lo: int, hi: int) -> int {
    let a = skip_ws(s, lo, hi);
    let ch = if a < hi { s[a] } else { '`' };
    let n = run_end(s, a, hi, ch) - a;
    if n < 3 { 3 } else { n }
}

/// A closing fence for a marker of `ticks`: the trimmed line is a run of at
/// least `ticks` backticks or tildes and nothing else.
pub open spec fn is_fence_close(s: Seq<char>, lo: int, hi: int, ticks: int) -> bool {
    let a = skip_ws(s, lo, hi);
    let b = rskip_ws(s, lo, hi);
    &&& a < b
    &&& (s[a] == '`' || s[a] == '~')
    &&& run_end(s, a, hi, s[a]) - a >= ticks
    &&& run_end(s, a, hi, s[a]) >= b
}

/// Fence state after one more line: an open fence closes on a matching
/// close; otherwise an opening line opens one.
pub open spec fn fence_line(s: Seq<char>, lo: int, hi: int, st: Option<int>) -> Option<int> {
    let e = cr_end(s, lo, hi);
    match st {
        None => if is_fence_open(s, lo, e) { Some(fence_ticks(s, lo, e)) } else { None },
        Some(t) => if is_fence_close(s, lo, e, t) { None } else { Some(t) },
    }
}

/// Fence state after scanning `s` from `i` (current line from `ls`).
pub open spec fn detect_scan(s: Seq<char>, i: int, ls: int, st: Option<int>) -> Option<int>
    decreases s.len() - i,
{
    if i >= s.len() {
        fence_line(s, ls, s.len() as int, st)
    } else if s[i] == '\n' {
        detect_scan(s, i + 1, i + 1, fence_line(s, ls, i, st))
    } else {
        detect_scan(s, i + 1, ls, st)
    }
}

/// Marker length of the fence left open at the end of `s`, if any.
pub open spec fn open_fence_spec(s: Seq<char>) -> Option<int> {
    detect_scan(s, 0, 0, None)
}

/// Offset of the first opening-fence line, scanning from `i`.
pub open spec fn open_start_scan(s: Seq<char>, i: int, ls: int) -> Option<int>
    decreases s.len() - i,
{
    if i >= s.len() {
        if is_fence_open(s, ls, cr_end(s, ls, s.len() as int)) { Some(ls) } else { None }
    } else if s[i] == '\n' {
        if is_fence_open(s, ls, cr_end(s, ls, i)) { Some(ls) } else { open_start_scan(s, i + 1, i + 1) }
    } else {
        open_start_scan(s, i + 1, ls)
    }
}

/// End offset (past its line break) of the first closing line after the
/// first opening line. The marker length is `given`, or the opening line's.
pub open spec fn close_scan(s: Seq<char>, i: int, ls: int, mode: Option<int>, given: Option<int>) -> Option<int>
    decreases s.len() - i,
{
    let at_end = i >= s.len();
    if !at_end && s[i] != '\n' {
        close_scan(s, i + 1, ls, mode, given)
    } else {
        let hi = if at_end { s.len() as int } else { i };
        let e = cr_end(s, ls, hi);
        let end = if at_end { s.len() as int } else { i + 1 };
        match mode {
            None => {
                let next = if is_fence_open(s, ls, e) {
                    Some(match given { Some(t) => t, None => fence_ticks(s, ls, e) })
                } else {
                    None
                };
                if at_end { None } else { close_scan(s, i + 1, i + 1, next, given) }
            },
            Some(t) => if is_fence_close(s, ls, e, t) {
                Some(end)
            } else if at_end {
                None
            } else {
                close_scan(s, i + 1, i + 1, mode, given)
            },
        }
    }
}

/// Index of the last `"\n\n"` of `s` starting before `j - 1` that lies
/// outside a fence: no fence is open in `before` followed by the text up to
/// it.
pub open spec fn last_blank(before: Seq<char>, s: Seq<char>, j: int) -> Option<int>
    decreases j,
{
    if j < 2 || j > s.len() {
        None
    } else if s[j - 2] == '\n' && s[j - 1] == '\n' && open_fence_spec(before + s.subrange(0, j - 1)) is None {
        Some(j - 2)
    } else {
        last_blank(before, s, j - 1)
    }
}

/// How much of `tail` can move into `committed`:
/// inside a fence opened in `committed`, through its closing line; when a
/// fence opens in `tail`, up to its opening line (or through its close when
/// it opens at the start); otherwise through the last blank line outside
/// fences, else through the first complete fence.
pub open spec fn stable_boundary(committed: Seq<char>, tail: Seq<char>) -> Option<int> {
    if tail.len() == 0 {
        None
    } else {
        match open_fence_spec(committed) {
            Some(t) => close_scan(tail, 0, 0, None, Some(t)),
            None => match open_fence_spec(committed + tail) {
                Some(t2) => match open_start_scan(tail, 0, 0) {
                    Some(idx) => if idx > 0 { Some(idx) } else { close_scan(tail, 0, 0, None, Some(t2)) },
                    None => None,
                },
                None => match last_blank(committed, tail, tail.len() as int) {
                    Some(i) => Some(i + 2),
                    None => close_scan(tail, 0, 0, None, None),
                },
            },
        }
    }
}

/// Repeatedly moves the stable prefix of `tail` into `committed`.
pub open spec fn promote_spec(committed: Seq<char>, tail: Seq<char>) -> (Seq<char>, Seq<char>)
    decreases tail.len(),
{
    if tail.len() == 0 {
        (committed, tail)
    } else {
        match stable_boundary(committed, tail) {
            Some(k) => if 0 < k <= tail.len() {
                promote_spec(committed + tail.subrange(0, k), tail.subrange(k, tail.len() as int))
            } else {
                (committed, tail)
            },
            None => (committed, tail),
        }
    }
}

// ── Executable scanning ─────────────────────────────────────────────────────

fn skip_ws_exec(s: &Vec<char>, i: usize, hi: usize) -> (r: usize)
    requires
        i <= hi <= s.len(),
    ensures
        r as int == skip_ws(s@, i as int, hi as int),
        i <= r <= hi,
{
    let mut k = i;
    while k < hi && is_whitespace(s[k])
        invariant
            i <= k <= hi <= s.len(),
            skip_ws(s@, i as int, hi as int) == skip_ws(s@, k as int, hi as int),
        decreases hi - k,
    {
        k = k + 1;
    }
    k
}

fn rskip_ws_exec(s: &Vec<char>, lo: usize, j: usize) -> (r: usize)
    requires
        lo <= j <= s.len(),
    ensures
        r as int == rskip_ws(s@, lo as int, j as int),
        lo <= r <= j,
{
    let mut k = j;
    while k > lo && is_whitespace(s[k - 1])
        invariant
            lo <= k <= j <= s.len(),
            rskip_ws(s@, lo as int, j as int) == rskip_ws(s@, lo as int, k as int),
        decreases k,
    {
        k = k - 1;
    }
    k
}

fn run_end_exec(s: &Vec<char>, i: usize, hi: usize, ch: char) -> (r: usize)
    requires
        i <= hi <= s.len(),
    ensures
        r as int == run_end(s@, i as int, hi as int, ch),
        i <= r <= hi,
{
    let mut k = i;
    while k < hi && s[k] == ch
        invariant
            i <= k <= hi <= s.len(),
            run_end(s@, i as int, hi as int, ch) == run_end(s@, k as int, hi as int, ch),
        decreases hi - k,
    {
        k = k + 1;
    }
    k
}

fn cr_end_exec(s: &Vec<char>, lo: usize, j: usize) -> (r: usize)
    requires
        lo <= j <= s.len(),
    ensures
        r as int == cr_end(s@, lo as int, j as int),
        lo <= r <= j,
{
    let mut k = j;
    while k > lo && s[k - 1] == '\r'
        invariant
            lo <= k <= j <= s.len(),
            cr_end(s@, lo as int, j as int) == cr_end(s@, lo as int, k as int),
        decreases k,
    {
        k = k - 1;
    }
    k
}

fn is_fence_open_exec(s: &Vec<char>, lo: usize, hi: usize) -> (b: bool)
    requires
        lo <= hi <= s.len(),
    ensures
        b == is_fence_open(s@, lo as int, hi as int),
{
    let a = skip_ws_exec(s, lo, hi);
    if hi - a < 3 {
        return false;
    }
    (s[a] == '`' && s[a + 1] == '`' && s[a + 2] == '`') || (s[a] == '~' && s[a + 1] == '~' && s[a + 2] == '~')
}

fn fence_ticks_exec(s: &Vec<char>, lo: usize, hi: usize) -> (t: usize)
    requires
        lo <= hi <= s.len(),
    ensures
        t as int == fence_ticks(s@, lo as int, hi as int),
{
    let a = skip_ws_exec(s, lo, hi);
    let ch = if a < hi { s[a] } else { '`' };
    let n = run_end_exec(s, a, hi, ch) - a;
    if n < 3 { 3 } else { n }
}

fn is_fence_close_exec(s: &Vec<char>, lo: usize, hi: usize, ticks: usize) -> (b: bool)
    requires
        lo <= hi <= s.len(),
    ensures
        b == is_fence_close(s@, lo as int, hi as int, ticks as int),
{
    let a = skip_ws_exec(s, lo, hi);
    let b = rskip_ws_exec(s, lo, hi);
    if a >= b {
        return false;
    }
    let ch = s[a];
    if ch != '`' && ch != '~' {
        return false;
    }
    let e = run_end_exec(s, a, hi, ch);
    e - a >= ticks && e >= b
}

fn fence_line_exec(s: &Vec<char>, lo: usize, hi: usize, st: Option<usize>) -> (r: Option<usize>)
    requires
        lo <= hi <= s.len(),
    ensures
        match r { Some(t) => Some(t as int), None => None } == fence_line(s@, lo as int, hi as int,
            match st { Some(t) => Some(t as int), None => None }),
{
    let e = cr_end_exec(s, lo, hi);
    match st {
        None => if is_fence_open_exec(s, lo, e) { Some(fence_ticks_exec(s, lo, e)) } else { None },
        Some(t) => if is_fence_close_exec(s, lo, e, t) { None } else { Some(t) },
    }
}

/// Integer view of an optional count.
pub open spec fn opt_int(o: Option<usize>) -> Option<int> {
    match o {
        Some(t) => Some(t as int),
        None => None,
    }
}

/// Marker length of the fence left open at the end of `s`, if any.
pub fn open_fence(s: &Vec<char>) -> (r: Option<usize>)
    ensures
        opt_int(r) == open_fence_spec(s@),
{
    let n = s.len();
    let mut st: Option<usize> = None;
    let mut ls: usize = 0;
    let mut i: usize = 0;
    while i < n
        invariant
            n == s.len(),
            ls <= i <= n,
            open_fence_spec(s@) == detect_scan(s@, i as int, ls as int, opt_int(st)),
        decreases n - i,
    {
        if s[i] == '\n' {
            st = fence_line_exec(s, ls, i, st);
            ls = i + 1;
        }
        i = i + 1;
    }
    fence_line_exec(s, ls, n, st)
}

fn open_start(s: &Vec<char>) -> (r: Option<usize>)
    ensures
        opt_int(r) == open_start_scan(s@, 0, 0),
{
    let n = s.len();
    let mut ls: usize = 0;
    let mut i: usize = 0;
    while i < n
        invariant
            n == s.len(),
            ls <= i <= n,
            open_start_scan(s@, 0, 0) == open_start_scan(s@, i as int, ls as int),
        decreases n - i,
    {
        if s[i] == '\n' {
            let e = cr_end_exec(s, ls, i);
            if is_fence_open_exec(s, ls, e) {
                return Some(ls);
            }
            ls = i + 1;
        }
        i = i + 1;
    }
    let e = cr_end_exec(s, ls, n);
    if is_fence_open_exec(s, ls, e) { Some(ls) } else { None }
}

fn close_after_open(s: &Vec<char>, given: Option<usize>) -> (r: Option<usize>)
    ensures
        opt_int(r) == close_scan(s@, 0, 0, None, opt_int(given)),
{
    let n = s.len();
    let mut mode: Option<usize> = None;
    let mut ls: usize = 0;
    let mut i: usize = 0;
    while i < n
        invariant
            n == s.len(),
            ls <= i <= n,
            close_scan(s@, 0, 0, None, opt_int(given)) == close_scan(s@, i as int, ls as int, opt_int(mode), opt_int(given)),
        decreases n - i,
    {
        if s[i] == '\n' {
            let e = cr_end_exec(s, ls, i);
            match mode {
                None => {
                    if is_fence_open_exec(s, ls, e) {
                        mode = Some(match given { Some(t) => t, None => fence_ticks_exec(s, ls, e) });
                    }
                },
                Some(t) => {
                    if is_fence_close_exec(s, ls, e, t) {
                        return Some(i + 1);
                    }
                },
            }
            ls = i + 1;
        }
        i = i + 1;
    }
    let e = cr_end_exec(s, ls, n);
    match mode {
        None => None,
        Some(t) => if is_fence_close_exec(s, ls, e, t) { Some(n) } else { None },
    }
}

fn last_blank_exec(before: &Vec<char>, s: &Vec<char>) -> (r: Option<usize>)
    ensures
        opt_int(r) == last_blank(before@, s@, s@.len() as int),
        match r { Some(i) => i + 2 <= s@.len(), None => true },
{
    let mut j = s.len();
    while j >= 2
        invariant
            j <= s.len(),
            last_blank(before@, s@, s@.len() as int) == last_blank(before@, s@, j as int),
        decreases j,
    {
        if s[j - 2] == '\n' && s[j - 1] == '\n' {
            let head = slice_chars(s, 0, j - 1);
            let upto = concat_chars(before, &head);
            if open_fence(&upto).is_none() {
                return Some(j - 2);
            }
        }
        j = j - 1;
    }
    None
}

/// `a` followed by `b`.
pub fn concat_chars(a: &Vec<char>, b: &Vec<char>) -> (r: Vec<char>)
    ensures
        r@ == a@ + b@,
{
    let mut r = a.clone();
    let mut i: usize = 0;
    while i < b.len()
        invariant
            i <= b.len(),
            r@ == a@ + b@.subrange(0, i as int),
        decreases b.len() - i,
    {
        r.push(b[i]);
        i = i + 1;
    }
    assert(b@.subrange(0, b@.len() as int) =~= b@);
    r
}

/// How much of `tail` can move into `committed` (see [`stable_boundary`]).
pub fn stable_boundary_exec(committed: &Vec<char>, tail: &Vec<char>) -> (r: Option<usize>)
    ensures
        opt_int(r) == stable_boundary(committed@, tail@),
{
    if tail.len() == 0 {
        return None;
    }
    match open_fence(committed) {
        Some(t) => close_after_open(tail, Some(t)),
        None => {
            let all = concat_chars(committed, tail);
            match open_fence(&all) {
                Some(t2) => match open_start(tail) {
                    Some(idx) => if idx > 0 { Some(idx) } else { close_after_open(tail, Some(t2)) },
                    None => None,
                },
                None => match last_blank_exec(committed, tail) {
                    Some(i) => Some(i + 2),
                    None => close_after_open(tail, None),
                },
            }
        },
    }
}

/// `s[lo..hi]` as a vector.
pub fn slice_chars(s: &Vec<char>, lo: usize, hi: usize) -> (r: Vec<char>)
    requires
        lo <= hi <= s.len(),
    ensures
        r@ == s@.subrange(lo as int, hi as int),
{
    let mut r: Vec<char> = Vec::new();
    let mut i = lo;
    while i < hi
        invariant
            lo <= i <= hi <= s.len(),
            r@ == s@.subrange(lo as int, i as int),
        decreases hi - i,
    {
        r.push(s[i]);
        i = i + 1;
    }
    r
}

/// Moves every stable prefix of `tail` into `committed`.
pub fn promote(committed: Vec<char>, tail: Vec<char>) -> (r: (Vec<char>, Vec<char>))
    ensures
        (r.0@, r.1@) == promote_spec(committed@, tail@),
{
    let mut c = committed;
    let mut t = tail;
    while t.len() > 0
        invariant
            promote_spec(committed@, tail@) == promote_spec(c@, t@),
        decreases t.len(),
    {
        match stable_boundary_exec(&c, &t) {
            Some(k) => {
                if 0 < k && k <= t.len() {
                    let head = slice_chars(&t, 0, k);
                    let rest = slice_chars(&t, k, t.len());
                    c = concat_chars(&c, &head);
                    t = rest;
                } else {
                    return (c, t);
                }
            },
            None => {
                return (c, t);
            },
        }
    }
    (c, t)
}

} // verus!
