//! The window target filter: decides whether the foreground window belongs
//! to the editor that the hotkey is forwarded to.
//!
//! The decision is a heuristic over the window title: take the trailing
//! segment of the title after the last `" - "` separator (the whole title
//! when no separator occurs), trim surrounding whitespace, and compare it
//! case-sensitively against the known editor display names. The filter
//! fails closed: a null window handle, or a title whose trailing segment is
//! not recognized, is not a target.

use vstd::prelude::*;

verus! {

/// Whether `c` carries the Unicode white-space property, the set that
/// title trimming removes at either end.
pub open spec fn is_ws(c: char) -> bool {
    c == ' ' || c == '\t' || c == '\n' || c == '\u{000B}' || c == '\u{000C}' || c == '\r' || c
        == '\u{0085}' || c == '\u{00A0}' || c == '\u{1680}' || c == '\u{2000}' || c == '\u{2001}'
        || c == '\u{2002}' || c == '\u{2003}' || c == '\u{2004}' || c == '\u{2005}' || c
        == '\u{2006}' || c == '\u{2007}' || c == '\u{2008}' || c == '\u{2009}' || c == '\u{200A}'
        || c == '\u{2028}' || c == '\u{2029}' || c == '\u{202F}' || c == '\u{205F}' || c
        == '\u{3000}'
}

/// Whether the three-character separator `" - "` starts at position `i`.
pub open spec fn has_sep_at(t: Seq<char>, i: int) -> bool {
    0 <= i && i + 3 <= t.len() && t[i] == ' ' && t[i + 1] == '-' && t[i + 2] == ' '
}

/// First position after the last separator whose start lies at or before
/// `p`, or zero when no separator starts there.
pub open spec fn seg_scan(t: Seq<char>, p: int) -> int
    decreases p + 1,
{
    if p < 0 {
        0
    } else if has_sep_at(t, p) {
        p + 3
    } else {
        seg_scan(t, p - 1)
    }
}

/// Start of the trailing segment: the position after the last `" - "`
/// separator, or zero when the title holds none.
pub open spec fn seg_start(t: Seq<char>) -> int {
    seg_scan(t, t.len() - 3)
}

/// The trailing segment of a title: everything after the last separator.
pub open spec fn tail_segment(t: Seq<char>) -> Seq<char> {
    t.subrange(seg_start(t), t.len() as int)
}

/// `s` with white-space removed from the front.
pub open spec fn trim_front(s: Seq<char>) -> Seq<char>
    decreases s.len(),
{
    if s.len() > 0 && is_ws(s[0]) {
        trim_front(s.subrange(1, s.len() as int))
    } else {
        s
    }
}

/// `s` with white-space removed from the back.
pub open spec fn trim_back(s: Seq<char>) -> Seq<char>
    decreases s.len(),
{
    if s.len() > 0 && is_ws(s[s.len() - 1]) {
        trim_back(s.subrange(0, s.len() - 1))
    } else {
        s
    }
}

/// `s` with white-space removed from both ends.
pub open spec fn trimmed(s: Seq<char>) -> Seq<char> {
    trim_back(trim_front(s))
}

/// Whether a title names the target editor: its trailing segment, trimmed,
/// equals one of the editor's display names.
pub open spec fn is_target_title(t: Seq<char>) -> bool {
    trimmed(tail_segment(t)) == "Visual Studio Code"@ || trimmed(tail_segment(t)) == "VS Code"@
}

/// Whether a window is the forwarding target: its handle is non-null and
/// its title names the target editor.
pub open spec fn is_target_spec(hwnd: usize, t: Seq<char>) -> bool {
    hwnd != 0 && is_target_title(t)
}

/// The characters of a string, as an indexable vector.
fn chars_of(s: &str) -> (v: Vec<char>)
    ensures
        v@ == s@,
{
    let n: usize = s.unicode_len();
    let mut v: Vec<char> = Vec::new();
    let mut i: usize = 0;
    while i < n
        invariant
            i <= n,
            n == s@.len(),
            v@ == s@.subrange(0, i as int),
        decreases n - i,
    {
        let c = s.get_char(i);
        v.push(c);
        proof {
            assert(s@.subrange(0, i + 1 as int) =~= s@.subrange(0, i as int).push(s@[i as int]));
        }
        i = i + 1;
    }
    proof {
        assert(s@.subrange(0, n as int) =~= s@);
    }
    v
}

/// Whether `c` carries the Unicode white-space property.
fn is_ws_exec(c: char) -> (b: bool)
    ensures
        b == is_ws(c),
{
    c == ' ' || c == '\t' || c == '\n' || c == '\u{000B}' || c == '\u{000C}' || c == '\r' || c
        == '\u{0085}' || c == '\u{00A0}' || c == '\u{1680}' || c == '\u{2000}' || c == '\u{2001}'
        || c == '\u{2002}' || c == '\u{2003}' || c == '\u{2004}' || c == '\u{2005}' || c
        == '\u{2006}' || c == '\u{2007}' || c == '\u{2008}' || c == '\u{2009}' || c == '\u{200A}'
        || c == '\u{2028}' || c == '\u{2029}' || c == '\u{202F}' || c == '\u{205F}' || c
        == '\u{3000}'
}

/// Position after the last `" - "` separator in `v`, or zero without one.
fn find_seg_start(v: &Vec<char>) -> (start: usize)
    ensures
        start as int == seg_start(v@),
        start <= v@.len(),
{
    let n: usize = v.len();
    if n < 3 {
        proof {
            assert(seg_scan(v@, n - 3) == 0) by {
                reveal_with_fuel(seg_scan, 4);
            }
        }
        return 0;
    }
    // Scan candidate separator starts from the highest position downwards;
    // `p_next` stays one above the next position to examine.
    let mut p_next: usize = n - 2;
    while p_next > 0
        invariant
            p_next <= n - 2,
            n == v@.len(),
            n >= 3,
            seg_scan(v@, n - 3) == seg_scan(v@, p_next - 1),
        decreases p_next,
    {
        let p: usize = p_next - 1;
        if v[p] == ' ' && v[p + 1] == '-' && v[p + 2] == ' ' {
            proof {
                assert(has_sep_at(v@, p as int));
                assert(seg_scan(v@, p as int) == p + 3);
            }
            return p + 3;
        }
        proof {
            assert(!has_sep_at(v@, p as int));
            assert(seg_scan(v@, p as int) == seg_scan(v@, p - 1 as int));
        }
        p_next = p_next - 1;
    }
    proof {
        assert(seg_scan(v@, -1) == 0);
    }
    0
}

/// Bounds of the trimmed middle of `v@.subrange(from, to)`: white-space is
/// dropped from both ends, nothing else.
fn trim_range(v: &Vec<char>, from: usize, to: usize) -> (bounds: (usize, usize))
    requires
        from <= to <= v@.len(),
    ensures
        from <= bounds.0 <= bounds.1 <= to,
        v@.subrange(bounds.0 as int, bounds.1 as int) == trimmed(
            v@.subrange(from as int, to as int),
        ),
{
    let ghost whole: Seq<char> = v@.subrange(from as int, to as int);
    let mut lo: usize = from;
    while lo < to && is_ws_exec(v[lo])
        invariant
            from <= lo <= to <= v@.len(),
            trim_front(whole) == trim_front(v@.subrange(lo as int, to as int)),
            whole == v@.subrange(from as int, to as int),
        decreases to - lo,
    {
        proof {
            assert(v@.subrange(lo as int, to as int).subrange(
                1,
                v@.subrange(lo as int, to as int).len() as int,
            ) =~= v@.subrange(lo + 1 as int, to as int));
        }
        lo = lo + 1;
    }
    proof {
        assert(trim_front(v@.subrange(lo as int, to as int)) == v@.subrange(lo as int, to as int));
    }
    let mut hi: usize = to;
    while hi > lo && is_ws_exec(v[hi - 1])
        invariant
            from <= lo <= hi <= to <= v@.len(),
            trim_back(v@.subrange(lo as int, to as int)) == trim_back(
                v@.subrange(lo as int, hi as int),
            ),
        decreases hi,
    {
        proof {
            assert(v@.subrange(lo as int, hi as int).subrange(
                0,
                v@.subrange(lo as int, hi as int).len() - 1,
            ) =~= v@.subrange(lo as int, hi - 1 as int));
        }
        hi = hi - 1;
    }
    proof {
        assert(trim_back(v@.subrange(lo as int, hi as int)) == v@.subrange(lo as int, hi as int));
    }
    (lo, hi)
}

/// Whether `v@.subrange(lo, hi)` equals the view of a literal.
fn range_eq_lit(v: &Vec<char>, lo: usize, hi: usize, lit: &str) -> (eq: bool)
    requires
        lo <= hi <= v@.len(),
    ensures
        eq == (v@.subrange(lo as int, hi as int) == lit@),
{
    let m: usize = lit.unicode_len();
    if hi - lo != m {
        return false;
    }
    let mut i: usize = 0;
    while i < m
        invariant
            i <= m,
            m == lit@.len(),
            hi - lo == m,
            lo <= hi <= v@.len(),
            forall|j: int| 0 <= j < i ==> v@[lo + j] == lit@[j],
        decreases m - i,
    {
        if v[lo + i] != lit.get_char(i) {
            proof {
                assert(v@.subrange(lo as int, hi as int)[i as int] != lit@[i as int]);
            }
            return false;
        }
        i = i + 1;
    }
    proof {
        assert(v@.subrange(lo as int, hi as int) =~= lit@);
    }
    true
}

/// Whether the window is the forwarding target. Fails closed: false for a
/// null handle, and for any title whose trailing segment (after the last
/// `" - "`, trimmed) is not one of the editor's display names.
pub fn is_target(hwnd: usize, title: &str) -> (target: bool)
    ensures
        target == is_target_spec(hwnd, title@),
{
    if hwnd == 0 {
        return false;
    }
    let v = chars_of(title);
    let n: usize = v.len();
    let start = find_seg_start(&v);
    let bounds = trim_range(&v, start, n);
    proof {
        assert(v@.subrange(start as int, n as int) == tail_segment(title@));
    }
    let full = range_eq_lit(&v, bounds.0, bounds.1, "Visual Studio Code");
    let short = range_eq_lit(&v, bounds.0, bounds.1, "VS Code");
    full || short
}

} // verus!
