//! Monitor selection: resolve a logical selector — the primary monitor, or
//! the Nth monitor left/right or up/down of it — to a screen rectangle, given
//! the monitor topology the platform enumerated for this call.
//!
//! Monitors are ordered by their center coordinates, ties broken by
//! enumeration order; an out-of-range N clamps to the nearest end.

use vstd::prelude::*;
use crate::rect::{Rect, spec_avg};

verus! {

broadcast use vstd::seq::group_seq_axioms, vstd::seq_lib::group_seq_lib_default;

/// One enumerated monitor: its screen rectangle.
#[derive(Clone, Copy, Debug, PartialEq, Eq, Structural)]
pub struct MonitorArea {
    pub rect: Rect,
}

/// Which monitor to use.
#[derive(Clone, Copy, Debug, PartialEq, Eq, Structural)]
pub enum Selector {
    /// The primary monitor: the one whose rectangle starts at the origin.
    Primary,
    /// The Nth monitor, negative or positive, from the primary in ascending
    /// center-x order (center-y breaks ties).
    ByOrderX(i16),
    /// The Nth monitor, negative or positive, from the primary in ascending
    /// center-y order (center-x breaks ties).
    ByOrderY(i16),
}

/// A monitor's sort key: its two center coordinates packed so that integer
/// order on the key is exactly lexicographic order on the pair.
pub open spec fn pack_center(a: int, b: int) -> int {
    a * 0x1_0000_0000 + (b + 0x8000_0000)
}

/// The sort key of monitor `m`: center-x first for the x order, center-y
/// first for the y order.
pub open spec fn monitor_key(m: MonitorArea, by_y: bool) -> int {
    let cx = spec_avg(m.rect.left as int, m.rect.right as int);
    let cy = spec_avg(m.rect.top as int, m.rect.bottom as int);
    if by_y {
        pack_center(cy, cx)
    } else {
        pack_center(cx, cy)
    }
}

/// The keyed index list of all monitors, in enumeration order.
pub open spec fn keyed_monitors(ms: Seq<MonitorArea>, by_y: bool) -> Seq<(i128, int)> {
    Seq::new(ms.len(), |i: int| (monitor_key(ms[i], by_y) as i128, i))
}

/// Insert `x` into the already sorted `s`, behind every earlier entry whose
/// key is no larger: a stable insertion.
pub open spec fn insort(s: Seq<(i128, int)>, x: (i128, int)) -> Seq<(i128, int)>
    decreases s.len(),
{
    if s.len() == 0 {
        seq![x]
    } else if x.0 < s.last().0 {
        insort(s.drop_last(), x).push(s.last())
    } else {
        s.push(x)
    }
}

/// Stable insertion sort by key: equal keys keep their enumeration order.
pub open spec fn sort_keys(s: Seq<(i128, int)>) -> Seq<(i128, int)>
    decreases s.len(),
{
    if s.len() == 0 {
        Seq::empty()
    } else {
        insort(sort_keys(s.drop_last()), s.last())
    }
}

/// The position of the first primary monitor in the sorted list `s`, reading
/// entries as indices into `ms`; the list's length when there is none.
pub open spec fn first_primary_at(s: Seq<(i128, int)>, ms: Seq<MonitorArea>, i: int) -> int
    decreases s.len() - i,
{
    if i < 0 || i >= s.len() {
        s.len() as int
    } else if 0 <= s[i].1 < ms.len() && is_primary(ms[s[i].1]) {
        i
    } else {
        first_primary_at(s, ms, i + 1)
    }
}

/// A monitor is primary when its rectangle starts at the origin.
pub open spec fn is_primary(m: MonitorArea) -> bool {
    m.rect.left == 0 && m.rect.top == 0
}

/// The clamped position `order` steps from `p` in a list of length `n`:
/// negative steps stop at the first entry, positive steps at the last.
pub open spec fn order_index(p: int, order: int, n: int) -> int {
    if order < 0 {
        if p + order < 0 {
            0
        } else {
            p + order
        }
    } else {
        if p + order > n - 1 {
            n - 1
        } else {
            p + order
        }
    }
}

/// Where the selector lands in the monitor list, or `None` when the list has
/// no primary monitor (then there is nothing to count from).
pub open spec fn selected_monitor(ms: Seq<MonitorArea>, sel: Selector) -> Option<MonitorArea> {
    let (by_y, order) = match sel {
        Selector::Primary => (false, 0int),
        Selector::ByOrderX(n) => (false, n as int),
        Selector::ByOrderY(n) => (true, n as int),
    };
    let sorted = sort_keys(keyed_monitors(ms, by_y));
    let p = first_primary_at(sorted, ms, 0);
    if p == sorted.len() {
        None
    } else {
        let idx = order_index(p, order, sorted.len() as int);
        Some(ms[sorted[idx].1])
    }
}

/// One enumerated monitor together with its device name, as the platform
/// reports it: UTF-16 code units such as `\\.\DISPLAY1`.
pub struct MonitorEntry {
    pub rect: Rect,
    pub device: Vec<u16>,
}

/// The UTF-16 code units of `\\.\DISPLAY` followed by `n` in decimal.
pub open spec fn display_name_spec(n: nat) -> Seq<u16> {
    seq![92u16, 92u16, 46u16, 92u16, 68u16, 73u16, 83u16, 80u16, 76u16, 65u16, 89u16] + dec_digits(
        n,
    )
}

/// The decimal digits of `n`, most significant first, as UTF-16 code units.
pub open spec fn dec_digits(n: nat) -> Seq<u16>
    decreases n,
{
    if n < 10 {
        seq![(48 + n) as u16]
    } else {
        dec_digits(n / 10).push((48 + n % 10) as u16)
    }
}

/// The decimal digits of `n`, most significant first, in UTF-16.
pub fn decimal_utf16(n: usize) -> (r: Vec<u16>)
    ensures
        r@ == dec_digits(n as nat),
    decreases n,
{
    if n < 10 {
        let mut out: Vec<u16> = Vec::new();
        out.push((48 + n) as u16);
        proof {
            assert(out@ =~= dec_digits(n as nat));
        }
        out
    } else {
        let mut out = decimal_utf16(n / 10);
        out.push((48 + (n % 10)) as u16);
        out
    }
}

/// The device name the platform gives display number `n`.
pub fn display_device_name(n: usize) -> (r: Vec<u16>)
    ensures
        r@ == display_name_spec(n as nat),
{
    let mut out: Vec<u16> = Vec::new();
    out.push(92);
    out.push(92);
    out.push(46);
    out.push(92);
    out.push(68);
    out.push(73);
    out.push(83);
    out.push(80);
    out.push(76);
    out.push(65);
    out.push(89);
    let digits = decimal_utf16(n);
    let nd = digits.len();
    let mut i: usize = 0;
    while i < nd
        invariant
            i <= nd,
            nd == digits@.len(),
            out@ == seq![
                92u16, 92u16, 46u16, 92u16, 68u16, 73u16, 83u16, 80u16, 76u16, 65u16, 89u16,
            ] + digits@.take(i as int),
        decreases nd - i,
    {
        out.push(digits[i]);
        proof {
            assert(digits@.take(i as int + 1) =~= digits@.take(i as int).push(digits@[i as int]));
            assert(out@ =~= seq![
                92u16, 92u16, 46u16, 92u16, 68u16, 73u16, 83u16, 80u16, 76u16, 65u16, 89u16,
            ] + digits@.take(i as int + 1));
        }
        i = i + 1;
    }
    proof {
        assert(digits@.take(nd as int) =~= digits@);
    }
    out
}

/// `hay` starts with `needle`.
pub open spec fn starts_with_spec(hay: Seq<u16>, needle: Seq<u16>) -> bool {
    needle.len() <= hay.len() && hay.take(needle.len() as int) == needle
}

/// Whether `hay` starts with `needle`.
pub fn utf16_starts_with(hay: &Vec<u16>, needle: &Vec<u16>) -> (r: bool)
    ensures
        r == starts_with_spec(hay@, needle@),
{
    let n = needle.len();
    if n > hay.len() {
        proof {
            assert(!starts_with_spec(hay@, needle@));
        }
        return false;
    }
    let mut i: usize = 0;
    while i < n
        invariant
            i <= n,
            n == needle@.len(),
            n <= hay@.len(),
            forall|t: int| 0 <= t < i ==> hay@[t] == needle@[t],
        decreases n - i,
    {
        if hay[i] != needle[i] {
            proof {
                assert(hay@.take(n as int)[i as int] != needle@[i as int]);
            }
            return false;
        }
        i = i + 1;
    }
    proof {
        assert(hay@.take(n as int) =~= needle@);
    }
    true
}

/// What the fullscreen scan settles on after looking at the first `i`
/// monitors: the ordinal match is taken only while nothing was found, a
/// device-name match overrides whatever came before.  `no` counts monitors
/// from one, as the platform numbers displays.
pub open spec fn fullscreen_scan(
    ms: Seq<MonitorEntry>,
    name: Seq<u16>,
    n: int,
    i: int,
) -> Option<Rect>
    decreases i,
{
    if i <= 0 {
        None
    } else {
        let acc = fullscreen_scan(ms, name, n, i - 1);
        if starts_with_spec(ms[i - 1].device@, name) {
            Some(ms[i - 1].rect)
        } else if i == n && acc is None {
            Some(ms[i - 1].rect)
        } else {
            acc
        }
    }
}

/// The screen rectangle for display *number* `n` (not index): the monitor
/// whose device name is `\\.\DISPLAY{n}`, or failing that the `n`th monitor
/// in enumeration order; `None` when neither exists.
pub fn fullscreen_area_by_number(monitors: &Vec<MonitorEntry>, n: usize) -> (r: Option<Rect>)
    requires
        n >= 1,
    ensures
        r == fullscreen_scan(
            monitors@,
            display_name_spec(n as nat),
            n as int,
            monitors@.len() as int,
        ),
{
    let name = display_device_name(n);
    let count = monitors.len();
    let mut acc: Option<Rect> = None;
    let mut i: usize = 0;
    while i < count
        invariant
            i <= count,
            count == monitors@.len(),
            name@ == display_name_spec(n as nat),
            acc == fullscreen_scan(monitors@, display_name_spec(n as nat), n as int, i as int),
        decreases count - i,
    {
        if utf16_starts_with(&monitors[i].device, &name) {
            acc = Some(monitors[i].rect);
        } else if i + 1 == n && acc.is_none() {
            acc = Some(monitors[i].rect);
        }
        i = i + 1;
    }
    acc
}

/// The view of one sort entry: its key and the monitor index it stands for.
pub open spec fn key_view(e: (i128, usize)) -> (i128, int) {
    (e.0, e.1 as int)
}

/// Packing the two center coordinates keeps lexicographic order.
pub proof fn lemma_pack_center_lex(a1: int, b1: int, a2: int, b2: int)
    requires
        -0x8000_0000 <= b1 <= 0x7fff_ffff,
        -0x8000_0000 <= b2 <= 0x7fff_ffff,
    ensures
        pack_center(a1, b1) < pack_center(a2, b2) <==> (a1 < a2 || (a1 == a2 && b1 < b2)),
{
}

proof fn lemma_insort_at(s: Seq<(i128, int)>, x: (i128, int), j: int)
    requires
        0 <= j <= s.len(),
        forall|i: int| j <= i < s.len() ==> x.0 < (#[trigger] s[i]).0,
        j > 0 ==> !(x.0 < s[j - 1].0),
    ensures
        insort(s, x) == s.subrange(0, j) + seq![x] + s.subrange(j, s.len() as int),
    decreases s.len(),
{
    if s.len() == 0 {
        assert(insort(s, x) =~= s.subrange(0, j) + seq![x] + s.subrange(j, s.len() as int));
    } else if j == s.len() {
        assert(insort(s, x) == s.push(x));
        assert(s.push(x) =~= s.subrange(0, j) + seq![x] + s.subrange(j, s.len() as int));
    } else {
        assert(x.0 < s.last().0);
        let prefix = s.drop_last();
        assert forall|i: int| j <= i < prefix.len() implies x.0 < (#[trigger] prefix[i]).0 by {
            assert(prefix[i] == s[i]);
        }
        if j > 0 {
            assert(prefix[j - 1] == s[j - 1]);
        }
        lemma_insort_at(prefix, x, j);
        assert(insort(s, x) == insort(prefix, x).push(s.last()));
        assert(insort(prefix, x).push(s.last()) =~= s.subrange(0, j) + seq![x] + s.subrange(
            j,
            s.len() as int,
        ));
    }
}

proof fn lemma_insort_membership(s: Seq<(i128, int)>, x: (i128, int))
    ensures
        insort(s, x).len() == s.len() + 1,
        forall|t: int| 0 <= t < insort(s, x).len() ==> s.contains(#[trigger] insort(s, x)[t])
            || insort(s, x)[t] == x,
    decreases s.len(),
{
    if s.len() == 0 {
    } else if x.0 < s.last().0 {
        let prefix = s.drop_last();
        lemma_insort_membership(prefix, x);
        let r = insort(s, x);
        assert forall|t: int| 0 <= t < r.len() implies s.contains(#[trigger] r[t]) || r[t]
            == x by {
            if t == r.len() - 1 {
                assert(r[t] == s[s.len() - 1]);
                assert(s.contains(s[s.len() - 1]));
            } else {
                assert(r[t] == insort(prefix, x)[t]);
                if insort(prefix, x)[t] != x {
                    assert(prefix.contains(r[t]));
                    let j = choose|j: int| 0 <= j < prefix.len() && prefix[j] == r[t];
                    assert(s[j] == r[t]);
                }
            }
        }
    } else {
        assert forall|t: int| 0 <= t < insort(s, x).len() implies s.contains(
            #[trigger] insort(s, x)[t],
        ) || insort(s, x)[t] == x by {
            if t < s.len() {
                assert(insort(s, x)[t] == s[t]);
            }
        }
    }
}

proof fn lemma_sort_keys_membership(s: Seq<(i128, int)>)
    ensures
        sort_keys(s).len() == s.len(),
        forall|t: int| 0 <= t < sort_keys(s).len() ==> s.contains(#[trigger] sort_keys(s)[t]),
    decreases s.len(),
{
    if s.len() > 0 {
        let prefix = s.drop_last();
        lemma_sort_keys_membership(prefix);
        lemma_insort_membership(sort_keys(prefix), s.last());
        let r = sort_keys(s);
        assert forall|t: int| 0 <= t < r.len() implies s.contains(#[trigger] r[t]) by {
            if r[t] == s.last() {
                assert(s[s.len() - 1] == r[t]);
            } else {
                assert(sort_keys(prefix).contains(r[t]));
                let j = choose|j: int| 0 <= j < sort_keys(prefix).len() && sort_keys(prefix)[j]
                    == r[t];
                assert(prefix.contains(r[t]));
                let k = choose|k: int| 0 <= k < prefix.len() && prefix[k] == r[t];
                assert(s[k] == r[t]);
            }
        }
    }
}

/// Sort `keys` stably by key, ascending.
fn sort_by_key(keys: &Vec<(i128, usize)>) -> (r: Vec<(i128, usize)>)
    ensures
        r@.map_values(|e: (i128, usize)| key_view(e)) == sort_keys(
            keys@.map_values(|e: (i128, usize)| key_view(e)),
        ),
{
    let ghost view_of = |e: (i128, usize)| key_view(e);
    let mut out: Vec<(i128, usize)> = Vec::new();
    let n = keys.len();
    let mut i: usize = 0;
    while i < n
        invariant
            i <= n,
            n == keys@.len(),
            out@.map_values(|e: (i128, usize)| key_view(e)) == sort_keys(
                keys@.take(i as int).map_values(|e: (i128, usize)| key_view(e)),
            ),
        decreases n - i,
    {
        let x = keys[i];
        let mut j: usize = out.len();
        while j > 0 && x.0 < out[j - 1].0
            invariant
                j <= out@.len(),
                forall|t: int| j <= t < out@.len() ==> x.0 < (#[trigger] out@[t]).0,
            decreases j,
        {
            j = j - 1;
        }
        let ghost pre = out@;
        out.insert(j, x);
        proof {
            let sv = pre.map_values(|e: (i128, usize)| key_view(e));
            let xv = (x.0, x.1 as int);
            assert forall|t: int| j <= t < sv.len() implies xv.0 < (#[trigger] sv[t]).0 by {
                assert(sv[t].0 == pre[t].0);
            }
            if j > 0 {
                assert(sv[j - 1].0 == pre[j - 1].0);
            }
            lemma_insort_at(sv, xv, j as int);
            assert(out@ =~= pre.subrange(0, j as int) + seq![x] + pre.subrange(
                j as int,
                pre.len() as int,
            ));
            assert(out@.map_values(|e: (i128, usize)| key_view(e)) =~= sv.subrange(
                0,
                j as int,
            ) + seq![xv] + sv.subrange(j as int, sv.len() as int));
            let taken = keys@.take(i as int).map_values(|e: (i128, usize)| key_view(e));
            let taken1 = keys@.take(i as int + 1).map_values(|e: (i128, usize)| key_view(e));
            assert(taken1.drop_last() =~= taken);
            assert(taken1.last() == xv);
            assert(sort_keys(taken1) == insort(sort_keys(taken), xv));
        }
        i = i + 1;
    }
    proof {
        assert(keys@.take(n as int) =~= keys@);
    }
    out
}

/// Resolve `sel` against the enumerated monitors: the primary monitor, or
/// the monitor `order` places from it in center order, clamped to the ends.
/// `None` exactly when no monitor is primary — including an empty topology.
pub fn select_monitor(monitors: &Vec<MonitorArea>, sel: Selector) -> (r: Option<MonitorArea>)
    ensures
        r == selected_monitor(monitors@, sel),
{
    let (by_y, order): (bool, i32) = match sel {
        Selector::Primary => (false, 0),
        Selector::ByOrderX(n) => (false, n as i32),
        Selector::ByOrderY(n) => (true, n as i32),
    };
    let n = monitors.len();
    let mut keys: Vec<(i128, usize)> = Vec::new();
    let mut i: usize = 0;
    while i < n
        invariant
            i <= n,
            n == monitors@.len(),
            keys@.len() == i,
            forall|t: int| 0 <= t < i ==> (#[trigger] keys@[t]) == (
                monitor_key(monitors@[t], by_y) as i128,
                t as usize,
            ),
        decreases n - i,
    {
        let (cx, cy) = monitors[i].rect.center();
        let first: i64 = if by_y {
            cy as i64
        } else {
            cx as i64
        };
        let second: i64 = if by_y {
            cx as i64
        } else {
            cy as i64
        };
        let key: i128 = (first as i128) * 0x1_0000_0000 + ((second as i128) + 0x8000_0000);
        keys.push((key, i));
        i = i + 1;
    }
    proof {
        assert(keys@.map_values(|e: (i128, usize)| key_view(e)) =~= keyed_monitors(
            monitors@,
            by_y,
        ));
    }
    let sorted = sort_by_key(&keys);
    let ghost sorted_spec = sort_keys(keyed_monitors(monitors@, by_y));
    let m = sorted.len();
    proof {
        assert(sorted@.map_values(|e: (i128, usize)| key_view(e)) == sorted_spec);
        assert(sorted@.len() == sorted_spec.len());
    }
    let mut p: usize = 0;
    let mut found: bool = false;
    while p < m && found == false
        invariant
            p <= m,
            m == sorted@.len(),
            n == monitors@.len(),
            sorted@.map_values(|e: (i128, usize)| key_view(e)) == sorted_spec,
            found ==> p < m && first_primary_at(sorted_spec, monitors@, 0) == p as int,
            !found ==> first_primary_at(sorted_spec, monitors@, 0) == first_primary_at(
                sorted_spec,
                monitors@,
                p as int,
            ),
        decreases m - p, (if found { 0int } else { 1int }),
    {
        let idx = sorted[p].1;
        proof {
            assert(sorted_spec[p as int] == key_view(sorted@[p as int]));
        }
        let mut primary: bool = false;
        if idx < n {
            let rect = monitors[idx].rect;
            if rect.left == 0 && rect.top == 0 {
                primary = true;
            }
        }
        if primary {
            found = true;
            proof {
                assert(is_primary(monitors@[sorted_spec[p as int].1]));
                assert(first_primary_at(sorted_spec, monitors@, p as int) == p as int);
            }
        } else {
            proof {
                assert(first_primary_at(sorted_spec, monitors@, p as int) == first_primary_at(
                    sorted_spec,
                    monitors@,
                    p as int + 1,
                ));
            }
            p = p + 1;
        }
    }
    if found == false {
        proof {
            assert(first_primary_at(sorted_spec, monitors@, m as int) == m as int);
        }
        return None;
    }
    let idx: usize = if order < 0 {
        let mag: usize = (-(order as i64)) as usize;
        if p >= mag {
            p - mag
        } else {
            0
        }
    } else {
        let room: usize = (m - 1) - p;
        if room < (order as usize) {
            m - 1
        } else {
            p + (order as usize)
        }
    };
    proof {
        assert(idx as int == order_index(p as int, order as int, m as int));
        assert(sorted_spec[idx as int] == (sorted@[idx as int].0, sorted@[idx as int].1 as int));
    }
    let mi = sorted[idx].1;
    proof {
        lemma_sort_keys_membership(keyed_monitors(monitors@, by_y));
        assert(sorted_spec.contains(sorted_spec[idx as int]));
        let t = choose|t: int| 0 <= t < keyed_monitors(monitors@, by_y).len() && keyed_monitors(
            monitors@,
            by_y,
        )[t] == sorted_spec[idx as int];
        assert(sorted_spec[idx as int].1 == t);
        assert(0 <= sorted_spec[idx as int].1 < monitors@.len());
        assert(mi as int == sorted_spec[idx as int].1);
    }
    Some(monitors[mi])
}

} // verus!
