//! Human-readable rendering of a macro: one line per event with
//! press/wait*/release triples collapsed into "click" lines, and
//! per-kind statistics sorted by label.

use crate::event::{Event, MouseEventButton};
use crate::keys::{button_name, key_name, spec_button_name, spec_key_name, Button};
use crate::text::{
    dec_rep, dec_rep_signed, i64_to_string, lemma_lex_lt_asymmetric, lemma_lex_lt_transitive,
    lemma_lex_lt_trichotomy, lex_lt, str_eq, str_lex_lt, u64_to_string, usize_to_string,
};
use vstd::prelude::*;
use vstd::string::*;

verus! {

/// The display-only merge of a press, any waits, and the matching
/// release into one "click": where the release sits, how many waits
/// were consumed, their total duration (saturated at `u64::MAX`), and
/// the click's button and coordinates.
#[derive(Clone, Copy, PartialEq, Eq, Structural, Debug)]
pub struct ClickCollapse {
    pub release_idx: usize,
    pub waits_consumed: usize,
    pub wait_ms_total: u64,
    pub button: Button,
    pub x: i64,
    pub y: i64,
}

pub fn is_same_click(a: &MouseEventButton, b: &MouseEventButton) -> (r: bool)
    ensures
        r == (a.button == b.button && a.x == b.x && a.y == b.y),
{
    a.button == b.button && a.x == b.x && a.y == b.y
}

/// Whether `ev` is a mouse release matching the press `press_ev`:
/// same button, same coordinates.
pub open spec fn is_matching_release(press_ev: Event, ev: Event) -> bool {
    match press_ev {
        Event::MousePress(p) => match ev {
            Event::MouseRelease(r) => r.button == p.button && r.x == p.x && r.y == p.y,
            _ => false,
        },
        _ => false,
    }
}

/// Scans right from position `j` for the release that closes a click on
/// `press`: waits are consumed and counted; the matching release ends the
/// scan; any other event prevents the collapse. The result is the release
/// index, the number of waits consumed, and their total duration.
pub open spec fn spec_scan_release(events: Seq<Event>, press: MouseEventButton, j: nat) -> Option<
    (int, nat, nat),
>
    decreases events.len() - j,
{
    if j >= events.len() {
        Option::None
    } else {
        match events[j as int] {
            Event::Wait(ms) => match spec_scan_release(events, press, j + 1) {
                Option::Some(t) => Option::Some((t.0, (t.1 + 1) as nat, (t.2 + ms) as nat)),
                Option::None => Option::None,
            },
            Event::MouseRelease(rel) => if rel.button == press.button && rel.x == press.x && rel.y
                == press.y {
                Option::Some((j as int, 0, 0))
            } else {
                Option::None
            },
            _ => Option::None,
        }
    }
}

/// The click collapse available at position `i`, if any.
pub open spec fn spec_collapse_at(events: Seq<Event>, i: nat) -> Option<(int, nat, nat)> {
    if i < events.len() {
        match events[i as int] {
            Event::MousePress(p) => spec_scan_release(events, p, i + 1),
            _ => Option::None,
        }
    } else {
        Option::None
    }
}

/// A total wait capped at what a `u64` can hold.
pub open spec fn cap_u64(n: nat) -> u64 {
    if n > u64::MAX {
        u64::MAX
    } else {
        n as u64
    }
}

proof fn lemma_scan_release_bounds(events: Seq<Event>, press: MouseEventButton, j: nat)
    requires
        j <= events.len(),
        spec_scan_release(events, press, j) is Some,
    ensures
        ({
            let t = spec_scan_release(events, press, j)->Some_0;
            &&& j <= t.0 < events.len()
            &&& is_matching_release(Event::MousePress(press), events[t.0])
            &&& t.1 == t.0 - j
            &&& forall|k: int| j <= k < t.0 ==> events[k] is Wait
        }),
    decreases events.len() - j,
{
    if j < events.len() {
        match events[j as int] {
            Event::Wait(ms) => {
                lemma_scan_release_bounds(events, press, j + 1);
            },
            _ => {},
        }
    }
}

/// Attempts the display-only click collapse at `start_idx`: consume zero
/// or more waits after a mouse press, then require the next non-wait
/// event to be a release of the same button at the same coordinates.
pub fn try_collapse_click(events: &Vec<Event>, start_idx: usize) -> (r: Option<ClickCollapse>)
    requires
        start_idx < events@.len(),
    ensures
        match r {
            Option::Some(c) => {
                &&& spec_collapse_at(events@, start_idx as nat) matches Option::Some(t) && t.0
                    == c.release_idx as int && t.1 == c.waits_consumed as nat && c.wait_ms_total
                    == cap_u64(t.2)
                &&& events@[start_idx as int] matches Event::MousePress(p) && c.button == p.button
                    && c.x == p.x && c.y == p.y
            },
            Option::None => spec_collapse_at(events@, start_idx as nat) is None,
        },
{
    let n = events.len();
    let press = match &events[start_idx] {
        Event::MousePress(p) => *p,
        _ => {
            return Option::None;
        },
    };
    let ghost full = spec_scan_release(events@, press, (start_idx + 1) as nat);
    let mut idx: usize = start_idx + 1;
    let mut waits_consumed: usize = 0;
    let mut wait_ms_total: u64 = 0;
    let ghost mut suffix_total: nat = 0nat;
    while idx < n
        invariant
            n == events@.len(),
            start_idx + 1 <= idx <= events@.len(),
            events@[start_idx as int] == Event::MousePress(press),
            full == spec_scan_release(events@, press, (start_idx + 1) as nat),
            full == spec_collapse_at(events@, start_idx as nat),
            waits_consumed == idx - start_idx - 1,
            forall|k: int| start_idx < k < idx ==> events@[k] is Wait,
            full == (match spec_scan_release(events@, press, idx as nat) {
                Option::Some(t) => Option::<(int, nat, nat)>::Some(
                    (t.0, (t.1 + waits_consumed) as nat, (t.2 + suffix_total) as nat),
                ),
                Option::None => Option::<(int, nat, nat)>::None,
            }),
            wait_ms_total == cap_u64(suffix_total),
        decreases events@.len() - idx,
    {
        match &events[idx] {
            Event::Wait(ms) => {
                let m = *ms;
                waits_consumed += 1;
                if wait_ms_total > u64::MAX - m {
                    wait_ms_total = u64::MAX;
                } else {
                    wait_ms_total = wait_ms_total + m;
                }
                proof {
                    suffix_total = (suffix_total + m) as nat;
                }
                idx += 1;
            },
            Event::MouseRelease(release) => {
                if is_same_click(&press, release) {
                    return Option::Some(
                        ClickCollapse {
                            release_idx: idx,
                            waits_consumed,
                            wait_ms_total,
                            button: press.button,
                            x: press.x,
                            y: press.y,
                        },
                    );
                } else {
                    return Option::None;
                }
            },
            _ => {
                return Option::None;
            },
        }
    }
    Option::None
}

/// Click collapse triggers exactly when a mouse press is followed, after
/// zero or more waits, by a release of the same button at the same
/// coordinates; any other event standing between them prevents it.
pub proof fn lemma_click_collapse_iff(events: Seq<Event>, i: nat)
    requires
        i < events.len(),
    ensures
        spec_collapse_at(events, i) is Some <==> (events[i as int] is MousePress && exists|j: int|
            i < j < events.len() && is_matching_release(events[i as int], #[trigger] events[j]) && (
            forall|t: int| i < t < j ==> events[t] is Wait)),
{
    match events[i as int] {
        Event::MousePress(p) => {
            lemma_scan_release_iff(events, p, (i + 1) as nat);
        },
        _ => {},
    }
}

proof fn lemma_scan_release_iff(events: Seq<Event>, press: MouseEventButton, j0: nat)
    requires
        j0 <= events.len(),
    ensures
        spec_scan_release(events, press, j0) is Some <==> exists|j: int|
            j0 <= j < events.len() && is_matching_release(Event::MousePress(press), #[trigger] events[j])
                && (forall|t: int| j0 <= t < j ==> events[t] is Wait),
    decreases events.len() - j0,
{
    if j0 == events.len() {
    } else {
        match events[j0 as int] {
            Event::Wait(ms) => {
                lemma_scan_release_iff(events, press, j0 + 1);
                if spec_scan_release(events, press, j0) is Some {
                    let j = choose|j: int|
                        j0 + 1 <= j < events.len() && is_matching_release(
                            Event::MousePress(press),
                            #[trigger] events[j],
                        ) && (forall|t: int| j0 + 1 <= t < j ==> events[t] is Wait);
                    assert(j0 <= j < events.len() && is_matching_release(
                        Event::MousePress(press),
                        events[j],
                    ) && (forall|t: int| j0 <= t < j ==> events[t] is Wait));
                } else {
                    if exists|j: int|
                        j0 <= j < events.len() && is_matching_release(
                            Event::MousePress(press),
                            #[trigger] events[j],
                        ) && (forall|t: int| j0 <= t < j ==> events[t] is Wait) {
                        let j = choose|j: int|
                            j0 <= j < events.len() && is_matching_release(
                                Event::MousePress(press),
                                #[trigger] events[j],
                            ) && (forall|t: int| j0 <= t < j ==> events[t] is Wait);
                        assert(j != j0);
                        assert(j0 + 1 <= j < events.len() && is_matching_release(
                            Event::MousePress(press),
                            events[j],
                        ) && (forall|t: int| j0 + 1 <= t < j ==> events[t] is Wait));
                    }
                }
            },
            Event::MouseRelease(rel) => {
                if rel.button == press.button && rel.x == press.x && rel.y == press.y {
                    let j = j0 as int;
                    assert(j0 <= j < events.len() && is_matching_release(
                        Event::MousePress(press),
                        events[j],
                    ) && (forall|t: int| j0 <= t < j ==> events[t] is Wait));
                } else {
                    if exists|j: int|
                        j0 <= j < events.len() && is_matching_release(
                            Event::MousePress(press),
                            #[trigger] events[j],
                        ) && (forall|t: int| j0 <= t < j ==> events[t] is Wait) {
                        let j = choose|j: int|
                            j0 <= j < events.len() && is_matching_release(
                                Event::MousePress(press),
                                #[trigger] events[j],
                            ) && (forall|t: int| j0 <= t < j ==> events[t] is Wait);
                        assert(events[j0 as int] is Wait);
                    }
                }
            },
            _ => {
                if exists|j: int|
                    j0 <= j < events.len() && is_matching_release(
                        Event::MousePress(press),
                        #[trigger] events[j],
                    ) && (forall|t: int| j0 <= t < j ==> events[t] is Wait) {
                    let j = choose|j: int|
                        j0 <= j < events.len() && is_matching_release(
                            Event::MousePress(press),
                            #[trigger] events[j],
                        ) && (forall|t: int| j0 <= t < j ==> events[t] is Wait);
                    assert(events[j0 as int] is Wait);
                }
            },
        }
    }
}

/// The one-line description of an event in the itemized listing.
pub open spec fn spec_describe(ev: Event) -> Seq<char> {
    match ev {
        Event::Wait(ms) => "wait "@ + dec_rep(ms as nat) + " ms"@,
        Event::MousePress(m) => "mouse_press "@ + spec_button_name(m.button) + " at ("@
            + dec_rep_signed(m.x as int) + ", "@ + dec_rep_signed(m.y as int) + ")"@,
        Event::MouseRelease(m) => "mouse_release "@ + spec_button_name(m.button) + " at ("@
            + dec_rep_signed(m.x as int) + ", "@ + dec_rep_signed(m.y as int) + ")"@,
        Event::MouseMove(m) => "mouse_move to ("@ + dec_rep_signed(m.x as int) + ", "@
            + dec_rep_signed(m.y as int) + ")"@,
        Event::KeyPress(k) => "key_press "@ + spec_key_name(k),
        Event::KeyRelease(k) => "key_release "@ + spec_key_name(k),
    }
}

pub fn describe_event(ev: &Event) -> (s: String)
    ensures
        s@ == spec_describe(*ev),
{
    match ev {
        Event::Wait(ms) => {
            let mut s = String::from_str("wait ");
            let d = u64_to_string(*ms);
            s.append(d.as_str());
            s.append(" ms");
            proof {
                assert(s@ =~= spec_describe(*ev));
            }
            s
        },
        Event::MousePress(m) => {
            let mut s = String::from_str("mouse_press ");
            let b = button_name(&m.button);
            s.append(b.as_str());
            s.append(" at (");
            let xs = i64_to_string(m.x);
            s.append(xs.as_str());
            s.append(", ");
            let ys = i64_to_string(m.y);
            s.append(ys.as_str());
            s.append(")");
            proof {
                assert(s@ =~= spec_describe(*ev));
            }
            s
        },
        Event::MouseRelease(m) => {
            let mut s = String::from_str("mouse_release ");
            let b = button_name(&m.button);
            s.append(b.as_str());
            s.append(" at (");
            let xs = i64_to_string(m.x);
            s.append(xs.as_str());
            s.append(", ");
            let ys = i64_to_string(m.y);
            s.append(ys.as_str());
            s.append(")");
            proof {
                assert(s@ =~= spec_describe(*ev));
            }
            s
        },
        Event::MouseMove(m) => {
            let mut s = String::from_str("mouse_move to (");
            let xs = i64_to_string(m.x);
            s.append(xs.as_str());
            s.append(", ");
            let ys = i64_to_string(m.y);
            s.append(ys.as_str());
            s.append(")");
            proof {
                assert(s@ =~= spec_describe(*ev));
            }
            s
        },
        Event::KeyPress(k) => {
            let mut s = String::from_str("key_press ");
            let kn = key_name(k);
            s.append(kn.as_str());
            proof {
                assert(s@ =~= spec_describe(*ev));
            }
            s
        },
        Event::KeyRelease(k) => {
            let mut s = String::from_str("key_release ");
            let kn = key_name(k);
            s.append(kn.as_str());
            proof {
                assert(s@ =~= spec_describe(*ev));
            }
            s
        },
    }
}

/// The statistics label of one event, counted as itself (clicks are
/// labelled separately by the renderer).
pub open spec fn spec_stat_label(ev: Event) -> Seq<char> {
    match ev {
        Event::Wait(_) => "wait"@,
        Event::MouseMove(_) => "mouse_move"@,
        Event::MousePress(m) => "mouse_press."@ + spec_button_name(m.button),
        Event::MouseRelease(m) => "mouse_release."@ + spec_button_name(m.button),
        Event::KeyPress(k) => "key_press."@ + spec_key_name(k),
        Event::KeyRelease(k) => "key_release."@ + spec_key_name(k),
    }
}

pub fn stat_label(ev: &Event) -> (s: String)
    ensures
        s@ == spec_stat_label(*ev),
{
    match ev {
        Event::Wait(_) => String::from_str("wait"),
        Event::MouseMove(_) => String::from_str("mouse_move"),
        Event::MousePress(m) => {
            let mut s = String::from_str("mouse_press.");
            let b = button_name(&m.button);
            s.append(b.as_str());
            s
        },
        Event::MouseRelease(m) => {
            let mut s = String::from_str("mouse_release.");
            let b = button_name(&m.button);
            s.append(b.as_str());
            s
        },
        Event::KeyPress(k) => {
            let mut s = String::from_str("key_press.");
            let kn = key_name(k);
            s.append(kn.as_str());
            s
        },
        Event::KeyRelease(k) => {
            let mut s = String::from_str("key_release.");
            let kn = key_name(k);
            s.append(kn.as_str());
            s
        },
    }
}

/// The statistics label of a collapsed click on the given button.
pub open spec fn spec_click_label(b: Button) -> Seq<char> {
    "click."@ + spec_button_name(b)
}

pub fn click_label(b: &Button) -> (s: String)
    ensures
        s@ == spec_click_label(*b),
{
    let mut s = String::from_str("click.");
    let bn = button_name(b);
    s.append(bn.as_str());
    s
}

pub open spec fn views_of(lines: Seq<String>) -> Seq<Seq<char>> {
    lines.map_values(|s: String| s@)
}

/// An index right-padded into a four-column field, as the itemized
/// listing prints it.
pub open spec fn spec_pad4(ds: Seq<char>) -> Seq<char> {
    if ds.len() >= 4 {
        ds
    } else if ds.len() == 3 {
        seq![' '] + ds
    } else if ds.len() == 2 {
        seq![' ', ' '] + ds
    } else {
        seq![' ', ' ', ' '] + ds
    }
}

pub open spec fn spec_item_line(shown: nat, msg: Seq<char>) -> Seq<char> {
    spec_pad4(dec_rep(shown)) + ": "@ + msg
}

/// The message of a collapsed click line; the consumed wait time is
/// annotated only when waits are shown at all.
pub open spec fn spec_click_msg(all: bool, x: int, y: int, total: u64) -> Seq<char> {
    "click on ("@ + dec_rep_signed(x) + ", "@ + dec_rep_signed(y) + ")"@ + (if all && total > 0 {
        " (+wait "@ + dec_rep(total as nat) + " ms)"@
    } else {
        Seq::<char>::empty()
    })
}

/// Where the cursor continues after a collapse: right past the release.
pub open spec fn spec_next_after(events: Seq<Event>, i: nat, t: (int, nat, nat)) -> nat {
    if i as int + 1 <= t.0 + 1 <= events.len() as int {
        (t.0 + 1) as nat
    } else {
        i + 1
    }
}

/// The itemized listing from the cursor at `i`, with `shown` lines
/// already printed: waits are skipped unless `all`, and a press whose
/// collapse succeeds is shown as one click line.
pub open spec fn spec_item_lines(events: Seq<Event>, all: bool, i: nat, shown: nat) -> Seq<
    Seq<char>,
>
    decreases events.len() - i,
{
    if i >= events.len() {
        Seq::empty()
    } else if !all && events[i as int] is Wait {
        spec_item_lines(events, all, i + 1, shown)
    } else {
        match spec_collapse_at(events, i) {
            Option::Some(t) => {
                let p = events[i as int]->MousePress_0;
                seq![
                    spec_item_line(
                        shown + 1,
                        spec_click_msg(all, p.x as int, p.y as int, cap_u64(t.2)),
                    ),
                ] + spec_item_lines(events, all, spec_next_after(events, i, t), shown + 1)
            },
            Option::None => seq![spec_item_line(shown + 1, spec_describe(events[i as int]))]
                + spec_item_lines(events, all, i + 1, shown + 1),
        }
    }
}

/// One label's count goes up by `by`; absent labels start at zero.
pub open spec fn spec_bump(m: Map<Seq<char>, nat>, l: Seq<char>, by: nat) -> Map<Seq<char>, nat> {
    m.insert(
        l,
        (if m.dom().contains(l) {
            m[l]
        } else {
            0nat
        }) + by,
    )
}

/// The statistics of the listing from the cursor at `i`: collapsed
/// clicks count as `click.<button>` plus, when waits are shown, a
/// `wait` count for the waits they consumed; every other listed event
/// counts under its own label.
pub open spec fn spec_stat_counts(
    events: Seq<Event>,
    all: bool,
    i: nat,
    m: Map<Seq<char>, nat>,
) -> Map<Seq<char>, nat>
    decreases events.len() - i,
{
    if i >= events.len() {
        m
    } else if !all && events[i as int] is Wait {
        spec_stat_counts(events, all, i + 1, m)
    } else {
        match spec_collapse_at(events, i) {
            Option::Some(t) => {
                let p = events[i as int]->MousePress_0;
                let m1 = if all && t.1 > 0 {
                    spec_bump(m, "wait"@, t.1)
                } else {
                    m
                };
                let m2 = spec_bump(m1, spec_click_label(p.button), 1);
                spec_stat_counts(events, all, spec_next_after(events, i, t), m2)
            },
            Option::None => spec_stat_counts(
                events,
                all,
                i + 1,
                spec_bump(m, spec_stat_label(events[i as int]), 1),
            ),
        }
    }
}

pub open spec fn spec_pairs_sorted(ps: Seq<(Seq<char>, nat)>) -> bool {
    forall|i: int, j: int|
        0 <= i < j < ps.len() ==> lex_lt((#[trigger] ps[i]).0, (#[trigger] ps[j]).0)
}

/// The pair list carries exactly the entries of the map.
pub open spec fn spec_pairs_match(ps: Seq<(Seq<char>, nat)>, m: Map<Seq<char>, nat>) -> bool {
    &&& forall|i: int| 0 <= i < ps.len() ==> m.contains_pair((#[trigger] ps[i]).0, ps[i].1)
    &&& forall|l: Seq<char>|
        m.dom().contains(l) ==> exists|i: int| 0 <= i < ps.len() && (#[trigger] ps[i]).0 == l
}

pub open spec fn pair_views(ps: Seq<(String, usize)>) -> Seq<(Seq<char>, nat)> {
    ps.map_values(|p: (String, usize)| (p.0@, p.1 as nat))
}

pub open spec fn spec_counts_bounded(m: Map<Seq<char>, nat>, bound: nat) -> bool {
    forall|l: Seq<char>| m.dom().contains(l) ==> #[trigger] m[l] <= bound
}

fn item_line(shown: usize, msg: &str) -> (s: String)
    ensures
        s@ == spec_item_line(shown as nat, msg@),
{
    let ds = usize_to_string(shown);
    let l = ds.unicode_len();
    let mut s = String::new();
    if l == 3 {
        s.append(" ");
    } else if l == 2 {
        s.append("  ");
    } else if l <= 1 {
        s.append("   ");
    }
    s.append(ds.as_str());
    s.append(": ");
    s.append(msg);
    proof {
        reveal_strlit(" ");
        reveal_strlit("  ");
        reveal_strlit("   ");
        assert(s@ =~= spec_item_line(shown as nat, msg@));
    }
    s
}

fn click_msg(all: bool, c: &ClickCollapse) -> (s: String)
    ensures
        s@ == spec_click_msg(all, c.x as int, c.y as int, c.wait_ms_total),
{
    let mut s = String::from_str("click on (");
    let xs = i64_to_string(c.x);
    s.append(xs.as_str());
    s.append(", ");
    let ys = i64_to_string(c.y);
    s.append(ys.as_str());
    s.append(")");
    if all && c.wait_ms_total > 0 {
        s.append(" (+wait ");
        let ts = u64_to_string(c.wait_ms_total);
        s.append(ts.as_str());
        s.append(" ms)");
    }
    proof {
        assert(s@ =~= spec_click_msg(all, c.x as int, c.y as int, c.wait_ms_total));
    }
    s
}

/// Position of `label` in a sorted pair list, or where it belongs.
fn find_label_pos(stats: &Vec<(String, usize)>, label: &str) -> (r: (usize, bool))
    requires
        spec_pairs_sorted(pair_views(stats@)),
    ensures
        r.0 <= stats@.len(),
        forall|j: int| 0 <= j < r.0 ==> lex_lt((#[trigger] pair_views(stats@)[j]).0, label@),
        r.1 ==> r.0 < stats@.len() && pair_views(stats@)[r.0 as int].0 == label@,
        !r.1 && r.0 < stats@.len() ==> lex_lt(label@, pair_views(stats@)[r.0 as int].0),
    decreases stats@.len(),
{
    let n = stats.len();
    let mut i: usize = 0;
    while i < n
        invariant
            i <= n,
            n == stats@.len(),
            forall|j: int| 0 <= j < i ==> lex_lt((#[trigger] pair_views(stats@)[j]).0, label@),
        decreases n - i,
    {
        let lt = str_lex_lt(stats[i].0.as_str(), label);
        if lt {
            proof {
                assert(pair_views(stats@)[i as int].0 == stats@[i as int].0@);
            }
            i += 1;
        } else {
            let eq = str_eq(stats[i].0.as_str(), label);
            proof {
                assert(pair_views(stats@)[i as int].0 == stats@[i as int].0@);
                if !eq {
                    lemma_lex_lt_trichotomy(label@, stats@[i as int].0@);
                }
            }
            return (i, eq);
        }
    }
    (i, false)
}

/// Adds `by` to one label's count, keeping the pair list sorted by
/// label and in step with the abstract count map.
fn bump_stat(
    stats: &mut Vec<(String, usize)>,
    label: String,
    by: usize,
    Ghost(m): Ghost<Map<Seq<char>, nat>>,
    Ghost(bound): Ghost<nat>,
)
    requires
        spec_pairs_sorted(pair_views(old(stats)@)),
        spec_pairs_match(pair_views(old(stats)@), m),
        spec_counts_bounded(m, bound),
        bound + by <= usize::MAX,
    ensures
        spec_pairs_sorted(pair_views(final(stats)@)),
        spec_pairs_match(pair_views(final(stats)@), spec_bump(m, label@, by as nat)),
{
    let ghost old_ps = pair_views(stats@);
    let ghost m2 = spec_bump(m, label@, by as nat);
    let (pos, found) = find_label_pos(stats, label.as_str());
    if found {
        let pair = stats.remove(pos);
        proof {
            assert(old_ps[pos as int].0 == label@);
            assert(m.contains_pair(label@, pair.1 as nat));
        }
        let new_count = pair.1 + by;
        stats.insert(pos, (pair.0, new_count));
        proof {
            let new_ps = pair_views(stats@);
            assert(stats@ =~= old(stats)@.update(pos as int, (pair.0, new_count)));
            assert(new_ps =~= old_ps.update(pos as int, (label@, (pair.1 + by) as nat)));
            assert forall|i: int, j: int| 0 <= i < j < new_ps.len() implies lex_lt(
                (#[trigger] new_ps[i]).0,
                (#[trigger] new_ps[j]).0,
            ) by {
                assert(new_ps[i].0 == old_ps[i].0);
                assert(new_ps[j].0 == old_ps[j].0);
            }
            assert forall|i: int| 0 <= i < new_ps.len() implies m2.contains_pair(
                (#[trigger] new_ps[i]).0,
                new_ps[i].1,
            ) by {
                if i != pos {
                    assert(new_ps[i] == old_ps[i]);
                    if i < pos {
                        lemma_lex_lt_asymmetric(old_ps[i].0, old_ps[pos as int].0);
                    } else {
                        lemma_lex_lt_asymmetric(old_ps[pos as int].0, old_ps[i].0);
                    }
                    assert(old_ps[i].0 != label@);
                }
            }
            assert forall|l: Seq<char>| m2.dom().contains(l) implies exists|i: int|
                0 <= i < new_ps.len() && (#[trigger] new_ps[i]).0 == l by {
                if l == label@ {
                    assert(new_ps[pos as int].0 == l);
                } else {
                    assert(m.dom().contains(l));
                    let i = choose|i: int| 0 <= i < old_ps.len() && (#[trigger] old_ps[i]).0 == l;
                    assert(new_ps[i].0 == l);
                }
            }
        }
    } else {
        proof {
            if m.dom().contains(label@) {
                let i = choose|i: int| 0 <= i < old_ps.len() && (#[trigger] old_ps[i]).0 == label@;
                if i < pos {
                    lemma_lex_lt_asymmetric(old_ps[i].0, label@);
                } else if i > pos {
                    assert(lex_lt(label@, old_ps[pos as int].0));
                    lemma_lex_lt_transitive(label@, old_ps[pos as int].0, old_ps[i].0);
                    lemma_lex_lt_asymmetric(label@, old_ps[i].0);
                } else {
                    lemma_lex_lt_asymmetric(label@, old_ps[pos as int].0);
                }
            }
        }
        stats.insert(pos, (label, by));
        proof {
            let new_ps = pair_views(stats@);
            assert(new_ps =~= old_ps.insert(pos as int, (label@, by as nat)));
            assert forall|i: int, j: int| 0 <= i < j < new_ps.len() implies lex_lt(
                (#[trigger] new_ps[i]).0,
                (#[trigger] new_ps[j]).0,
            ) by {
                let oi = if i < pos {
                    i
                } else {
                    i - 1
                };
                let oj = if j < pos {
                    j
                } else {
                    j - 1
                };
                if i == pos {
                    assert(new_ps[i].0 == label@);
                    assert(new_ps[j].0 == old_ps[oj].0);
                    if oj > pos {
                        lemma_lex_lt_transitive(label@, old_ps[pos as int].0, old_ps[oj].0);
                    }
                } else if j == pos {
                    assert(new_ps[i].0 == old_ps[oi].0);
                } else {
                    assert(new_ps[i].0 == old_ps[oi].0);
                    assert(new_ps[j].0 == old_ps[oj].0);
                    if i < pos && j > pos {
                        if oj == pos {
                            assert(lex_lt(old_ps[oi].0, label@));
                            assert(lex_lt(label@, old_ps[pos as int].0));
                            lemma_lex_lt_transitive(old_ps[oi].0, label@, old_ps[pos as int].0);
                        }
                    }
                }
            }
            assert forall|i: int| 0 <= i < new_ps.len() implies m2.contains_pair(
                (#[trigger] new_ps[i]).0,
                new_ps[i].1,
            ) by {
                if i == pos {
                    assert(new_ps[i] == (label@, by as nat));
                } else {
                    let oi = if i < pos {
                        i
                    } else {
                        i - 1
                    };
                    assert(new_ps[i] == old_ps[oi]);
                    if oi < pos {
                        lemma_lex_lt_asymmetric(old_ps[oi].0, label@);
                    } else {
                        assert(lex_lt(label@, old_ps[pos as int].0));
                        if oi > pos {
                            lemma_lex_lt_transitive(label@, old_ps[pos as int].0, old_ps[oi].0);
                        }
                        lemma_lex_lt_asymmetric(label@, old_ps[oi].0);
                    }
                }
            }
            assert forall|l: Seq<char>| m2.dom().contains(l) implies exists|i: int|
                0 <= i < new_ps.len() && (#[trigger] new_ps[i]).0 == l by {
                if l == label@ {
                    assert(new_ps[pos as int].0 == l);
                } else {
                    assert(m.dom().contains(l));
                    let i = choose|i: int| 0 <= i < old_ps.len() && (#[trigger] old_ps[i]).0 == l;
                    if i < pos {
                        assert(new_ps[i].0 == l);
                    } else {
                        assert(new_ps[i + 1].0 == l);
                    }
                }
            }
        }
    }
}

/// The per-label statistics of the rendered listing, sorted
/// lexicographically by label.
pub fn stat_counts(events: &Vec<Event>, all: bool) -> (pairs: Vec<(String, usize)>)
    ensures
        spec_pairs_sorted(pair_views(pairs@)),
        spec_pairs_match(
            pair_views(pairs@),
            spec_stat_counts(events@, all, 0, Map::<Seq<char>, nat>::empty()),
        ),
{
    let n = events.len();
    let ghost target = spec_stat_counts(events@, all, 0, Map::<Seq<char>, nat>::empty());
    let mut stats: Vec<(String, usize)> = Vec::new();
    let ghost mut m: Map<Seq<char>, nat> = Map::empty();
    let mut idx: usize = 0;
    while idx < n
        invariant
            idx <= n,
            n == events@.len(),
            target == spec_stat_counts(events@, all, 0, Map::<Seq<char>, nat>::empty()),
            target == spec_stat_counts(events@, all, idx as nat, m),
            spec_pairs_sorted(pair_views(stats@)),
            spec_pairs_match(pair_views(stats@), m),
            spec_counts_bounded(m, idx as nat),
        decreases n - idx,
    {
        let is_wait = match &events[idx] {
            Event::Wait(_) => true,
            _ => false,
        };
        if !all && is_wait {
            idx += 1;
            continue;
        }
        let c = try_collapse_click(events, idx);
        match c {
            Option::Some(cc) => {
                proof {
                    let p = events@[idx as int]->MousePress_0;
                    lemma_scan_release_bounds(events@, p, (idx + 1) as nat);
                }
                let ghost t = spec_collapse_at(events@, idx as nat)->Some_0;
                let ghost m1 = if all && t.1 > 0 {
                    spec_bump(m, "wait"@, t.1)
                } else {
                    m
                };
                if all && cc.waits_consumed > 0 {
                    let w = String::from_str("wait");
                    bump_stat(&mut stats, w, cc.waits_consumed, Ghost(m), Ghost(idx as nat));
                }
                proof {
                    m = m1;
                    assert(spec_counts_bounded(m, (idx + cc.waits_consumed) as nat));
                }
                let cl = click_label(&cc.button);
                bump_stat(&mut stats, cl, 1, Ghost(m), Ghost((idx + cc.waits_consumed) as nat));
                proof {
                    let p = events@[idx as int]->MousePress_0;
                    assert(cc.button == p.button);
                    m = spec_bump(m, spec_click_label(p.button), 1);
                }
                idx = cc.release_idx + 1;
            },
            Option::None => {
                let l = stat_label(&events[idx]);
                bump_stat(&mut stats, l, 1, Ghost(m), Ghost(idx as nat));
                proof {
                    m = spec_bump(m, spec_stat_label(events@[idx as int]), 1);
                }
                idx += 1;
            },
        }
    }
    stats
}

/// One printed statistics line per label.
pub open spec fn spec_stat_lines(ps: Seq<(Seq<char>, nat)>) -> Seq<Seq<char>> {
    ps.map_values(|p: (Seq<char>, nat)| p.0 + ": "@ + dec_rep(p.1))
}

/// The lines that the listing prints: the itemized event lines, or in
/// statistics mode one `label: count` line per label, sorted by label.
pub fn render_macro(events: &Vec<Event>, all: bool, stat: bool) -> (lines: Vec<String>)
    ensures
        !stat ==> views_of(lines@) == spec_item_lines(events@, all, 0, 0),
        stat ==> exists|ps: Seq<(Seq<char>, nat)>|
            {
                &&& spec_pairs_sorted(ps)
                &&& spec_pairs_match(
                    ps,
                    spec_stat_counts(events@, all, 0, Map::<Seq<char>, nat>::empty()),
                )
                &&& views_of(lines@) == spec_stat_lines(ps)
            },
{
    if stat {
        let pairs = stat_counts(events, all);
        let ghost ps = pair_views(pairs@);
        let mut lines: Vec<String> = Vec::new();
        let mut i: usize = 0;
        let n = pairs.len();
        while i < n
            invariant
                i <= n,
                n == pairs@.len(),
                ps == pair_views(pairs@),
                views_of(lines@) =~= spec_stat_lines(ps).take(i as int),
            decreases n - i,
        {
            let ghost lv0 = views_of(lines@);
            let mut s = pairs[i].0.clone();
            s.append(": ");
            let cs = usize_to_string(pairs[i].1);
            s.append(cs.as_str());
            proof {
                assert(ps[i as int] == (pairs@[i as int].0@, pairs@[i as int].1 as nat));
                assert(s@ =~= ps[i as int].0 + ": "@ + dec_rep(ps[i as int].1));
                assert(spec_stat_lines(ps)[i as int] == ps[i as int].0 + ": "@ + dec_rep(
                    ps[i as int].1,
                ));
            }
            lines.push(s);
            proof {
                assert(views_of(lines@) =~= lv0.push(s@));
                assert(spec_stat_lines(ps).take(i + 1) =~= spec_stat_lines(ps).take(i as int).push(
                    spec_stat_lines(ps)[i as int],
                ));
                assert(views_of(lines@) =~= spec_stat_lines(ps).take(i + 1));
            }
            i += 1;
        }
        proof {
            assert(spec_stat_lines(ps).take(n as int) =~= spec_stat_lines(ps));
        }
        lines
    } else {
        let n = events.len();
        let mut lines: Vec<String> = Vec::new();
        let mut idx: usize = 0;
        let mut shown: usize = 0;
        while idx < n
            invariant
                idx <= n,
                shown <= idx,
                n == events@.len(),
                spec_item_lines(events@, all, 0, 0) =~= views_of(lines@) + spec_item_lines(
                    events@,
                    all,
                    idx as nat,
                    shown as nat,
                ),
            decreases n - idx,
        {
            let ghost idx0 = idx as nat;
            let ghost shown0 = shown as nat;
            let ghost lv0 = views_of(lines@);
            let ghost rest0 = spec_item_lines(events@, all, idx0, shown0);
            let is_wait = match &events[idx] {
                Event::Wait(_) => true,
                _ => false,
            };
            if !all && is_wait {
                idx += 1;
                continue;
            }
            let c = try_collapse_click(events, idx);
            match c {
                Option::Some(cc) => {
                    let ghost t = spec_collapse_at(events@, idx as nat)->Some_0;
                    let ghost p = events@[idx as int]->MousePress_0;
                    proof {
                        lemma_scan_release_bounds(events@, p, (idx + 1) as nat);
                    }
                    shown += 1;
                    let msg = click_msg(all, &cc);
                    let line = item_line(shown, msg.as_str());
                    lines.push(line);
                    idx = cc.release_idx + 1;
                    proof {
                        let lspec = spec_item_line(
                            shown0 + 1,
                            spec_click_msg(all, p.x as int, p.y as int, cap_u64(t.2)),
                        );
                        assert(line@ == lspec);
                        assert(spec_next_after(events@, idx0, t) == idx as nat);
                        assert(rest0 == seq![lspec] + spec_item_lines(
                            events@,
                            all,
                            idx as nat,
                            shown as nat,
                        ));
                        assert(views_of(lines@) =~= lv0.push(line@));
                        assert(lv0 + rest0 =~= lv0.push(line@) + spec_item_lines(
                            events@,
                            all,
                            idx as nat,
                            shown as nat,
                        ));
                    }
                },
                Option::None => {
                    shown += 1;
                    let msg = describe_event(&events[idx]);
                    let line = item_line(shown, msg.as_str());
                    lines.push(line);
                    idx += 1;
                    proof {
                        let lspec = spec_item_line(shown0 + 1, spec_describe(events@[idx0 as int]));
                        assert(line@ == lspec);
                        assert(rest0 == seq![lspec] + spec_item_lines(
                            events@,
                            all,
                            idx as nat,
                            shown as nat,
                        ));
                        assert(views_of(lines@) =~= lv0.push(line@));
                        assert(lv0 + rest0 =~= lv0.push(line@) + spec_item_lines(
                            events@,
                            all,
                            idx as nat,
                            shown as nat,
                        ));
                    }
                },
            }
        }
        lines
    }
}

} // verus!
