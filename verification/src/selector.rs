//! The action-selector mini-language: parsing a textual address
//! `kind[.detail]:ordinal` and resolving it to the index of one event
//! inside a macro.

use crate::event::Event;
use crate::keys::{button_eq, key_eq, spec_button_name, spec_key_name, Button, Key};
use crate::text::{
    dec_rep, digits_val, eq_ci, filter_digits, find_char, has_char, is_digit, lemma_dec_rep_wf,
    lemma_filter_digits_id, lemma_find_char_at, parse_ordinal_digits, str_eq,
};
use vstd::prelude::*;
use vstd::string::*;

verus! {

/// The six addressable event kinds.
#[derive(Clone, Copy, PartialEq, Eq, Structural, Debug)]
pub enum SelKind {
    MousePress,
    MouseRelease,
    MouseMove,
    Wait,
    KeyPress,
    KeyRelease,
}

/// A parsed kind with its optional detail (button or key name).
/// Kinds that name no button or key carry no detail.
#[derive(Clone, Debug)]
pub enum EventSelector {
    MousePress(Option<String>),
    MouseRelease(Option<String>),
    MouseMove,
    Wait,
    KeyPress(Option<String>),
    KeyRelease(Option<String>),
}

/// A parsed address: which kind of event, with which detail, and the
/// 1-based ordinal among the matching events.
#[derive(Clone, Debug)]
pub struct ActionSelector {
    pub selector: EventSelector,
    pub ordinal: usize,
}

/// Why an address failed to parse.
#[derive(Clone, Copy, PartialEq, Eq, Structural, Debug)]
pub enum SelectorParseError {
    /// No `:` in the address, so there is no ordinal segment.
    MissingOrdinal,
    /// More than one `:`.
    TooManyColonSegments,
    /// The ordinal segment holds no digit, or a number too large to hold.
    OrdinalNotANumber,
    /// More than one `.` before the `:`.
    TooManyDotSegments,
    /// The kind token is none of the six event kinds.
    UnknownKind,
    /// Ordinals are counted from 1.
    ZeroOrdinal,
}

pub open spec fn sel_kind(sel: EventSelector) -> SelKind {
    match sel {
        EventSelector::MousePress(_) => SelKind::MousePress,
        EventSelector::MouseRelease(_) => SelKind::MouseRelease,
        EventSelector::MouseMove => SelKind::MouseMove,
        EventSelector::Wait => SelKind::Wait,
        EventSelector::KeyPress(_) => SelKind::KeyPress,
        EventSelector::KeyRelease(_) => SelKind::KeyRelease,
    }
}

pub open spec fn spec_view_opt(d: Option<String>) -> Option<Seq<char>> {
    match d {
        Option::Some(s) => Option::Some(s@),
        Option::None => Option::None,
    }
}

pub open spec fn sel_detail(sel: EventSelector) -> Option<Seq<char>> {
    match sel {
        EventSelector::MousePress(d) => spec_view_opt(d),
        EventSelector::MouseRelease(d) => spec_view_opt(d),
        EventSelector::MouseMove => Option::None,
        EventSelector::Wait => Option::None,
        EventSelector::KeyPress(d) => spec_view_opt(d),
        EventSelector::KeyRelease(d) => spec_view_opt(d),
    }
}

/// Whether this kind matches events that carry a button or key name,
/// so that a detail segment applies to it.
pub open spec fn kind_takes_detail(k: SelKind) -> bool {
    match k {
        SelKind::MousePress => true,
        SelKind::MouseRelease => true,
        SelKind::MouseMove => false,
        SelKind::Wait => false,
        SelKind::KeyPress => true,
        SelKind::KeyRelease => true,
    }
}

pub open spec fn kind_token(k: SelKind) -> Seq<char> {
    match k {
        SelKind::MousePress => "mouse_press"@,
        SelKind::MouseRelease => "mouse_release"@,
        SelKind::MouseMove => "mouse_move"@,
        SelKind::Wait => "wait"@,
        SelKind::KeyPress => "key_press"@,
        SelKind::KeyRelease => "key_release"@,
    }
}

pub open spec fn spec_kind_of_token(t: Seq<char>) -> Option<SelKind> {
    if t == "mouse_press"@ {
        Option::Some(SelKind::MousePress)
    } else if t == "mouse_release"@ {
        Option::Some(SelKind::MouseRelease)
    } else if t == "mouse_move"@ {
        Option::Some(SelKind::MouseMove)
    } else if t == "wait"@ {
        Option::Some(SelKind::Wait)
    } else if t == "key_press"@ {
        Option::Some(SelKind::KeyPress)
    } else if t == "key_release"@ {
        Option::Some(SelKind::KeyRelease)
    } else {
        Option::None
    }
}

/// What an address means: the parse of `kind[.detail]:ordinal`, with
/// the errors in the order the parser reports them. The ordinal is the
/// number read from the ASCII digits after `:`, other characters there
/// ignored; a detail is kept only for kinds that name a button or key.
pub open spec fn spec_parse_action(s: Seq<char>) -> Result<
    (SelKind, Option<Seq<char>>, nat),
    SelectorParseError,
> {
    let ci = find_char(s, ':');
    if ci == s.len() {
        Result::Err(SelectorParseError::MissingOrdinal)
    } else {
        let head = s.subrange(0, ci);
        let tail = s.subrange(ci + 1, s.len() as int);
        if has_char(tail, ':') {
            Result::Err(SelectorParseError::TooManyColonSegments)
        } else {
            let ds = filter_digits(tail);
            if ds.len() == 0 || digits_val(ds) > usize::MAX {
                Result::Err(SelectorParseError::OrdinalNotANumber)
            } else {
                let di = find_char(head, '.');
                let kt = head.subrange(0, di);
                if di < head.len() && has_char(head.subrange(di + 1, head.len() as int), '.') {
                    Result::Err(SelectorParseError::TooManyDotSegments)
                } else {
                    match spec_kind_of_token(kt) {
                        Option::None => Result::Err(SelectorParseError::UnknownKind),
                        Option::Some(k) => {
                            if digits_val(ds) == 0 {
                                Result::Err(SelectorParseError::ZeroOrdinal)
                            } else {
                                let detail = if di == head.len() || !kind_takes_detail(k) {
                                    Option::None
                                } else {
                                    Option::Some(head.subrange(di + 1, head.len() as int))
                                };
                                Result::Ok((k, detail, digits_val(ds)))
                            }
                        },
                    }
                }
            }
        }
    }
}

/// First index of `c` in `s`, or the length of `s` when absent.
fn find_first(s: &str, c: char) -> (i: usize)
    ensures
        i <= s@.len(),
        i as int == find_char(s@, c),
{
    let n = s.unicode_len();
    let mut i: usize = 0;
    while i < n
        invariant
            i <= n,
            n == s@.len(),
            forall|j: int| 0 <= j < i ==> s@[j] != c,
        decreases n - i,
    {
        if s.get_char(i) == c {
            proof {
                lemma_find_char_at(s@, c, i as int);
            }
            return i;
        }
        i += 1;
    }
    proof {
        lemma_find_char_at(s@, c, n as int);
    }
    i
}

fn contains_char(s: &str, c: char) -> (r: bool)
    ensures
        r == has_char(s@, c),
{
    let n = s.unicode_len();
    let mut i: usize = 0;
    while i < n
        invariant
            i <= n,
            n == s@.len(),
            forall|j: int| 0 <= j < i ==> s@[j] != c,
        decreases n - i,
    {
        if s.get_char(i) == c {
            return true;
        }
        i += 1;
    }
    false
}

pub(crate) fn kind_of_token(t: &str) -> (r: Option<SelKind>)
    ensures
        r == spec_kind_of_token(t@),
{
    if str_eq(t, "mouse_press") {
        Option::Some(SelKind::MousePress)
    } else if str_eq(t, "mouse_release") {
        Option::Some(SelKind::MouseRelease)
    } else if str_eq(t, "mouse_move") {
        Option::Some(SelKind::MouseMove)
    } else if str_eq(t, "wait") {
        Option::Some(SelKind::Wait)
    } else if str_eq(t, "key_press") {
        Option::Some(SelKind::KeyPress)
    } else if str_eq(t, "key_release") {
        Option::Some(SelKind::KeyRelease)
    } else {
        Option::None
    }
}

/// Parses a textual address `kind[.detail]:ordinal`. The ordinal is read
/// from the ASCII digits after `:`, tolerating non-digit characters
/// around them; every malformed shape is rejected with a named reason.
pub fn parse_action(raw: &str) -> (r: Result<ActionSelector, SelectorParseError>)
    ensures
        match r {
            Result::Ok(a) => a.ordinal >= 1 && spec_parse_action(raw@) == Result::<
                (SelKind, Option<Seq<char>>, nat),
                SelectorParseError,
            >::Ok((sel_kind(a.selector), sel_detail(a.selector), a.ordinal as nat)),
            Result::Err(e) => spec_parse_action(raw@) == Result::<
                (SelKind, Option<Seq<char>>, nat),
                SelectorParseError,
            >::Err(e),
        },
{
    let n = raw.unicode_len();
    let ci = find_first(raw, ':');
    if ci == n {
        return Result::Err(SelectorParseError::MissingOrdinal);
    }
    let tail_str = raw.substring_char(ci + 1, n);
    if contains_char(tail_str, ':') {
        return Result::Err(SelectorParseError::TooManyColonSegments);
    }
    let ordinal_opt = parse_ordinal_digits(raw, ci + 1, n);
    let v = match ordinal_opt {
        Option::None => {
            return Result::Err(SelectorParseError::OrdinalNotANumber);
        },
        Option::Some(v) => v,
    };
    let head_str = raw.substring_char(0, ci);
    let di = find_first(head_str, '.');
    let kt_str = if di == ci {
        proof {
            assert(head_str@.subrange(0, di as int) =~= head_str@);
        }
        head_str
    } else {
        head_str.substring_char(0, di)
    };
    if di < ci {
        let after_str = head_str.substring_char(di + 1, ci);
        if contains_char(after_str, '.') {
            return Result::Err(SelectorParseError::TooManyDotSegments);
        }
    }
    let kind = match kind_of_token(kt_str) {
        Option::None => {
            return Result::Err(SelectorParseError::UnknownKind);
        },
        Option::Some(k) => k,
    };
    if v == 0 {
        return Result::Err(SelectorParseError::ZeroOrdinal);
    }
    let detail: Option<String> = if di == ci {
        Option::None
    } else {
        Option::Some(String::from_str(head_str.substring_char(di + 1, ci)))
    };
    let selector = match kind {
        SelKind::MousePress => EventSelector::MousePress(detail),
        SelKind::MouseRelease => EventSelector::MouseRelease(detail),
        SelKind::MouseMove => EventSelector::MouseMove,
        SelKind::Wait => EventSelector::Wait,
        SelKind::KeyPress => EventSelector::KeyPress(detail),
        SelKind::KeyRelease => EventSelector::KeyRelease(detail),
    };
    Result::Ok(ActionSelector { selector, ordinal: v })
}

/// Whether one event matches a kind with an optional detail: the kind of
/// the event must agree, and a detail, where given, must equal the
/// button's or key's canonical name up to ASCII case.
pub open spec fn spec_matches(ev: Event, k: SelKind, d: Option<Seq<char>>) -> bool {
    match k {
        SelKind::Wait => ev is Wait,
        SelKind::MouseMove => ev is MouseMove,
        SelKind::MousePress => match ev {
            Event::MousePress(m) => spec_detail_matches_button(d, m.button),
            _ => false,
        },
        SelKind::MouseRelease => match ev {
            Event::MouseRelease(m) => spec_detail_matches_button(d, m.button),
            _ => false,
        },
        SelKind::KeyPress => match ev {
            Event::KeyPress(key) => spec_detail_matches_key(d, key),
            _ => false,
        },
        SelKind::KeyRelease => match ev {
            Event::KeyRelease(key) => spec_detail_matches_key(d, key),
            _ => false,
        },
    }
}

pub open spec fn spec_detail_matches_button(d: Option<Seq<char>>, b: Button) -> bool {
    match d {
        Option::Some(s) => eq_ci(s, spec_button_name(b)),
        Option::None => true,
    }
}

pub open spec fn spec_detail_matches_key(d: Option<Seq<char>>, key: Key) -> bool {
    match d {
        Option::Some(s) => eq_ci(s, spec_key_name(key)),
        Option::None => true,
    }
}

pub fn matches_selector(ev: &Event, selector: &EventSelector) -> (r: bool)
    ensures
        r == spec_matches(*ev, sel_kind(*selector), sel_detail(*selector)),
{
    match (selector, ev) {
        (EventSelector::Wait, Event::Wait(_)) => true,
        (EventSelector::MouseMove, Event::MouseMove(_)) => true,
        (EventSelector::MousePress(button), Event::MousePress(m)) => match button {
            Option::Some(b) => button_eq(b.as_str(), &m.button),
            Option::None => true,
        },
        (EventSelector::MouseRelease(button), Event::MouseRelease(m)) => match button {
            Option::Some(b) => button_eq(b.as_str(), &m.button),
            Option::None => true,
        },
        (EventSelector::KeyPress(key_name), Event::KeyPress(k)) => match key_name {
            Option::Some(kname) => key_eq(kname.as_str(), k),
            Option::None => true,
        },
        (EventSelector::KeyRelease(key_name), Event::KeyRelease(k)) => match key_name {
            Option::Some(kname) => key_eq(kname.as_str(), k),
            Option::None => true,
        },
        _ => false,
    }
}

/// The index of the `ord`-th matching event at or after position `i`,
/// scanning left to right; `None` when the list runs out first.
pub open spec fn spec_resolve_from(
    events: Seq<Event>,
    k: SelKind,
    d: Option<Seq<char>>,
    ord: nat,
    i: nat,
) -> Option<int>
    decreases events.len() - i,
{
    if i >= events.len() {
        Option::None
    } else if spec_matches(events[i as int], k, d) && ord == 1 {
        Option::Some(i as int)
    } else {
        let ord2 = if spec_matches(events[i as int], k, d) {
            if ord == 0 {
                0
            } else {
                (ord - 1) as nat
            }
        } else {
            ord
        };
        spec_resolve_from(events, k, d, ord2, i + 1)
    }
}

/// Where a selector resolves in a macro: the index of the event at which
/// the running count of matches first reaches the ordinal.
pub open spec fn spec_resolve(events: Seq<Event>, k: SelKind, d: Option<Seq<char>>, ord: nat) -> Option<
    int,
> {
    spec_resolve_from(events, k, d, ord, 0)
}

proof fn lemma_resolve_zero(events: Seq<Event>, k: SelKind, d: Option<Seq<char>>, i: nat)
    requires
        i <= events.len(),
    ensures
        spec_resolve_from(events, k, d, 0, i) == Option::<int>::None,
    decreases events.len() - i,
{
    if i < events.len() {
        lemma_resolve_zero(events, k, d, i + 1);
    }
}

/// Scans the events in order and returns the index of the event where
/// the count of kind-and-detail matches first equals the ordinal;
/// `None` when the list is exhausted before that.
pub fn find_event_index(events: &Vec<Event>, selector: &ActionSelector) -> (r: Option<usize>)
    ensures
        match r {
            Option::Some(idx) => spec_resolve(
                events@,
                sel_kind(selector.selector),
                sel_detail(selector.selector),
                selector.ordinal as nat,
            ) == Option::Some(idx as int),
            Option::None => spec_resolve(
                events@,
                sel_kind(selector.selector),
                sel_detail(selector.selector),
                selector.ordinal as nat,
            ) == Option::<int>::None,
        },
{
    let ghost k = sel_kind(selector.selector);
    let ghost d = sel_detail(selector.selector);
    let ord = selector.ordinal;
    if ord == 0 {
        proof {
            lemma_resolve_zero(events@, k, d, 0);
        }
        return Option::None;
    }
    let mut seen: usize = 0;
    let mut i: usize = 0;
    while i < events.len()
        invariant
            i <= events@.len(),
            seen < ord,
            k == sel_kind(selector.selector),
            d == sel_detail(selector.selector),
            ord == selector.ordinal,
            spec_resolve(events@, k, d, ord as nat) == spec_resolve_from(
                events@,
                k,
                d,
                (ord - seen) as nat,
                i as nat,
            ),
        decreases events@.len() - i,
    {
        let m = matches_selector(&events[i], &selector.selector);
        proof {
            let orem = (ord - seen) as nat;
            let orem2 = if spec_matches(events@[i as int], k, d) {
                if orem == 0 {
                    0
                } else {
                    (orem - 1) as nat
                }
            } else {
                orem
            };
            assert(spec_resolve_from(events@, k, d, orem, i as nat) == (if spec_matches(
                events@[i as int],
                k,
                d,
            ) && orem == 1 {
                Option::Some(i as int)
            } else {
                spec_resolve_from(events@, k, d, orem2, (i + 1) as nat)
            }));
        }
        if m {
            seen += 1;
            if seen == ord {
                proof {
                    assert(spec_matches(events@[i as int], k, d));
                    assert((ord - (seen - 1)) as nat == 1);
                    assert(spec_resolve(events@, k, d, ord as nat) == Option::Some(i as int));
                }
                return Option::Some(i);
            }
        }
        i += 1;
    }
    Option::None
}

/// The textual address that names the given kind, detail and ordinal:
/// `kind[.detail]:ordinal` with the ordinal in decimal.
pub open spec fn spec_address(k: SelKind, d: Option<Seq<char>>, ord: nat) -> Seq<char> {
    kind_token(k) + (match d {
        Option::Some(dd) => seq!['.'] + dd,
        Option::None => Seq::empty(),
    }) + seq![':'] + dec_rep(ord)
}

/// No kind token contains a `:` or a `.`.
proof fn lemma_kind_token_chars(k: SelKind)
    ensures
        forall|j: int|
            0 <= j < kind_token(k).len() ==> #[trigger] kind_token(k)[j] != ':' && kind_token(k)[j]
                != '.',
{
    match k {
        SelKind::MousePress => {
            reveal_strlit("mouse_press");
            let t = "mouse_press"@;
            assert forall|j: int| 0 <= j < t.len() implies #[trigger] t[j] != ':' && t[j] != '.' by {
                if j == 0 {
                    assert(t[0] == 'm');
                } else if j == 1 {
                    assert(t[1] == 'o');
                } else if j == 2 {
                    assert(t[2] == 'u');
                } else if j == 3 {
                    assert(t[3] == 's');
                } else if j == 4 {
                    assert(t[4] == 'e');
                } else if j == 5 {
                    assert(t[5] == '_');
                } else if j == 6 {
                    assert(t[6] == 'p');
                } else if j == 7 {
                    assert(t[7] == 'r');
                } else if j == 8 {
                    assert(t[8] == 'e');
                } else if j == 9 {
                    assert(t[9] == 's');
                } else {
                    assert(t[10] == 's');
                }
            }
        },
        SelKind::MouseRelease => {
            reveal_strlit("mouse_release");
            let t = "mouse_release"@;
            assert forall|j: int| 0 <= j < t.len() implies #[trigger] t[j] != ':' && t[j] != '.' by {
                if j == 0 {
                    assert(t[0] == 'm');
                } else if j == 1 {
                    assert(t[1] == 'o');
                } else if j == 2 {
                    assert(t[2] == 'u');
                } else if j == 3 {
                    assert(t[3] == 's');
                } else if j == 4 {
                    assert(t[4] == 'e');
                } else if j == 5 {
                    assert(t[5] == '_');
                } else if j == 6 {
                    assert(t[6] == 'r');
                } else if j == 7 {
                    assert(t[7] == 'e');
                } else if j == 8 {
                    assert(t[8] == 'l');
                } else if j == 9 {
                    assert(t[9] == 'e');
                } else if j == 10 {
                    assert(t[10] == 'a');
                } else if j == 11 {
                    assert(t[11] == 's');
                } else {
                    assert(t[12] == 'e');
                }
            }
        },
        SelKind::MouseMove => {
            reveal_strlit("mouse_move");
            let t = "mouse_move"@;
            assert forall|j: int| 0 <= j < t.len() implies #[trigger] t[j] != ':' && t[j] != '.' by {
                if j == 0 {
                    assert(t[0] == 'm');
                } else if j == 1 {
                    assert(t[1] == 'o');
                } else if j == 2 {
                    assert(t[2] == 'u');
                } else if j == 3 {
                    assert(t[3] == 's');
                } else if j == 4 {
                    assert(t[4] == 'e');
                } else if j == 5 {
                    assert(t[5] == '_');
                } else if j == 6 {
                    assert(t[6] == 'm');
                } else if j == 7 {
                    assert(t[7] == 'o');
                } else if j == 8 {
                    assert(t[8] == 'v');
                } else {
                    assert(t[9] == 'e');
                }
            }
        },
        SelKind::Wait => {
            reveal_strlit("wait");
            let t = "wait"@;
            assert forall|j: int| 0 <= j < t.len() implies #[trigger] t[j] != ':' && t[j] != '.' by {
                if j == 0 {
                    assert(t[0] == 'w');
                } else if j == 1 {
                    assert(t[1] == 'a');
                } else if j == 2 {
                    assert(t[2] == 'i');
                } else {
                    assert(t[3] == 't');
                }
            }
        },
        SelKind::KeyPress => {
            reveal_strlit("key_press");
            let t = "key_press"@;
            assert forall|j: int| 0 <= j < t.len() implies #[trigger] t[j] != ':' && t[j] != '.' by {
                if j == 0 {
                    assert(t[0] == 'k');
                } else if j == 1 {
                    assert(t[1] == 'e');
                } else if j == 2 {
                    assert(t[2] == 'y');
                } else if j == 3 {
                    assert(t[3] == '_');
                } else if j == 4 {
                    assert(t[4] == 'p');
                } else if j == 5 {
                    assert(t[5] == 'r');
                } else if j == 6 {
                    assert(t[6] == 'e');
                } else if j == 7 {
                    assert(t[7] == 's');
                } else {
                    assert(t[8] == 's');
                }
            }
        },
        SelKind::KeyRelease => {
            reveal_strlit("key_release");
            let t = "key_release"@;
            assert forall|j: int| 0 <= j < t.len() implies #[trigger] t[j] != ':' && t[j] != '.' by {
                if j == 0 {
                    assert(t[0] == 'k');
                } else if j == 1 {
                    assert(t[1] == 'e');
                } else if j == 2 {
                    assert(t[2] == 'y');
                } else if j == 3 {
                    assert(t[3] == '_');
                } else if j == 4 {
                    assert(t[4] == 'r');
                } else if j == 5 {
                    assert(t[5] == 'e');
                } else if j == 6 {
                    assert(t[6] == 'l');
                } else if j == 7 {
                    assert(t[7] == 'e');
                } else if j == 8 {
                    assert(t[8] == 'a');
                } else if j == 9 {
                    assert(t[9] == 's');
                } else {
                    assert(t[10] == 'e');
                }
            }
        },
    }
}

/// Each kind token names its own kind.
pub proof fn lemma_kind_token_parses(k: SelKind)
    ensures
        spec_kind_of_token(kind_token(k)) == Option::Some(k),
{
    reveal_strlit("mouse_press");
    reveal_strlit("mouse_release");
    reveal_strlit("mouse_move");
    reveal_strlit("wait");
    reveal_strlit("key_press");
    reveal_strlit("key_release");
    assert(("mouse_press"@).len() == 11);
    assert(("mouse_release"@).len() == 13);
    assert(("mouse_move"@).len() == 10);
    assert(("wait"@).len() == 4);
    assert(("key_press"@).len() == 9);
    assert(("key_release"@).len() == 11);
    match k {
        SelKind::MousePress => {
            assert(spec_kind_of_token("mouse_press"@) == Option::Some(SelKind::MousePress));
        },
        SelKind::MouseRelease => {
            assert(spec_kind_of_token("mouse_release"@) == Option::Some(SelKind::MouseRelease));
        },
        SelKind::MouseMove => {
            assert(spec_kind_of_token("mouse_move"@) == Option::Some(SelKind::MouseMove));
        },
        SelKind::Wait => {
            assert(spec_kind_of_token("wait"@) == Option::Some(SelKind::Wait));
        },
        SelKind::KeyPress => {
            assert(spec_kind_of_token("key_press"@) == Option::Some(SelKind::KeyPress));
        },
        SelKind::KeyRelease => {
            assert(("key_release"@) != ("mouse_press"@)) by {
                assert(("key_release"@)[0] != ("mouse_press"@)[0]);
            };
            assert(spec_kind_of_token("key_release"@) == Option::Some(SelKind::KeyRelease));
        },
    }
}

/// Parsing recovers an address exactly: for every kind, every ordinal
/// counted from 1 that the parser can hold, and every detail free of `.`
/// and `:` on a kind that takes one, the address built from them parses
/// back to exactly those components.
pub proof fn lemma_parse_action_recovers(k: SelKind, d: Option<Seq<char>>, ord: nat)
    requires
        1 <= ord <= usize::MAX,
        match d {
            Option::Some(dd) => kind_takes_detail(k) && !has_char(dd, ':') && !has_char(dd, '.'),
            Option::None => true,
        },
    ensures
        spec_parse_action(spec_address(k, d, ord)) == Result::<
            (SelKind, Option<Seq<char>>, nat),
            SelectorParseError,
        >::Ok((k, d, ord)),
{
    lemma_kind_token_chars(k);
    lemma_kind_token_parses(k);
    lemma_dec_rep_wf(ord);
    let s = spec_address(k, d, ord);
    let kt = kind_token(k);
    let dd_len: int = match d {
        Option::Some(dd) => 1 + dd.len() as int,
        Option::None => 0,
    };
    let p: int = kt.len() + dd_len;
    assert(s.len() == p + 1 + dec_rep(ord).len());
    assert forall|j: int| 0 <= j < p implies s[j] != ':' by {
        if j < kt.len() {
            assert(s[j] == kt[j]);
        } else {
            let dd = d->Some_0;
            if j == kt.len() {
                assert(s[j] == '.');
            } else {
                assert(s[j] == dd[j - kt.len() - 1]);
                assert(!(0 <= j - kt.len() - 1 < dd.len() && dd[j - kt.len() - 1] == ':'));
            }
        }
    }
    assert(s[p] == ':');
    lemma_find_char_at(s, ':', p);
    let tail = s.subrange(p + 1, s.len() as int);
    assert(tail =~= dec_rep(ord));
    assert(!has_char(tail, ':')) by {
        if has_char(tail, ':') {
            let j = choose|j: int| 0 <= j < tail.len() && tail[j] == ':';
            assert(is_digit(tail[j]));
        }
    }
    lemma_filter_digits_id(dec_rep(ord));
    let head = s.subrange(0, p);
    match d {
        Option::None => {
            assert(head =~= kt);
            lemma_find_char_at(head, '.', head.len() as int);
            assert(head.subrange(0, head.len() as int) =~= head);
        },
        Option::Some(dd) => {
            let dl = kt.len() as int;
            assert forall|j: int| 0 <= j < dl implies head[j] != '.' by {
                assert(head[j] == kt[j]);
            }
            assert(head[dl] == '.');
            lemma_find_char_at(head, '.', dl);
            assert(head.subrange(0, dl) =~= kt);
            let after = head.subrange(dl + 1, head.len() as int);
            assert(after =~= dd);
            assert(!has_char(after, '.')) by {
                if has_char(after, '.') {
                    let j = choose|j: int| 0 <= j < after.len() && after[j] == '.';
                    assert(dd[j] == '.');
                }
            }
        },
    }
    let ci = find_char(s, ':');
    assert(ci == p);
    assert(ci < s.len());
    let ds = filter_digits(s.subrange(ci + 1, s.len() as int));
    assert(ds == dec_rep(ord));
    assert(digits_val(ds) == ord);
    assert(ds.len() > 0);
    let di = find_char(s.subrange(0, ci), '.');
    assert(s.subrange(0, ci) == head);
    let kt2 = head.subrange(0, di);
    assert(kt2 == kt);
    assert(spec_kind_of_token(kt2) == Option::Some(k));
    match d {
        Option::None => {
            assert(di == head.len());
        },
        Option::Some(dd) => {
            assert(di == kt.len());
            assert(di < head.len());
            assert(head.subrange(di + 1, head.len() as int) == dd);
            assert(kind_takes_detail(k));
        },
    }
    assert(spec_parse_action(s) == Result::<
        (SelKind, Option<Seq<char>>, nat),
        SelectorParseError,
    >::Ok((k, d, ord)));
}

/// Resolution is deterministic: for one macro and one selector there is
/// exactly one outcome, the same index or the same unresolved failure on
/// every run.
pub proof fn lemma_resolution_deterministic(
    events: Seq<Event>,
    k: SelKind,
    d: Option<Seq<char>>,
    ord: nat,
    r1: Option<int>,
    r2: Option<int>,
)
    requires
        r1 == spec_resolve(events, k, d, ord),
        r2 == spec_resolve(events, k, d, ord),
    ensures
        r1 == r2,
{
}

} // verus!
