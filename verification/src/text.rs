//! Character and string helpers shared by the selector grammar, the
//! display formatter and the macro store: decimal digit strings,
//! case-insensitive comparison and lexicographic order.

use vstd::prelude::*;
use vstd::string::*;

verus! {

pub open spec fn is_digit(c: char) -> bool {
    48 <= c as u32 && c as u32 <= 57
}

pub open spec fn digit_val(c: char) -> nat {
    (c as u32 - 48) as nat
}

pub open spec fn digit_char(d: nat) -> char {
    if d == 0 {
        '0'
    } else if d == 1 {
        '1'
    } else if d == 2 {
        '2'
    } else if d == 3 {
        '3'
    } else if d == 4 {
        '4'
    } else if d == 5 {
        '5'
    } else if d == 6 {
        '6'
    } else if d == 7 {
        '7'
    } else if d == 8 {
        '8'
    } else {
        '9'
    }
}

/// Decimal representation of `n`: most significant digit first, no sign,
/// no leading zeros (`0` is written as the single digit `0`).
pub open spec fn dec_rep(n: nat) -> Seq<char>
    decreases n,
{
    if n < 10 {
        seq![digit_char(n)]
    } else {
        dec_rep(n / 10).push(digit_char(n % 10))
    }
}

/// Decimal representation of a signed value: a leading `-` for negatives.
pub open spec fn dec_rep_signed(x: int) -> Seq<char> {
    if x >= 0 {
        dec_rep(x as nat)
    } else {
        seq!['-'] + dec_rep((-x) as nat)
    }
}

pub open spec fn all_digits(s: Seq<char>) -> bool {
    forall|i: int| 0 <= i < s.len() ==> is_digit(#[trigger] s[i])
}

/// Numeric value of a digit string, most significant digit first.
pub open spec fn digits_val(s: Seq<char>) -> nat
    decreases s.len(),
{
    if s.len() == 0 {
        0
    } else {
        digits_val(s.drop_last()) * 10 + digit_val(s.last())
    }
}

/// The digit characters of `s`, in order, everything else removed.
pub open spec fn filter_digits(s: Seq<char>) -> Seq<char>
    decreases s.len(),
{
    if s.len() == 0 {
        Seq::empty()
    } else if is_digit(s.last()) {
        filter_digits(s.drop_last()).push(s.last())
    } else {
        filter_digits(s.drop_last())
    }
}

pub proof fn lemma_digit_char_val(d: nat)
    requires
        d < 10,
    ensures
        is_digit(digit_char(d)),
        digit_val(digit_char(d)) == d,
{
}

pub proof fn lemma_dec_rep_wf(n: nat)
    ensures
        dec_rep(n).len() >= 1,
        all_digits(dec_rep(n)),
        digits_val(dec_rep(n)) == n,
    decreases n,
{
    if n < 10 {
        lemma_digit_char_val(n);
        assert(dec_rep(n).drop_last() =~= Seq::<char>::empty());
        assert(dec_rep(n)[0] == digit_char(n));
        assert(dec_rep(n).len() == 1);
        assert(dec_rep(n).last() == digit_char(n));
        assert(digits_val(dec_rep(n)) == digits_val(Seq::<char>::empty()) * 10 + digit_val(
            digit_char(n),
        ));
    } else {
        lemma_dec_rep_wf(n / 10);
        lemma_digit_char_val(n % 10);
        assert(dec_rep(n / 10).push(digit_char(n % 10)).drop_last() =~= dec_rep(n / 10));
        assert(digits_val(dec_rep(n)) == digits_val(dec_rep(n / 10)) * 10 + digit_val(
            digit_char(n % 10),
        ));
        assert(n / 10 * 10 + n % 10 == n);
        assert forall|i: int| 0 <= i < dec_rep(n).len() implies is_digit(#[trigger] dec_rep(n)[i]) by {
            if i < dec_rep(n).len() - 1 {
                assert(dec_rep(n)[i] == dec_rep(n / 10)[i]);
            }
        }
    }
}

pub proof fn lemma_digits_val_push(s: Seq<char>, c: char)
    ensures
        digits_val(s.push(c)) == digits_val(s) * 10 + digit_val(c),
{
    assert(s.push(c).drop_last() =~= s);
    assert(s.push(c).last() == c);
}

/// Appending more characters never lowers the numeric value of the digits.
pub proof fn lemma_digits_val_extend(s: Seq<char>, t: Seq<char>)
    ensures
        digits_val(filter_digits(s + t)) >= digits_val(filter_digits(s)),
        filter_digits(s + t).len() >= filter_digits(s).len(),
    decreases t.len(),
{
    if t.len() == 0 {
        assert(s + t =~= s);
    } else {
        lemma_digits_val_extend(s, t.drop_last());
        assert((s + t).drop_last() =~= s + t.drop_last());
        if is_digit((s + t).last()) {
            lemma_digits_val_push(filter_digits(s + t.drop_last()), (s + t).last());
        }
    }
}

/// A string of digits filters to itself.
pub proof fn lemma_filter_digits_id(s: Seq<char>)
    requires
        all_digits(s),
    ensures
        filter_digits(s) == s,
    decreases s.len(),
{
    if s.len() > 0 {
        assert(is_digit(s[s.len() - 1]));
        lemma_filter_digits_id(s.drop_last());
        assert(filter_digits(s.drop_last()).push(s.last()) =~= s);
    }
}

/// Appending characters never lowers the numeric value of a digit string.
pub proof fn lemma_digits_val_append_ge(s: Seq<char>, t: Seq<char>)
    ensures
        digits_val(s + t) >= digits_val(s),
    decreases t.len(),
{
    if t.len() == 0 {
        assert(s + t =~= s);
    } else {
        lemma_digits_val_append_ge(s, t.drop_last());
        assert((s + t).drop_last() =~= s + t.drop_last());
    }
}

/// Relies on `String::push`: appends exactly the given character.
#[verifier::external_body]
pub(crate) fn push_char(s: &mut String, c: char)
    ensures
        final(s)@ == old(s)@.push(c),
{
    s.push(c);
}

pub fn digit_to_char(d: u64) -> (c: char)
    requires
        d < 10,
    ensures
        c == digit_char(d as nat),
{
    if d == 0 {
        '0'
    } else if d == 1 {
        '1'
    } else if d == 2 {
        '2'
    } else if d == 3 {
        '3'
    } else if d == 4 {
        '4'
    } else if d == 5 {
        '5'
    } else if d == 6 {
        '6'
    } else if d == 7 {
        '7'
    } else if d == 8 {
        '8'
    } else {
        '9'
    }
}

pub fn u64_to_string(n: u64) -> (s: String)
    ensures
        s@ == dec_rep(n as nat),
    decreases n,
{
    if n < 10 {
        let mut s = String::new();
        push_char(&mut s, digit_to_char(n));
        proof {
            assert(s@ =~= dec_rep(n as nat));
        }
        s
    } else {
        let mut s = u64_to_string(n / 10);
        push_char(&mut s, digit_to_char(n % 10));
        s
    }
}

pub fn usize_to_string(n: usize) -> (s: String)
    ensures
        s@ == dec_rep(n as nat),
{
    u64_to_string(n as u64)
}

pub fn i64_to_string(x: i64) -> (s: String)
    ensures
        s@ == dec_rep_signed(x as int),
{
    if x >= 0 {
        u64_to_string(x as u64)
    } else {
        let mut s = String::new();
        push_char(&mut s, '-');
        let m: i128 = -(x as i128);
        let d = u64_to_string(m as u64);
        s.append(d.as_str());
        proof {
            assert(s@ =~= dec_rep_signed(x as int));
        }
        s
    }
}

pub fn is_digit_exec(c: char) -> (r: bool)
    ensures
        r == is_digit(c),
{
    let u = c as u32;
    48 <= u && u <= 57
}

/// Exact equality of two string slices, decided character by character.
pub fn str_eq(a: &str, b: &str) -> (r: bool)
    ensures
        r == (a@ == b@),
{
    let la = a.unicode_len();
    let lb = b.unicode_len();
    if la != lb {
        proof {
            assert(a@ != b@);
        }
        return false;
    }
    let mut i: usize = 0;
    while i < la
        invariant
            i <= la,
            la == a@.len(),
            la == b@.len(),
            forall|j: int| 0 <= j < i ==> a@[j] == b@[j],
        decreases la - i,
    {
        let ca = a.get_char(i);
        let cb = b.get_char(i);
        if ca != cb {
            proof {
                assert(a@[i as int] != b@[i as int]);
            }
            return false;
        }
        i += 1;
    }
    proof {
        assert(a@ =~= b@);
    }
    true
}

/// First index of `c` in `s`; `s.len()` when `c` does not occur.
pub open spec fn find_char(s: Seq<char>, c: char) -> int
    decreases s.len(),
{
    if s.len() == 0 {
        0
    } else if s[0] == c {
        0
    } else {
        1 + find_char(s.subrange(1, s.len() as int), c)
    }
}

pub open spec fn has_char(s: Seq<char>, c: char) -> bool {
    exists|j: int| 0 <= j < s.len() && s[j] == c
}

pub proof fn lemma_find_char_at(s: Seq<char>, c: char, i: int)
    requires
        0 <= i <= s.len(),
        forall|j: int| 0 <= j < i ==> s[j] != c,
        i < s.len() ==> s[i] == c,
    ensures
        find_char(s, c) == i,
    decreases i,
{
    if i == 0 {
    } else {
        let t = s.subrange(1, s.len() as int);
        assert(s[0] != c);
        lemma_find_char_at(t, c, i - 1);
    }
}

/// Reads `s[from..to]` as a decimal number: every character must be a
/// digit, there must be at least one, and the value must not exceed `max`.
pub fn parse_digits_u64(s: &str, from: usize, to: usize, max: u64) -> (r: Option<u64>)
    requires
        from <= to && to <= s@.len(),
    ensures
        ({
            let ds = s@.subrange(from as int, to as int);
            match r {
                Option::Some(v) => to > from && all_digits(ds) && digits_val(ds) == v as nat && v
                    <= max,
                Option::None => to == from || !all_digits(ds) || digits_val(ds) > max,
            }
        }),
{
    if to == from {
        return Option::None;
    }
    let ghost ds = s@.subrange(from as int, to as int);
    let mut i: usize = from;
    let mut acc: u64 = 0;
    while i < to
        invariant
            from <= i <= to <= s@.len(),
            ds == s@.subrange(from as int, to as int),
            all_digits(s@.subrange(from as int, i as int)),
            acc as nat == digits_val(s@.subrange(from as int, i as int)),
            acc <= max,
        decreases to - i,
    {
        let c = s.get_char(i);
        proof {
            assert(s@.subrange(from as int, i as int + 1) =~= s@.subrange(
                from as int,
                i as int,
            ).push(s@[i as int]));
            lemma_digits_val_push(s@.subrange(from as int, i as int), s@[i as int]);
        }
        if !is_digit_exec(c) {
            proof {
                assert(ds[i - from] == s@[i as int]);
            }
            return Option::None;
        }
        let d = (c as u32 as u64) - 48;
        if d > max || acc > (max - d) / 10 {
            proof {
                let pre = s@.subrange(from as int, i as int + 1);
                if d <= max {
                    assert((max - d) / 10 * 10 + (max - d) % 10 == max - d);
                }
                assert(digits_val(pre) > max);
                assert(ds =~= pre + s@.subrange(i as int + 1, to as int));
                lemma_digits_val_append_ge(pre, s@.subrange(i as int + 1, to as int));
            }
            return Option::None;
        }
        acc = acc * 10 + d;
        i += 1;
    }
    proof {
        assert(s@.subrange(from as int, to as int) =~= ds);
    }
    Option::Some(acc)
}

/// Reads the ordinal digits of `s[from..to]`: non-digit characters are
/// ignored, the remaining digits are the number. `None` when there is no
/// digit at all or the value does not fit in `usize`.
pub fn parse_ordinal_digits(s: &str, from: usize, to: usize) -> (r: Option<usize>)
    requires
        from <= to && to <= s@.len(),
    ensures
        ({
            let ds = filter_digits(s@.subrange(from as int, to as int));
            match r {
                Option::Some(v) => ds.len() > 0 && digits_val(ds) == v as nat,
                Option::None => ds.len() == 0 || digits_val(ds) > usize::MAX,
            }
        }),
{
    let ghost ds = filter_digits(s@.subrange(from as int, to as int));
    let mut i: usize = from;
    let mut acc: usize = 0;
    let mut any = false;
    while i < to
        invariant
            from <= i <= to <= s@.len(),
            ds == filter_digits(s@.subrange(from as int, to as int)),
            acc as nat == digits_val(filter_digits(s@.subrange(from as int, i as int))),
            any == (filter_digits(s@.subrange(from as int, i as int)).len() > 0),
        decreases to - i,
    {
        let c = s.get_char(i);
        proof {
            assert(s@.subrange(from as int, i as int + 1) =~= s@.subrange(
                from as int,
                i as int,
            ).push(s@[i as int]));
            assert(s@.subrange(from as int, i as int + 1).drop_last() =~= s@.subrange(
                from as int,
                i as int,
            ));
        }
        if is_digit_exec(c) {
            let d = (c as u32 as usize) - 48;
            proof {
                lemma_digits_val_push(
                    filter_digits(s@.subrange(from as int, i as int)),
                    s@[i as int],
                );
            }
            if acc > (usize::MAX - d) / 10 {
                proof {
                    let pre = s@.subrange(from as int, i as int + 1);
                    assert((usize::MAX - d) / 10 * 10 + (usize::MAX - d) % 10 == usize::MAX - d);
                    assert(digits_val(filter_digits(pre)) > usize::MAX);
                    assert(s@.subrange(from as int, to as int) =~= pre + s@.subrange(
                        i as int + 1,
                        to as int,
                    ));
                    lemma_digits_val_extend(pre, s@.subrange(i as int + 1, to as int));
                }
                return Option::None;
            }
            acc = acc * 10 + d;
            any = true;
        }
        i += 1;
    }
    proof {
        assert(s@.subrange(from as int, to as int) =~= s@.subrange(from as int, i as int));
    }
    if any {
        Option::Some(acc)
    } else {
        Option::None
    }
}

pub open spec fn lower_code(c: char) -> u32 {
    if 65 <= c as u32 && c as u32 <= 90 {
        (c as u32 + 32) as u32
    } else {
        c as u32
    }
}

/// ASCII-case-insensitive equality on character sequences.
pub open spec fn eq_ci(a: Seq<char>, b: Seq<char>) -> bool {
    a.len() == b.len() && forall|i: int| 0 <= i < a.len() ==> lower_code(a[i]) == lower_code(#[trigger] b[i])
}

pub fn str_eq_ci(a: &str, b: &str) -> (r: bool)
    ensures
        r == eq_ci(a@, b@),
{
    let la = a.unicode_len();
    let lb = b.unicode_len();
    if la != lb {
        return false;
    }
    let mut i: usize = 0;
    while i < la
        invariant
            i <= la,
            la == a@.len(),
            la == b@.len(),
            forall|j: int| 0 <= j < i ==> lower_code(a@[j]) == lower_code(#[trigger] b@[j]),
        decreases la - i,
    {
        let ca = a.get_char(i) as u32;
        let cb = b.get_char(i) as u32;
        let la_c = if 65 <= ca && ca <= 90 {
            ca + 32
        } else {
            ca
        };
        let lb_c = if 65 <= cb && cb <= 90 {
            cb + 32
        } else {
            cb
        };
        if la_c != lb_c {
            return false;
        }
        i += 1;
    }
    true
}

/// Strict lexicographic order on character sequences, by code point;
/// a proper prefix comes first.
pub open spec fn lex_lt(a: Seq<char>, b: Seq<char>) -> bool
    decreases a.len(),
{
    if b.len() == 0 {
        false
    } else if a.len() == 0 {
        true
    } else if a[0] != b[0] {
        (a[0] as u32) < (b[0] as u32)
    } else {
        lex_lt(a.subrange(1, a.len() as int), b.subrange(1, b.len() as int))
    }
}

pub fn str_lex_lt(a: &str, b: &str) -> (r: bool)
    ensures
        r == lex_lt(a@, b@),
    decreases a@.len(),
{
    let la = a.unicode_len();
    let lb = b.unicode_len();
    if lb == 0 {
        false
    } else if la == 0 {
        true
    } else {
        let ca = a.get_char(0);
        let cb = b.get_char(0);
        if ca != cb {
            (ca as u32) < (cb as u32)
        } else {
            str_lex_lt(a.substring_char(1, la), b.substring_char(1, lb))
        }
    }
}

pub proof fn lemma_char_neq_code(a: char, b: char)
    requires
        a != b,
    ensures
        (a as u32) != (b as u32),
{
}

pub proof fn lemma_lex_lt_trichotomy(a: Seq<char>, b: Seq<char>)
    ensures
        lex_lt(a, b) || lex_lt(b, a) || a == b,
    decreases a.len(),
{
    if b.len() == 0 {
        if a.len() == 0 {
            assert(a =~= b);
        } else {
            assert(lex_lt(b, a));
        }
    } else if a.len() == 0 {
        assert(lex_lt(a, b));
    } else if a[0] != b[0] {
        lemma_char_neq_code(a[0], b[0]);
        if (a[0] as u32) < (b[0] as u32) {
            assert(lex_lt(a, b));
        } else {
            assert(lex_lt(b, a));
        }
    } else {
        let a1 = a.subrange(1, a.len() as int);
        let b1 = b.subrange(1, b.len() as int);
        lemma_lex_lt_trichotomy(a1, b1);
        if !lex_lt(a, b) && !lex_lt(b, a) {
            assert(a1 == b1);
            assert(a1.len() == b1.len());
            assert(a.len() == b.len());
            assert forall|i: int| 0 <= i < a.len() implies a[i] == b[i] by {
                if i > 0 {
                    assert(a[i] == a1[i - 1]);
                    assert(b[i] == b1[i - 1]);
                }
            }
            assert(a =~= b);
        }
    }
}

pub proof fn lemma_lex_lt_asymmetric(a: Seq<char>, b: Seq<char>)
    requires
        lex_lt(a, b),
    ensures
        !lex_lt(b, a),
        a != b,
    decreases a.len(),
{
    if b.len() == 0 {
    } else if a.len() == 0 {
        assert(a.len() != b.len());
    } else if a[0] != b[0] {
    } else {
        let a1 = a.subrange(1, a.len() as int);
        let b1 = b.subrange(1, b.len() as int);
        lemma_lex_lt_asymmetric(a1, b1);
        if a == b {
            assert(a1 =~= b1);
        }
    }
}

pub proof fn lemma_lex_lt_transitive(a: Seq<char>, b: Seq<char>, c: Seq<char>)
    requires
        lex_lt(a, b),
        lex_lt(b, c),
    ensures
        lex_lt(a, c),
    decreases a.len(),
{
    if c.len() == 0 {
    } else if a.len() == 0 {
    } else if b.len() == 0 {
    } else {
        let a1 = a.subrange(1, a.len() as int);
        let b1 = b.subrange(1, b.len() as int);
        let c1 = c.subrange(1, c.len() as int);
        if a[0] != b[0] {
            if b[0] != c[0] {
                assert((a[0] as u32) < (c[0] as u32));
                assert(a[0] != c[0]);
            } else {
                assert(a[0] != c[0]);
            }
        } else {
            if b[0] != c[0] {
                assert(a[0] != c[0]);
            } else {
                lemma_lex_lt_transitive(a1, b1, c1);
            }
        }
    }
}

} // verus!
