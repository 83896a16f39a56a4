//! The macro store's text format: a `description` line followed by one
//! `[[events]]` section per event, each with a kind tag and its fields,
//! with no blank line between a section marker and its fields. Quoted
//! text escapes backslash, quote and newline. Serializing and parsing
//! are exact inverses on every macro.

use crate::event::{Event, Macro, MouseEventButton, MouseEventMove};
use crate::keys::Key;
use crate::keys::{
    button_from_name, button_name, key_from_name, key_name, lemma_button_name_roundtrip,
    lemma_key_name_roundtrip, spec_button_from_name, spec_button_name, spec_key_from_name,
    spec_key_name,
};
use crate::selector::{
    kind_of_token, kind_token, lemma_kind_token_parses, spec_kind_of_token, SelKind,
};
use crate::text::{
    all_digits, dec_rep, dec_rep_signed, digits_val, find_char, i64_to_string, is_digit,
    lemma_dec_rep_wf, lemma_find_char_at, parse_digits_u64, push_char, str_eq, u64_to_string,
};
use vstd::prelude::*;
use vstd::string::*;

verus! {

/// Why a stored macro could not be read.
#[derive(Clone, Copy, PartialEq, Eq, Structural, Debug)]
pub enum StoreError {
    /// No macro of that name is stored: the caller found no file to
    /// read, so no text ever reaches the parser.
    NotFound,
    /// The stored text does not parse into the schema.
    Corrupt,
}

/// How one character is written inside a quoted field.
pub open spec fn esc_char(c: char) -> Seq<char> {
    if c == '\\' {
        seq!['\\', '\\']
    } else if c == '"' {
        seq!['\\', '"']
    } else if c == '\n' {
        seq!['\\', 'n']
    } else {
        seq![c]
    }
}

/// The escaped form of quoted text.
pub open spec fn esc(s: Seq<char>) -> Seq<char>
    decreases s.len(),
{
    if s.len() == 0 {
        Seq::empty()
    } else {
        esc_char(s[0]) + esc(s.subrange(1, s.len() as int))
    }
}

/// Reads a quoted field up to its closing quote: the unescaped content
/// and what follows the quote. `None` on a bad escape or a missing
/// closing quote.
pub open spec fn unquote(s: Seq<char>) -> Option<(Seq<char>, Seq<char>)>
    decreases s.len(),
{
    if s.len() == 0 {
        Option::None
    } else if s[0] == '"' {
        Option::Some((Seq::empty(), s.subrange(1, s.len() as int)))
    } else if s[0] == '\\' {
        if s.len() >= 2 {
            let c = if s[1] == '\\' {
                Option::Some('\\')
            } else if s[1] == '"' {
                Option::Some('"')
            } else if s[1] == 'n' {
                Option::Some('\n')
            } else {
                Option::<char>::None
            };
            match c {
                Option::Some(ch) => match unquote(s.subrange(2, s.len() as int)) {
                    Option::Some(t) => Option::Some((seq![ch] + t.0, t.1)),
                    Option::None => Option::None,
                },
                Option::None => Option::None,
            }
        } else {
            Option::None
        }
    } else {
        match unquote(s.subrange(1, s.len() as int)) {
            Option::Some(t) => Option::Some((seq![s[0]] + t.0, t.1)),
            Option::None => Option::None,
        }
    }
}

/// The rest of `s` after the literal prefix `lit`, when `s` starts
/// with it.
pub open spec fn expect_lit(s: Seq<char>, lit: Seq<char>) -> Option<Seq<char>> {
    if lit.len() <= s.len() && s.take(lit.len() as int) == lit {
        Option::Some(s.subrange(lit.len() as int, s.len() as int))
    } else {
        Option::None
    }
}

/// A prefixed quoted field on a line of its own: the literal prefix,
/// the quoted content, the closing quote, a newline.
pub open spec fn parse_quoted_line(s: Seq<char>, prefix: Seq<char>) -> Option<
    (Seq<char>, Seq<char>),
> {
    match expect_lit(s, prefix) {
        Option::Some(r1) => match unquote(r1) {
            Option::Some(t) => match expect_lit(t.1, "\n"@) {
                Option::Some(r2) => Option::Some((t.0, r2)),
                Option::None => Option::None,
            },
            Option::None => Option::None,
        },
        Option::None => Option::None,
    }
}

/// An unsigned decimal up to the end of the line.
pub open spec fn parse_u64_field(s: Seq<char>) -> Option<(u64, Seq<char>)> {
    let j = find_char(s, '\n');
    if j == s.len() {
        Option::None
    } else {
        let ds = s.take(j);
        if ds.len() > 0 && all_digits(ds) && digits_val(ds) <= u64::MAX {
            Option::Some((digits_val(ds) as u64, s.subrange(j + 1, s.len() as int)))
        } else {
            Option::None
        }
    }
}

/// A signed decimal up to the end of the line.
pub open spec fn parse_i64_field(s: Seq<char>) -> Option<(i64, Seq<char>)> {
    let j = find_char(s, '\n');
    if j == s.len() {
        Option::None
    } else {
        let ds = s.take(j);
        let rest = s.subrange(j + 1, s.len() as int);
        if ds.len() > 0 && ds[0] == '-' {
            let mag = ds.subrange(1, ds.len() as int);
            if mag.len() > 0 && all_digits(mag) && digits_val(mag) <= 0x8000_0000_0000_0000 {
                Option::Some(((0 - digits_val(mag) as int) as i64, rest))
            } else {
                Option::None
            }
        } else if ds.len() > 0 && all_digits(ds) && digits_val(ds) <= i64::MAX {
            Option::Some((digits_val(ds) as i64, rest))
        } else {
            Option::None
        }
    }
}

/// The stored text of one event: its section marker, kind tag and
/// fields, every line newline-terminated, no blank line between the
/// marker and the fields.
pub open spec fn ser_event(ev: Event) -> Seq<char> {
    match ev {
        Event::KeyPress(k) => "\n[[events]]\nkind = \""@ + esc(kind_token(SelKind::KeyPress))
            + "\""@ + "\n"@ + "key = \""@ + esc(spec_key_name(k)) + "\""@ + "\n"@,
        Event::KeyRelease(k) => "\n[[events]]\nkind = \""@ + esc(kind_token(SelKind::KeyRelease))
            + "\""@ + "\n"@ + "key = \""@ + esc(spec_key_name(k)) + "\""@ + "\n"@,
        Event::MousePress(m) => "\n[[events]]\nkind = \""@ + esc(kind_token(SelKind::MousePress))
            + "\""@ + "\n"@ + "x = "@ + dec_rep_signed(m.x as int) + "\n"@ + "y = "@
            + dec_rep_signed(m.y as int) + "\n"@ + "button = \""@ + esc(spec_button_name(m.button))
            + "\""@ + "\n"@,
        Event::MouseRelease(m) => "\n[[events]]\nkind = \""@ + esc(
            kind_token(SelKind::MouseRelease),
        ) + "\""@ + "\n"@ + "x = "@ + dec_rep_signed(m.x as int) + "\n"@ + "y = "@ + dec_rep_signed(
            m.y as int,
        ) + "\n"@ + "button = \""@ + esc(spec_button_name(m.button)) + "\""@ + "\n"@,
        Event::MouseMove(m) => "\n[[events]]\nkind = \""@ + esc(kind_token(SelKind::MouseMove))
            + "\""@ + "\n"@ + "x = "@ + dec_rep_signed(m.x as int) + "\n"@ + "y = "@
            + dec_rep_signed(m.y as int) + "\n"@,
        Event::Wait(ms) => "\n[[events]]\nkind = \""@ + esc(kind_token(SelKind::Wait)) + "\""@
            + "\n"@ + "ms = "@ + dec_rep(ms as nat) + "\n"@,
    }
}

pub open spec fn ser_events(evs: Seq<Event>) -> Seq<char>
    decreases evs.len(),
{
    if evs.len() == 0 {
        Seq::empty()
    } else {
        ser_event(evs[0]) + ser_events(evs.subrange(1, evs.len() as int))
    }
}

/// The full stored text of a macro.
pub open spec fn ser_macro(d: Seq<char>, evs: Seq<Event>) -> Seq<char> {
    "description = \""@ + esc(d) + "\""@ + "\n"@ + ser_events(evs)
}

/// Parses the event sections that make up the rest of the file. Each
/// section must consume text, and the file must end cleanly.
pub open spec fn parse_events_rec(s: Seq<char>) -> Option<Seq<Event>>
    decreases s.len(),
{
    if s.len() == 0 {
        Option::Some(Seq::empty())
    } else {
        match parse_quoted_line(s, "\n[[events]]\nkind = \""@) {
            Option::None => Option::None,
            Option::Some((kname, r1)) => match spec_kind_of_token(kname) {
                Option::None => Option::None,
                Option::Some(k) => match k {
                    SelKind::KeyPress => match parse_quoted_line(r1, "key = \""@) {
                        Option::None => Option::None,
                        Option::Some((name, r2)) => match spec_key_from_name(name) {
                            Option::None => Option::None,
                            Option::Some(key) => parse_events_tail(s, r2, Event::KeyPress(key)),
                        },
                    },
                    SelKind::KeyRelease => match parse_quoted_line(r1, "key = \""@) {
                        Option::None => Option::None,
                        Option::Some((name, r2)) => match spec_key_from_name(name) {
                            Option::None => Option::None,
                            Option::Some(key) => parse_events_tail(s, r2, Event::KeyRelease(key)),
                        },
                    },
                    SelKind::MousePress => match parse_mouse_fields(r1) {
                        Option::None => Option::None,
                        Option::Some((m, r2)) => parse_events_tail(s, r2, Event::MousePress(m)),
                    },
                    SelKind::MouseRelease => match parse_mouse_fields(r1) {
                        Option::None => Option::None,
                        Option::Some((m, r2)) => parse_events_tail(s, r2, Event::MouseRelease(m)),
                    },
                    SelKind::MouseMove => match parse_move_fields(r1) {
                        Option::None => Option::None,
                        Option::Some((m, r2)) => parse_events_tail(s, r2, Event::MouseMove(m)),
                    },
                    SelKind::Wait => match expect_lit(r1, "ms = "@) {
                        Option::None => Option::None,
                        Option::Some(r2) => match parse_u64_field(r2) {
                            Option::None => Option::None,
                            Option::Some((ms, r3)) => parse_events_tail(s, r3, Event::Wait(ms)),
                        },
                    },
                },
            },
        }
    }
}

/// One parsed event followed by the remaining sections; the section
/// must have consumed at least one character.
pub open spec fn parse_events_tail(s: Seq<char>, rest: Seq<char>, ev: Event) -> Option<Seq<Event>>
    decreases s.len(), 0nat,
{
    if rest.len() < s.len() {
        match parse_events_rec(rest) {
            Option::Some(evs) => Option::Some(seq![ev] + evs),
            Option::None => Option::None,
        }
    } else {
        Option::None
    }
}

/// The `x`, `y` and `button` fields of a mouse button event.
pub open spec fn parse_mouse_fields(s: Seq<char>) -> Option<(MouseEventButton, Seq<char>)> {
    match expect_lit(s, "x = "@) {
        Option::None => Option::None,
        Option::Some(r1) => match parse_i64_field(r1) {
            Option::None => Option::None,
            Option::Some((x, r2)) => match expect_lit(r2, "y = "@) {
                Option::None => Option::None,
                Option::Some(r3) => match parse_i64_field(r3) {
                    Option::None => Option::None,
                    Option::Some((y, r4)) => match parse_quoted_line(r4, "button = \""@) {
                        Option::None => Option::None,
                        Option::Some((bname, r5)) => match spec_button_from_name(bname) {
                            Option::None => Option::None,
                            Option::Some(b) => Option::Some(
                                (MouseEventButton { x, y, button: b }, r5),
                            ),
                        },
                    },
                },
            },
        },
    }
}

/// The `x` and `y` fields of a mouse move.
pub open spec fn parse_move_fields(s: Seq<char>) -> Option<(MouseEventMove, Seq<char>)> {
    match expect_lit(s, "x = "@) {
        Option::None => Option::None,
        Option::Some(r1) => match parse_i64_field(r1) {
            Option::None => Option::None,
            Option::Some((x, r2)) => match expect_lit(r2, "y = "@) {
                Option::None => Option::None,
                Option::Some(r3) => match parse_i64_field(r3) {
                    Option::None => Option::None,
                    Option::Some((y, r4)) => Option::Some((MouseEventMove { x, y }, r4)),
                },
            },
        },
    }
}

/// What a stored file means: the description line, then the event
/// sections through the end of the text.
pub open spec fn spec_parse_macro(s: Seq<char>) -> Option<(Seq<char>, Seq<Event>)> {
    match parse_quoted_line(s, "description = \""@) {
        Option::None => Option::None,
        Option::Some((d, rest)) => match parse_events_rec(rest) {
            Option::None => Option::None,
            Option::Some(evs) => Option::Some((d, evs)),
        },
    }
}

proof fn lemma_expect_lit(lit: Seq<char>, rest: Seq<char>)
    ensures
        expect_lit(lit + rest, lit) == Option::Some(rest),
{
    assert((lit + rest).take(lit.len() as int) =~= lit);
    assert((lit + rest).subrange(lit.len() as int, (lit + rest).len() as int) =~= rest);
}

/// Escaping then reading back a quoted field recovers the text exactly.
proof fn lemma_unquote_esc(d: Seq<char>, rest: Seq<char>)
    ensures
        unquote(esc(d) + "\""@ + rest) == Option::Some((d, rest)),
    decreases d.len(),
{
    reveal_strlit("\"");
    let s = esc(d) + "\""@ + rest;
    if d.len() == 0 {
        assert(esc(d) =~= Seq::<char>::empty());
        assert(s =~= "\""@ + rest);
        assert(s[0] == '"');
        assert(s.subrange(1, s.len() as int) =~= rest);
        assert(unquote(s) == Option::Some((Seq::<char>::empty(), rest)));
        assert(d =~= Seq::<char>::empty());
    } else {
        let c = d[0];
        let d1 = d.subrange(1, d.len() as int);
        lemma_unquote_esc(d1, rest);
        assert(esc(d) == esc_char(c) + esc(d1));
        if c == '\\' || c == '"' || c == '\n' {
            let c2 = if c == '\\' {
                '\\'
            } else if c == '"' {
                '"'
            } else {
                'n'
            };
            assert(esc_char(c) =~= seq!['\\', c2]);
            assert(s[0] == '\\');
            assert(s[1] == c2);
            assert(s.len() >= 2);
            assert(s.subrange(2, s.len() as int) =~= esc(d1) + "\""@ + rest);
            assert(unquote(s.subrange(2, s.len() as int)) == Option::Some((d1, rest)));
            assert(seq![c] + d1 =~= d);
        } else {
            assert(esc_char(c) =~= seq![c]);
            assert(s[0] == c);
            assert(s.subrange(1, s.len() as int) =~= esc(d1) + "\""@ + rest);
            assert(unquote(s.subrange(1, s.len() as int)) == Option::Some((d1, rest)));
            assert(seq![c] + d1 =~= d);
        }
    }
}

proof fn lemma_parse_quoted_line(prefix: Seq<char>, content: Seq<char>, rest: Seq<char>)
    ensures
        parse_quoted_line(prefix + esc(content) + "\""@ + "\n"@ + rest, prefix) == Option::Some(
            (content, rest),
        ),
{
    reveal_strlit("\n");
    let s = prefix + esc(content) + "\""@ + "\n"@ + rest;
    assert(s =~= prefix + (esc(content) + "\""@ + ("\n"@ + rest)));
    lemma_expect_lit(prefix, esc(content) + "\""@ + ("\n"@ + rest));
    lemma_unquote_esc(content, "\n"@ + rest);
    lemma_expect_lit("\n"@, rest);
}

proof fn lemma_parse_u64_field(v: u64, rest: Seq<char>)
    ensures
        parse_u64_field(dec_rep(v as nat) + "\n"@ + rest) == Option::Some((v, rest)),
{
    reveal_strlit("\n");
    let ds = dec_rep(v as nat);
    lemma_dec_rep_wf(v as nat);
    let s = ds + "\n"@ + rest;
    assert forall|j: int| 0 <= j < ds.len() implies s[j] != '\n' by {
        assert(s[j] == ds[j]);
        assert(is_digit(ds[j]));
    }
    assert(s[ds.len() as int] == '\n');
    lemma_find_char_at(s, '\n', ds.len() as int);
    assert(s.take(ds.len() as int) =~= ds);
    assert(s.subrange(ds.len() as int + 1, s.len() as int) =~= rest);
}

proof fn lemma_parse_i64_field(x: i64, rest: Seq<char>)
    ensures
        parse_i64_field(dec_rep_signed(x as int) + "\n"@ + rest) == Option::Some((x, rest)),
{
    reveal_strlit("\n");
    let ds = dec_rep_signed(x as int);
    let s = ds + "\n"@ + rest;
    if x >= 0 {
        lemma_dec_rep_wf(x as nat);
        assert forall|j: int| 0 <= j < ds.len() implies s[j] != '\n' by {
            assert(s[j] == ds[j]);
            assert(is_digit(ds[j]));
        }
        assert(s[ds.len() as int] == '\n');
        lemma_find_char_at(s, '\n', ds.len() as int);
        assert(s.take(ds.len() as int) =~= ds);
        assert(s.subrange(ds.len() as int + 1, s.len() as int) =~= rest);
        assert(ds[0] != '-') by {
            assert(is_digit(ds[0]));
        }
    } else {
        let mag = dec_rep((-(x as int)) as nat);
        lemma_dec_rep_wf((-(x as int)) as nat);
        assert(ds =~= seq!['-'] + mag);
        assert forall|j: int| 0 <= j < ds.len() implies s[j] != '\n' by {
            assert(s[j] == ds[j]);
            if j == 0 {
                assert(ds[0] == '-');
            } else {
                assert(ds[j] == mag[j - 1]);
                assert(is_digit(mag[j - 1]));
            }
        }
        assert(s[ds.len() as int] == '\n');
        lemma_find_char_at(s, '\n', ds.len() as int);
        assert(s.take(ds.len() as int) =~= ds);
        assert(s.subrange(ds.len() as int + 1, s.len() as int) =~= rest);
        assert(ds[0] == '-');
        assert(ds.subrange(1, ds.len() as int) =~= mag);
        assert(digits_val(mag) == -(x as int));
        assert(digits_val(mag) <= 0x8000_0000_0000_0000);
    }
}

/// One serialized section reduces the parser by exactly one event.
proof fn lemma_parse_block(e0: Event, body: Seq<char>)
    ensures
        ser_event(e0).len() > 0,
        parse_events_rec(ser_event(e0) + body) == parse_events_tail(
            ser_event(e0) + body,
            body,
            e0,
        ),
{
    reveal_strlit("\n[[events]]\nkind = \"");
    let s = ser_event(e0) + body;
    let header = "\n[[events]]\nkind = \""@;
    assert(header.len() == 20);
    match e0 {
        Event::KeyPress(k) => {
            lemma_parse_block_key(k, body, true);
        },
        Event::KeyRelease(k) => {
            lemma_parse_block_key(k, body, false);
        },
        Event::MousePress(m) => {
            lemma_parse_block_mouse(m, body, true);
        },
        Event::MouseRelease(m) => {
            lemma_parse_block_mouse(m, body, false);
        },
        Event::MouseMove(m) => {
            lemma_parse_block_move(m, body);
        },
        Event::Wait(ms) => {
            lemma_parse_block_wait(ms, body);
        },
    }
}

proof fn lemma_parse_block_move(m: MouseEventMove, body: Seq<char>)
    ensures
        parse_events_rec(ser_event(Event::MouseMove(m)) + body) == parse_events_tail(
            ser_event(Event::MouseMove(m)) + body,
            body,
            Event::MouseMove(m),
        ),
{
    reveal_strlit("\n[[events]]\nkind = \"");
    let s = ser_event(Event::MouseMove(m)) + body;
    let header = "\n[[events]]\nkind = \""@;
    assert(header.len() == 20);
    lemma_kind_token_parses(SelKind::MouseMove);
    let after_kind = "x = "@ + dec_rep_signed(m.x as int) + "\n"@ + "y = "@ + dec_rep_signed(
        m.y as int,
    ) + "\n"@ + body;
    assert(s =~= header + esc(kind_token(SelKind::MouseMove)) + "\""@ + "\n"@ + after_kind);
    lemma_parse_quoted_line(header, kind_token(SelKind::MouseMove), after_kind);
    assert(after_kind =~= "x = "@ + (dec_rep_signed(m.x as int) + "\n"@ + ("y = "@ + (
    dec_rep_signed(m.y as int) + "\n"@ + body))));
    lemma_expect_lit(
        "x = "@,
        dec_rep_signed(m.x as int) + "\n"@ + ("y = "@ + (dec_rep_signed(m.y as int) + "\n"@
            + body)),
    );
    assert(dec_rep_signed(m.x as int) + "\n"@ + ("y = "@ + (dec_rep_signed(m.y as int) + "\n"@
        + body)) =~= dec_rep_signed(m.x as int) + "\n"@ + ("y = "@ + dec_rep_signed(m.y as int)
        + "\n"@ + body));
    lemma_parse_i64_field(m.x, "y = "@ + dec_rep_signed(m.y as int) + "\n"@ + body);
    assert("y = "@ + dec_rep_signed(m.y as int) + "\n"@ + body =~= "y = "@ + (dec_rep_signed(
        m.y as int,
    ) + "\n"@ + body));
    lemma_expect_lit("y = "@, dec_rep_signed(m.y as int) + "\n"@ + body);
    lemma_parse_i64_field(m.y, body);
    assert(parse_move_fields(after_kind) == Option::Some((MouseEventMove { x: m.x, y: m.y }, body)));
    assert(MouseEventMove { x: m.x, y: m.y } == m);
}

proof fn lemma_parse_block_wait(ms: u64, body: Seq<char>)
    ensures
        parse_events_rec(ser_event(Event::Wait(ms)) + body) == parse_events_tail(
            ser_event(Event::Wait(ms)) + body,
            body,
            Event::Wait(ms),
        ),
{
    reveal_strlit("\n[[events]]\nkind = \"");
    let s = ser_event(Event::Wait(ms)) + body;
    let header = "\n[[events]]\nkind = \""@;
    assert(header.len() == 20);
    lemma_kind_token_parses(SelKind::Wait);
    let after_kind = "ms = "@ + dec_rep(ms as nat) + "\n"@ + body;
    assert(s =~= header + esc(kind_token(SelKind::Wait)) + "\""@ + "\n"@ + after_kind);
    lemma_parse_quoted_line(header, kind_token(SelKind::Wait), after_kind);
    assert(after_kind =~= "ms = "@ + (dec_rep(ms as nat) + "\n"@ + body));
    lemma_expect_lit("ms = "@, dec_rep(ms as nat) + "\n"@ + body);
    lemma_parse_u64_field(ms, body);
}

proof fn lemma_parse_block_key(k: Key, body: Seq<char>, press: bool)
    ensures
        ({
            let e0 = if press {
                Event::KeyPress(k)
            } else {
                Event::KeyRelease(k)
            };
            parse_events_rec(ser_event(e0) + body) == parse_events_tail(
                ser_event(e0) + body,
                body,
                e0,
            )
        }),
{
    reveal_strlit("\n[[events]]\nkind = \"");
    let e0 = if press {
        Event::KeyPress(k)
    } else {
        Event::KeyRelease(k)
    };
    let kk = if press {
        SelKind::KeyPress
    } else {
        SelKind::KeyRelease
    };
    let s = ser_event(e0) + body;
    let header = "\n[[events]]\nkind = \""@;
    assert(header.len() == 20);
    lemma_kind_token_parses(kk);
    lemma_key_name_roundtrip(k);
    let after_kind = "key = \""@ + esc(spec_key_name(k)) + "\""@ + "\n"@ + body;
    assert(s =~= header + esc(kind_token(kk)) + "\""@ + "\n"@ + after_kind);
    lemma_parse_quoted_line(header, kind_token(kk), after_kind);
    assert(after_kind =~= "key = \""@ + esc(spec_key_name(k)) + "\""@ + "\n"@ + body);
    lemma_parse_quoted_line("key = \""@, spec_key_name(k), body);
}

proof fn lemma_parse_block_mouse(m: MouseEventButton, body: Seq<char>, press: bool)
    ensures
        ({
            let e0 = if press {
                Event::MousePress(m)
            } else {
                Event::MouseRelease(m)
            };
            parse_events_rec(ser_event(e0) + body) == parse_events_tail(
                ser_event(e0) + body,
                body,
                e0,
            )
        }),
{
    reveal_strlit("\n[[events]]\nkind = \"");
    let e0 = if press {
        Event::MousePress(m)
    } else {
        Event::MouseRelease(m)
    };
    let kk = if press {
        SelKind::MousePress
    } else {
        SelKind::MouseRelease
    };
    let s = ser_event(e0) + body;
    let header = "\n[[events]]\nkind = \""@;
    assert(header.len() == 20);
    lemma_kind_token_parses(kk);
    let after_kind = "x = "@ + dec_rep_signed(m.x as int) + "\n"@ + "y = "@ + dec_rep_signed(
        m.y as int,
    ) + "\n"@ + "button = \""@ + esc(spec_button_name(m.button)) + "\""@ + "\n"@ + body;
    assert(s =~= header + esc(kind_token(kk)) + "\""@ + "\n"@ + after_kind);
    lemma_parse_quoted_line(header, kind_token(kk), after_kind);
    lemma_parse_mouse_fields(m, body);
}

/// Parsing reads back exactly the serialized event sections.
proof fn lemma_parse_ser_events(evs: Seq<Event>)
    ensures
        parse_events_rec(ser_events(evs)) == Option::Some(evs),
    decreases evs.len(),
{
    if evs.len() == 0 {
        assert(ser_events(evs).len() == 0);
    } else {
        let e0 = evs[0];
        let tail = evs.subrange(1, evs.len() as int);
        lemma_parse_ser_events(tail);
        let body = ser_events(tail);
        let s = ser_events(evs);
        assert(s == ser_event(e0) + body);
        lemma_parse_block(e0, body);
        assert(body.len() < s.len());
        assert(parse_events_tail(s, body, e0) == Option::Some(seq![e0] + tail));
        assert(seq![e0] + tail =~= evs);
    }
}

proof fn lemma_parse_mouse_fields(m: MouseEventButton, rest: Seq<char>)
    ensures
        parse_mouse_fields(
            "x = "@ + dec_rep_signed(m.x as int) + "\n"@ + "y = "@ + dec_rep_signed(m.y as int)
                + "\n"@ + "button = \""@ + esc(spec_button_name(m.button)) + "\""@ + "\n"@ + rest,
        ) == Option::Some((m, rest)),
{
    lemma_button_name_roundtrip(m.button);
    let s = "x = "@ + dec_rep_signed(m.x as int) + "\n"@ + "y = "@ + dec_rep_signed(m.y as int)
        + "\n"@ + "button = \""@ + esc(spec_button_name(m.button)) + "\""@ + "\n"@ + rest;
    let bline = "button = \""@ + esc(spec_button_name(m.button)) + "\""@ + "\n"@ + rest;
    let yrest = dec_rep_signed(m.y as int) + "\n"@ + bline;
    let xrest = dec_rep_signed(m.x as int) + "\n"@ + ("y = "@ + yrest);
    assert(s =~= "x = "@ + xrest);
    lemma_expect_lit("x = "@, xrest);
    assert(xrest =~= dec_rep_signed(m.x as int) + "\n"@ + ("y = "@ + yrest));
    lemma_parse_i64_field(m.x, "y = "@ + yrest);
    lemma_expect_lit("y = "@, yrest);
    lemma_parse_i64_field(m.y, bline);
    assert(bline =~= "button = \""@ + esc(spec_button_name(m.button)) + "\""@ + "\n"@ + rest);
    lemma_parse_quoted_line("button = \""@, spec_button_name(m.button), rest);
}

/// Round trip: the stored text of any macro parses back to exactly that
/// macro, description and event order alike.
pub proof fn lemma_store_roundtrip(d: Seq<char>, evs: Seq<Event>)
    ensures
        spec_parse_macro(ser_macro(d, evs)) == Option::Some((d, evs)),
{
    let s = ser_macro(d, evs);
    assert(s =~= "description = \""@ + esc(d) + "\""@ + "\n"@ + ser_events(evs));
    lemma_parse_quoted_line("description = \""@, d, ser_events(evs));
    lemma_parse_ser_events(evs);
}

proof fn lemma_esc_snoc(t: Seq<char>, c: char)
    ensures
        esc(t.push(c)) == esc(t) + esc_char(c),
    decreases t.len(),
{
    if t.len() == 0 {
        assert(t =~= Seq::<char>::empty());
        assert(esc(t) == Seq::<char>::empty());
        assert(t.push(c)[0] == c);
        assert(t.push(c).subrange(1, 1) =~= t);
        assert(esc(t.push(c)) == esc_char(c) + esc(t));
        assert(esc_char(c) + esc(t) =~= esc(t) + esc_char(c));
    } else {
        assert(t.push(c).subrange(1, t.len() as int + 1) =~= t.subrange(1, t.len() as int).push(c));
        lemma_esc_snoc(t.subrange(1, t.len() as int), c);
        assert(t.push(c)[0] == t[0]);
        assert(esc_char(t[0]) + (esc(t.subrange(1, t.len() as int)) + esc_char(c)) =~= (esc_char(
            t[0],
        ) + esc(t.subrange(1, t.len() as int))) + esc_char(c));
    }
}

proof fn lemma_ser_events_snoc(a: Seq<Event>, e: Event)
    ensures
        ser_events(a.push(e)) == ser_events(a) + ser_event(e),
    decreases a.len(),
{
    if a.len() == 0 {
        assert(a =~= Seq::<Event>::empty());
        assert(ser_events(a) == Seq::<char>::empty());
        assert(a.push(e)[0] == e);
        assert(a.push(e).subrange(1, 1) =~= a);
        assert(ser_events(a.push(e)) == ser_event(e) + ser_events(a));
        assert(ser_event(e) + ser_events(a) =~= ser_events(a) + ser_event(e));
    } else {
        assert(a.push(e).subrange(1, a.len() as int + 1) =~= a.subrange(1, a.len() as int).push(e));
        lemma_ser_events_snoc(a.subrange(1, a.len() as int), e);
        assert(a.push(e)[0] == a[0]);
        assert(ser_event(a[0]) + (ser_events(a.subrange(1, a.len() as int)) + ser_event(e)) =~= (
        ser_event(a[0]) + ser_events(a.subrange(1, a.len() as int))) + ser_event(e));
    }
}

/// Appends the escaped form of `s`.
fn push_escaped(out: &mut String, s: &str)
    ensures
        final(out)@ == old(out)@ + esc(s@),
{
    let n = s.unicode_len();
    let mut i: usize = 0;
    proof {
        assert(s@.take(0) =~= Seq::<char>::empty());
        assert(out@ + esc(s@.take(0)) =~= out@);
    }
    while i < n
        invariant
            i <= n,
            n == s@.len(),
            out@ == old(out)@ + esc(s@.take(i as int)),
        decreases n - i,
    {
        let c = s.get_char(i);
        if c == '\\' {
            push_char(out, '\\');
            push_char(out, '\\');
        } else if c == '"' {
            push_char(out, '\\');
            push_char(out, '"');
        } else if c == '\n' {
            push_char(out, '\\');
            push_char(out, 'n');
        } else {
            push_char(out, c);
        }
        proof {
            assert(s@.take(i + 1) =~= s@.take(i as int).push(s@[i as int]));
            lemma_esc_snoc(s@.take(i as int), s@[i as int]);
            assert(out@ =~= old(out)@ + esc(s@.take(i + 1)));
        }
        i += 1;
    }
    proof {
        assert(s@.take(n as int) =~= s@);
    }
}

/// Appends `prefix`, the quoted escaped content, and the line end.
fn push_quoted_line(out: &mut String, prefix: &str, content: &str)
    ensures
        final(out)@ == old(out)@ + prefix@ + esc(content@) + "\""@ + "\n"@,
{
    out.append(prefix);
    push_escaped(out, content);
    out.append("\"");
    out.append("\n");
}

#[verifier::rlimit(100)]
fn push_event(out: &mut String, ev: &Event)
    ensures
        final(out)@ == old(out)@ + ser_event(*ev),
{
    match ev {
        Event::KeyPress(k) => {
            let name = key_name(k);
            push_quoted_line(out, "\n[[events]]\nkind = \"", "key_press");
            push_quoted_line(out, "key = \"", name.as_str());
            proof {
                assert(out@ =~= old(out)@ + ser_event(*ev));
            }
        },
        Event::KeyRelease(k) => {
            let name = key_name(k);
            push_quoted_line(out, "\n[[events]]\nkind = \"", "key_release");
            push_quoted_line(out, "key = \"", name.as_str());
            proof {
                assert(out@ =~= old(out)@ + ser_event(*ev));
            }
        },
        Event::MousePress(m) => {
            let bname = button_name(&m.button);
            push_quoted_line(out, "\n[[events]]\nkind = \"", "mouse_press");
            out.append("x = ");
            let xs = i64_to_string(m.x);
            out.append(xs.as_str());
            out.append("\n");
            out.append("y = ");
            let ys = i64_to_string(m.y);
            out.append(ys.as_str());
            out.append("\n");
            push_quoted_line(out, "button = \"", bname.as_str());
            proof {
                assert(out@ =~= old(out)@ + ser_event(*ev));
            }
        },
        Event::MouseRelease(m) => {
            let bname = button_name(&m.button);
            push_quoted_line(out, "\n[[events]]\nkind = \"", "mouse_release");
            out.append("x = ");
            let xs = i64_to_string(m.x);
            out.append(xs.as_str());
            out.append("\n");
            out.append("y = ");
            let ys = i64_to_string(m.y);
            out.append(ys.as_str());
            out.append("\n");
            push_quoted_line(out, "button = \"", bname.as_str());
            proof {
                assert(out@ =~= old(out)@ + ser_event(*ev));
            }
        },
        Event::MouseMove(m) => {
            push_quoted_line(out, "\n[[events]]\nkind = \"", "mouse_move");
            out.append("x = ");
            let xs = i64_to_string(m.x);
            out.append(xs.as_str());
            out.append("\n");
            out.append("y = ");
            let ys = i64_to_string(m.y);
            out.append(ys.as_str());
            out.append("\n");
            proof {
                assert(out@ =~= old(out)@ + ser_event(*ev));
            }
        },
        Event::Wait(ms) => {
            push_quoted_line(out, "\n[[events]]\nkind = \"", "wait");
            out.append("ms = ");
            let ts = u64_to_string(*ms);
            out.append(ts.as_str());
            out.append("\n");
            proof {
                assert(out@ =~= old(out)@ + ser_event(*ev));
            }
        },
    }
}

/// The stored text of a macro, ready to write to its file.
pub fn serialize_macro(m: &Macro) -> (out: String)
    ensures
        out@ == ser_macro(m.description@, m.events@),
{
    let mut out = String::new();
    push_quoted_line(&mut out, "description = \"", m.description.as_str());
    let n = m.events.len();
    let mut i: usize = 0;
    proof {
        assert(m.events@.take(0) =~= Seq::<Event>::empty());
        assert(out@ + ser_events(m.events@.take(0)) =~= out@);
        assert(out@ =~= "description = \""@ + esc(m.description@) + "\""@ + "\n"@);
    }
    let ghost head = out@;
    while i < n
        invariant
            i <= n,
            n == m.events@.len(),
            head == "description = \""@ + esc(m.description@) + "\""@ + "\n"@,
            out@ == head + ser_events(m.events@.take(i as int)),
        decreases n - i,
    {
        push_event(&mut out, &m.events[i]);
        proof {
            assert(m.events@.take(i + 1) =~= m.events@.take(i as int).push(m.events@[i as int]));
            lemma_ser_events_snoc(m.events@.take(i as int), m.events@[i as int]);
            assert(out@ =~= head + ser_events(m.events@.take(i + 1)));
        }
        i += 1;
    }
    proof {
        assert(m.events@.take(n as int) =~= m.events@);
        assert(out@ =~= ser_macro(m.description@, m.events@));
    }
    out
}

/// The rest of the text from position `p` on.
pub open spec fn suffix(s: Seq<char>, p: int) -> Seq<char> {
    s.subrange(p, s.len() as int)
}

fn expect_lit_at(s: &str, pos: usize, lit: &str) -> (r: Option<usize>)
    requires
        pos <= s@.len(),
    ensures
        match r {
            Option::Some(p2) => pos <= p2 <= s@.len() && p2 - pos == lit@.len() && expect_lit(
                suffix(s@, pos as int),
                lit@,
            ) == Option::Some(suffix(s@, p2 as int)),
            Option::None => expect_lit(suffix(s@, pos as int), lit@) is None,
        },
{
    let n = s.unicode_len();
    let ll = lit.unicode_len();
    if ll > n - pos {
        return Option::None;
    }
    let sub = s.substring_char(pos, pos + ll);
    if str_eq(sub, lit) {
        proof {
            assert(suffix(s@, pos as int).take(ll as int) =~= s@.subrange(
                pos as int,
                pos + ll as int,
            ));
            assert(suffix(s@, pos + ll as int) =~= suffix(s@, pos as int).subrange(
                ll as int,
                suffix(s@, pos as int).len() as int,
            ));
        }
        Option::Some(pos + ll)
    } else {
        proof {
            assert(suffix(s@, pos as int).take(ll as int) =~= s@.subrange(
                pos as int,
                pos + ll as int,
            ));
        }
        Option::None
    }
}

fn unquote_at(s: &str, pos: usize) -> (r: Option<(String, usize)>)
    requires
        pos <= s@.len(),
    ensures
        match r {
            Option::Some(t) => pos < t.1 <= s@.len() && unquote(suffix(s@, pos as int))
                == Option::Some((t.0@, suffix(s@, t.1 as int))),
            Option::None => unquote(suffix(s@, pos as int)) is None,
        },
{
    let n = s.unicode_len();
    let mut cur: usize = pos;
    let mut out = String::new();
    while cur < n
        invariant
            pos <= cur <= n,
            n == s@.len(),
            unquote(suffix(s@, pos as int)) == (match unquote(suffix(s@, cur as int)) {
                Option::Some(t) => Option::<(Seq<char>, Seq<char>)>::Some((out@ + t.0, t.1)),
                Option::None => Option::<(Seq<char>, Seq<char>)>::None,
            }),
        decreases n - cur,
    {
        let c = s.get_char(cur);
        let ghost pre = suffix(s@, cur as int);
        proof {
            assert(pre[0] == s@[cur as int]);
        }
        if c == '"' {
            proof {
                assert(pre.subrange(1, pre.len() as int) =~= suffix(s@, cur + 1));
                assert(unquote(pre) == Option::Some(
                    (Seq::<char>::empty(), suffix(s@, cur + 1)),
                ));
                assert(out@ + Seq::<char>::empty() =~= out@);
            }
            return Option::Some((out, cur + 1));
        } else if c == '\\' {
            if cur + 1 >= n {
                proof {
                    assert(pre.len() < 2);
                }
                return Option::None;
            }
            let c2 = s.get_char(cur + 1);
            proof {
                assert(pre[1] == s@[cur + 1]);
                assert(pre.subrange(2, pre.len() as int) =~= suffix(s@, cur + 2));
            }
            let ch: char;
            if c2 == '\\' {
                ch = '\\';
            } else if c2 == '"' {
                ch = '"';
            } else if c2 == 'n' {
                ch = '\n';
            } else {
                return Option::None;
            }
            let ghost out0 = out@;
            push_char(&mut out, ch);
            proof {
                assert(unquote(pre) == (match unquote(suffix(s@, cur + 2)) {
                    Option::Some(t) => Option::<(Seq<char>, Seq<char>)>::Some(
                        (seq![ch] + t.0, t.1),
                    ),
                    Option::None => Option::<(Seq<char>, Seq<char>)>::None,
                }));
                assert forall|t0: Seq<char>| out0 + (seq![ch] + t0) =~= #[trigger] (out@ + t0) by {
                    assert(out@ =~= out0.push(ch));
                }
            }
            cur += 2;
        } else {
            let ghost out0 = out@;
            push_char(&mut out, c);
            proof {
                assert(pre.subrange(1, pre.len() as int) =~= suffix(s@, cur + 1));
                assert(unquote(pre) == (match unquote(suffix(s@, cur + 1)) {
                    Option::Some(t) => Option::<(Seq<char>, Seq<char>)>::Some(
                        (seq![pre[0]] + t.0, t.1),
                    ),
                    Option::None => Option::<(Seq<char>, Seq<char>)>::None,
                }));
                assert forall|t0: Seq<char>| out0 + (seq![pre[0]] + t0) =~= #[trigger] (out@
                    + t0) by {
                    assert(out@ =~= out0.push(c));
                }
            }
            cur += 1;
        }
    }
    proof {
        assert(suffix(s@, cur as int).len() == 0);
    }
    Option::None
}

fn find_nl_from(s: &str, pos: usize) -> (j: usize)
    requires
        pos <= s@.len(),
    ensures
        pos <= j <= s@.len(),
        find_char(suffix(s@, pos as int), '\n') == j - pos,
{
    let n = s.unicode_len();
    let mut j: usize = pos;
    while j < n
        invariant
            pos <= j <= n,
            n == s@.len(),
            forall|t: int| pos <= t < j ==> s@[t] != '\n',
        decreases n - j,
    {
        if s.get_char(j) == '\n' {
            proof {
                assert forall|t: int| 0 <= t < j - pos implies suffix(s@, pos as int)[t]
                    != '\n' by {
                    assert(suffix(s@, pos as int)[t] == s@[pos + t]);
                }
                assert(suffix(s@, pos as int)[j - pos] == '\n');
                lemma_find_char_at(suffix(s@, pos as int), '\n', j - pos);
            }
            return j;
        }
        j += 1;
    }
    proof {
        assert forall|t: int| 0 <= t < n - pos implies suffix(s@, pos as int)[t] != '\n' by {
            assert(suffix(s@, pos as int)[t] == s@[pos + t]);
        }
        lemma_find_char_at(suffix(s@, pos as int), '\n', n - pos);
    }
    j
}

fn parse_u64_at(s: &str, pos: usize) -> (r: Option<(u64, usize)>)
    requires
        pos <= s@.len(),
    ensures
        match r {
            Option::Some(t) => pos < t.1 <= s@.len() && parse_u64_field(suffix(s@, pos as int))
                == Option::Some((t.0, suffix(s@, t.1 as int))),
            Option::None => parse_u64_field(suffix(s@, pos as int)) is None,
        },
{
    let n = s.unicode_len();
    let j = find_nl_from(s, pos);
    let ghost sfx = suffix(s@, pos as int);
    if j == n {
        proof {
            assert(find_char(sfx, '\n') == sfx.len());
        }
        return Option::None;
    }
    proof {
        assert(sfx.take(j - pos) =~= s@.subrange(pos as int, j as int));
        assert(sfx.subrange(j - pos + 1, sfx.len() as int) =~= suffix(s@, j + 1));
    }
    match parse_digits_u64(s, pos, j, u64::MAX) {
        Option::Some(v) => Option::Some((v, j + 1)),
        Option::None => Option::None,
    }
}

fn parse_i64_at(s: &str, pos: usize) -> (r: Option<(i64, usize)>)
    requires
        pos <= s@.len(),
    ensures
        match r {
            Option::Some(t) => pos < t.1 <= s@.len() && parse_i64_field(suffix(s@, pos as int))
                == Option::Some((t.0, suffix(s@, t.1 as int))),
            Option::None => parse_i64_field(suffix(s@, pos as int)) is None,
        },
{
    let n = s.unicode_len();
    let j = find_nl_from(s, pos);
    let ghost sfx = suffix(s@, pos as int);
    if j == n {
        proof {
            assert(find_char(sfx, '\n') == sfx.len());
        }
        return Option::None;
    }
    proof {
        assert(sfx.take(j - pos) =~= s@.subrange(pos as int, j as int));
        assert(sfx.subrange(j - pos + 1, sfx.len() as int) =~= suffix(s@, j + 1));
    }
    let ghost ds = sfx.take(j - pos);
    if pos < j && s.get_char(pos) == '-' {
        proof {
            assert(ds[0] == s@[pos as int]);
            assert(ds.subrange(1, ds.len() as int) =~= s@.subrange(pos as int + 1, j as int));
        }
        match parse_digits_u64(s, pos + 1, j, 0x8000_0000_0000_0000) {
            Option::Some(v) => {
                let x: i64 = (-(v as i128)) as i64;
                proof {
                    assert(x as int == 0 - digits_val(s@.subrange(pos as int + 1, j as int)) as int);
                }
                Option::Some((x, j + 1))
            },
            Option::None => Option::None,
        }
    } else {
        proof {
            if pos < j {
                assert(ds[0] == s@[pos as int]);
            }
        }
        match parse_digits_u64(s, pos, j, 0x7fff_ffff_ffff_ffff) {
            Option::Some(v) => Option::Some((v as i64, j + 1)),
            Option::None => {
                proof {
                    if ds.len() > 0 && ds[0] == '-' {
                    } else {
                    }
                }
                Option::None
            },
        }
    }
}

fn parse_quoted_line_at(s: &str, pos: usize, prefix: &str) -> (r: Option<(String, usize)>)
    requires
        pos <= s@.len(),
    ensures
        match r {
            Option::Some(t) => pos < t.1 <= s@.len() && parse_quoted_line(
                suffix(s@, pos as int),
                prefix@,
            ) == Option::Some((t.0@, suffix(s@, t.1 as int))),
            Option::None => parse_quoted_line(suffix(s@, pos as int), prefix@) is None,
        },
{
    let p1 = match expect_lit_at(s, pos, prefix) {
        Option::Some(p1) => p1,
        Option::None => {
            return Option::None;
        },
    };
    let (content, p2) = match unquote_at(s, p1) {
        Option::Some(t) => t,
        Option::None => {
            return Option::None;
        },
    };
    match expect_lit_at(s, p2, "\n") {
        Option::Some(p3) => Option::Some((content, p3)),
        Option::None => Option::None,
    }
}

fn parse_mouse_fields_at(s: &str, pos: usize) -> (r: Option<(MouseEventButton, usize)>)
    requires
        pos <= s@.len(),
    ensures
        match r {
            Option::Some(t) => pos < t.1 <= s@.len() && parse_mouse_fields(suffix(s@, pos as int))
                == Option::Some((t.0, suffix(s@, t.1 as int))),
            Option::None => parse_mouse_fields(suffix(s@, pos as int)) is None,
        },
{
    let p1 = match expect_lit_at(s, pos, "x = ") {
        Option::Some(p) => p,
        Option::None => {
            return Option::None;
        },
    };
    let (x, p2) = match parse_i64_at(s, p1) {
        Option::Some(t) => t,
        Option::None => {
            return Option::None;
        },
    };
    let p3 = match expect_lit_at(s, p2, "y = ") {
        Option::Some(p) => p,
        Option::None => {
            return Option::None;
        },
    };
    let (y, p4) = match parse_i64_at(s, p3) {
        Option::Some(t) => t,
        Option::None => {
            return Option::None;
        },
    };
    let (bname, p5) = match parse_quoted_line_at(s, p4, "button = \"") {
        Option::Some(t) => t,
        Option::None => {
            return Option::None;
        },
    };
    match button_from_name(bname.as_str()) {
        Option::Some(b) => Option::Some((MouseEventButton { x, y, button: b }, p5)),
        Option::None => Option::None,
    }
}

fn parse_move_fields_at(s: &str, pos: usize) -> (r: Option<(MouseEventMove, usize)>)
    requires
        pos <= s@.len(),
    ensures
        match r {
            Option::Some(t) => pos < t.1 <= s@.len() && parse_move_fields(suffix(s@, pos as int))
                == Option::Some((t.0, suffix(s@, t.1 as int))),
            Option::None => parse_move_fields(suffix(s@, pos as int)) is None,
        },
{
    let p1 = match expect_lit_at(s, pos, "x = ") {
        Option::Some(p) => p,
        Option::None => {
            return Option::None;
        },
    };
    let (x, p2) = match parse_i64_at(s, p1) {
        Option::Some(t) => t,
        Option::None => {
            return Option::None;
        },
    };
    let p3 = match expect_lit_at(s, p2, "y = ") {
        Option::Some(p) => p,
        Option::None => {
            return Option::None;
        },
    };
    match parse_i64_at(s, p3) {
        Option::Some((y, p4)) => Option::Some((MouseEventMove { x, y }, p4)),
        Option::None => Option::None,
    }
}

#[verifier::rlimit(100)]
fn parse_events_at(s: &str, pos: usize) -> (r: Option<Vec<Event>>)
    requires
        pos <= s@.len(),
    ensures
        match r {
            Option::Some(v) => parse_events_rec(suffix(s@, pos as int)) == Option::Some(v@),
            Option::None => parse_events_rec(suffix(s@, pos as int)) is None,
        },
{
    let n = s.unicode_len();
    let ghost target = parse_events_rec(suffix(s@, pos as int));
    let mut acc: Vec<Event> = Vec::new();
    let mut cur: usize = pos;
    proof {
        assert(acc@ =~= Seq::<Event>::empty());
    }
    while cur < n
        invariant
            pos <= cur <= n,
            n == s@.len(),
            target == parse_events_rec(suffix(s@, pos as int)),
            target == (match parse_events_rec(suffix(s@, cur as int)) {
                Option::Some(evs) => Option::<Seq<Event>>::Some(acc@ + evs),
                Option::None => Option::<Seq<Event>>::None,
            }),
        decreases n - cur,
    {
        let ghost sfx = suffix(s@, cur as int);
        let (kname, p1) = match parse_quoted_line_at(s, cur, "\n[[events]]\nkind = \"") {
            Option::Some(t) => t,
            Option::None => {
                return Option::None;
            },
        };
        let kind = match kind_of_token(kname.as_str()) {
            Option::Some(k) => k,
            Option::None => {
                return Option::None;
            },
        };
        let (ev, p2): (Event, usize) = match kind {
            SelKind::KeyPress => {
                let (name, q) = match parse_quoted_line_at(s, p1, "key = \"") {
                    Option::Some(t) => t,
                    Option::None => {
                        return Option::None;
                    },
                };
                match key_from_name(name.as_str()) {
                    Option::Some(key) => (Event::KeyPress(key), q),
                    Option::None => {
                        return Option::None;
                    },
                }
            },
            SelKind::KeyRelease => {
                let (name, q) = match parse_quoted_line_at(s, p1, "key = \"") {
                    Option::Some(t) => t,
                    Option::None => {
                        return Option::None;
                    },
                };
                match key_from_name(name.as_str()) {
                    Option::Some(key) => (Event::KeyRelease(key), q),
                    Option::None => {
                        return Option::None;
                    },
                }
            },
            SelKind::MousePress => {
                match parse_mouse_fields_at(s, p1) {
                    Option::Some((m, q)) => (Event::MousePress(m), q),
                    Option::None => {
                        return Option::None;
                    },
                }
            },
            SelKind::MouseRelease => {
                match parse_mouse_fields_at(s, p1) {
                    Option::Some((m, q)) => (Event::MouseRelease(m), q),
                    Option::None => {
                        return Option::None;
                    },
                }
            },
            SelKind::MouseMove => {
                match parse_move_fields_at(s, p1) {
                    Option::Some((m, q)) => (Event::MouseMove(m), q),
                    Option::None => {
                        return Option::None;
                    },
                }
            },
            SelKind::Wait => {
                let q0 = match expect_lit_at(s, p1, "ms = ") {
                    Option::Some(p) => p,
                    Option::None => {
                        return Option::None;
                    },
                };
                match parse_u64_at(s, q0) {
                    Option::Some((ms, q)) => (Event::Wait(ms), q),
                    Option::None => {
                        return Option::None;
                    },
                }
            },
        };
        proof {
            assert(suffix(s@, p2 as int).len() < sfx.len());
            assert(parse_events_rec(sfx) == parse_events_tail(sfx, suffix(s@, p2 as int), ev));
            assert(parse_events_tail(sfx, suffix(s@, p2 as int), ev) == (
            match parse_events_rec(suffix(s@, p2 as int)) {
                Option::Some(evs) => Option::<Seq<Event>>::Some(seq![ev] + evs),
                Option::None => Option::<Seq<Event>>::None,
            }));
        }
        let ghost acc0 = acc@;
        acc.push(ev);
        proof {
            assert forall|evs: Seq<Event>| acc0 + (seq![ev] + evs) =~= #[trigger] (acc@ + evs) by {
                assert(acc@ =~= acc0.push(ev));
            }
        }
        cur = p2;
    }
    proof {
        assert(suffix(s@, cur as int).len() == 0);
        assert(parse_events_rec(suffix(s@, cur as int)) == Option::Some(Seq::<Event>::empty()));
        assert(acc@ + Seq::<Event>::empty() =~= acc@);
    }
    Option::Some(acc)
}

/// Reads a stored macro back from its text. A file that does not parse
/// into the schema is rejected as corrupt.
pub fn parse_macro(s: &str) -> (r: Result<Macro, StoreError>)
    ensures
        match r {
            Result::Ok(m) => spec_parse_macro(s@) == Option::Some((m.description@, m.events@)),
            Result::Err(e) => e == StoreError::Corrupt && spec_parse_macro(s@) is None,
        },
{
    proof {
        assert(suffix(s@, 0) =~= s@);
    }
    let (d, p1) = match parse_quoted_line_at(s, 0, "description = \"") {
        Option::Some(t) => t,
        Option::None => {
            return Result::Err(StoreError::Corrupt);
        },
    };
    match parse_events_at(s, p1) {
        Option::Some(events) => Result::Ok(Macro { description: d, events }),
        Option::None => Result::Err(StoreError::Corrupt),
    }
}

pub open spec fn is_ws(c: char) -> bool {
    c == ' ' || c == '\t' || c == '\r'
}

pub open spec fn trim_front(s: Seq<char>) -> Seq<char>
    decreases s.len(),
{
    if s.len() > 0 && is_ws(s[0]) {
        trim_front(s.subrange(1, s.len() as int))
    } else {
        s
    }
}

pub open spec fn trim_back(s: Seq<char>) -> Seq<char>
    decreases s.len(),
{
    if s.len() > 0 && is_ws(s.last()) {
        trim_back(s.drop_last())
    } else {
        s
    }
}

/// A line with its surrounding blanks removed, as the marker test reads it.
pub open spec fn spec_trim_line(s: Seq<char>) -> Seq<char> {
    trim_back(trim_front(s))
}

/// The 1-based number of the line holding the section marker of the
/// event with the given remaining ordinal, scanning from `line_no`.
pub open spec fn spec_esl_rec(s: Seq<char>, target: nat, line_no: nat) -> Option<nat>
    decreases s.len(),
{
    if s.len() == 0 {
        Option::None
    } else {
        let j = find_char(s, '\n');
        let line = s.take(j);
        let marker = spec_trim_line(line) == "[[events]]"@;
        if marker && target == 0 {
            Option::Some(line_no)
        } else {
            let target2 = if marker {
                (target - 1) as nat
            } else {
                target
            };
            if 0 <= j < s.len() {
                spec_esl_rec(s.subrange(j + 1, s.len() as int), target2, line_no + 1)
            } else {
                Option::None
            }
        }
    }
}

/// The 1-based line number where the event with the given 0-based index
/// starts in the stored text: the line of its section marker.
pub open spec fn spec_event_start_line(s: Seq<char>, idx: nat) -> Option<nat> {
    spec_esl_rec(s, idx, 1)
}

proof fn lemma_trim_front_at(s: Seq<char>, a: int)
    requires
        0 <= a <= s.len(),
        forall|t: int| 0 <= t < a ==> is_ws(s[t]),
        a < s.len() ==> !is_ws(s[a]),
    ensures
        trim_front(s) == s.subrange(a, s.len() as int),
    decreases a,
{
    if a == 0 {
        if s.len() > 0 && is_ws(s[0]) {
            assert(false);
        }
        assert(s.subrange(0, s.len() as int) =~= s);
    } else {
        assert(is_ws(s[0]));
        let t = s.subrange(1, s.len() as int);
        lemma_trim_front_at(t, a - 1);
        assert(t.subrange(a - 1, t.len() as int) =~= s.subrange(a, s.len() as int));
    }
}

proof fn lemma_trim_back_at(s: Seq<char>, b: int)
    requires
        -1 <= b < s.len(),
        forall|t: int| b < t < s.len() ==> is_ws(s[t]),
        b >= 0 ==> !is_ws(s[b]),
    ensures
        trim_back(s) == s.take(b + 1),
    decreases s.len() - b,
{
    if b == s.len() - 1 {
        assert(s.take(b + 1) =~= s);
    } else {
        assert(is_ws(s.last()));
        lemma_trim_back_at(s.drop_last(), b);
        assert(s.drop_last().take(b + 1) =~= s.take(b + 1));
    }
}

fn is_ws_exec(c: char) -> (r: bool)
    ensures
        r == is_ws(c),
{
    c == ' ' || c == '\t' || c == '\r'
}

fn scan_non_ws_fwd(s: &str, pos: usize, j: usize) -> (a: usize)
    requires
        pos <= j <= s@.len(),
    ensures
        pos <= a <= j,
        forall|t: int| pos <= t < a ==> is_ws(s@[t]),
        a < j ==> !is_ws(s@[a as int]),
{
    let mut a: usize = pos;
    while a < j
        invariant
            pos <= a <= j <= s@.len(),
            forall|t: int| pos <= t < a ==> is_ws(s@[t]),
        decreases j - a,
    {
        let c = s.get_char(a);
        if !is_ws_exec(c) {
            return a;
        }
        a += 1;
    }
    a
}

fn scan_non_ws_back(s: &str, a: usize, j: usize) -> (b: usize)
    requires
        a < j <= s@.len(),
    ensures
        a <= b < j,
        forall|t: int| b < t < j ==> is_ws(s@[t]),
        is_ws(s@[b as int]) ==> b == a,
{
    let mut b: usize = j - 1;
    while b > a
        invariant
            a <= b < j <= s@.len(),
            forall|t: int| b < t < j ==> is_ws(s@[t]),
        decreases b,
    {
        let c = s.get_char(b);
        if !is_ws_exec(c) {
            return b;
        }
        b -= 1;
    }
    b
}

/// Whether the line `[pos, j)` of `s`, blanks removed, is the section marker.
fn line_is_marker(s: &str, pos: usize, j: usize) -> (r: bool)
    requires
        pos <= j <= s@.len(),
    ensures
        r == (spec_trim_line(s@.subrange(pos as int, j as int)) == "[[events]]"@),
{
    let ghost line = s@.subrange(pos as int, j as int);
    proof {
        reveal_strlit("[[events]]");
    }
    let a = scan_non_ws_fwd(s, pos, j);
    proof {
        assert forall|t: int| 0 <= t < a - pos implies is_ws(line[t]) by {
            assert(line[t] == s@[pos + t]);
        }
    }
    if a == j {
        proof {
            lemma_trim_front_at(line, line.len() as int);
            assert(line.subrange(line.len() as int, line.len() as int) =~= Seq::<char>::empty());
            assert(trim_back(Seq::<char>::empty()) == Seq::<char>::empty());
            assert(("[[events]]"@).len() == 10);
        }
        return false;
    }
    proof {
        assert(!is_ws(s@[a as int]));
        assert(line[a - pos] == s@[a as int]);
        lemma_trim_front_at(line, a - pos);
    }
    let b = scan_non_ws_back(s, a, j);
    proof {
        assert(!is_ws(s@[b as int]));
    }
    let ghost tf = line.subrange(a - pos, line.len() as int);
    proof {
        assert forall|t: int| b - a < t < tf.len() implies is_ws(tf[t]) by {
            assert(tf[t] == s@[a + t]);
        }
        assert(tf[b - a] == s@[b as int]);
        lemma_trim_back_at(tf, b - a);
        assert(tf.take(b - a + 1) =~= s@.subrange(a as int, b + 1));
    }
    let sub = s.substring_char(a, b + 1);
    str_eq(sub, "[[events]]")
}

/// The 1-based line number of the section marker that opens the event
/// with the given 0-based index, in the stored text.
pub fn event_start_line(contents: &str, zero_based_index: usize) -> (r: Option<usize>)
    requires
        contents@.len() < usize::MAX,
    ensures
        match r {
            Option::Some(ln) => spec_event_start_line(contents@, zero_based_index as nat)
                == Option::Some(ln as nat),
            Option::None => spec_event_start_line(contents@, zero_based_index as nat) is None,
        },
{
    let n = contents.unicode_len();
    let ghost target0 = spec_event_start_line(contents@, zero_based_index as nat);
    let mut pos: usize = 0;
    let mut line_no: usize = 1;
    let mut remaining = zero_based_index;
    proof {
        assert(suffix(contents@, 0) =~= contents@);
    }
    while pos < n
        invariant
            pos <= n,
            n == contents@.len(),
            n < usize::MAX,
            1 <= line_no <= pos + 1,
            target0 == spec_event_start_line(contents@, zero_based_index as nat),
            target0 == spec_esl_rec(suffix(contents@, pos as int), remaining as nat, line_no as nat),
        decreases n - pos,
    {
        let ghost sfx = suffix(contents@, pos as int);
        let j = find_nl_from(contents, pos);
        proof {
            assert(sfx.take(j - pos) =~= contents@.subrange(pos as int, j as int));
        }
        let marker = line_is_marker(contents, pos, j);
        if marker && remaining == 0 {
            return Option::Some(line_no);
        }
        let rem2 = if marker {
            remaining - 1
        } else {
            remaining
        };
        if j == n {
            proof {
                assert(find_char(sfx, '\n') == sfx.len());
            }
            return Option::None;
        }
        proof {
            assert(sfx.subrange(j - pos + 1, sfx.len() as int) =~= suffix(contents@, j + 1));
        }
        pos = j + 1;
        line_no += 1;
        remaining = rem2;
    }
    proof {
        assert(suffix(contents@, pos as int).len() == 0);
    }
    Option::None
}

} // verus!
