//! Rendering a JSON document as text.
//!
//! The control plane writes one JSON document per line on its socket, and the
//! tool protocol both writes its replies and shows forwarded documents to the
//! caller.  Two renderings exist: the compact one, everything on one line
//! with no spaces, framing a wire message; and the pretty one, one item per
//! line with two-space indentation, shown to a human.

use vstd::prelude::*;

use crate::json::{Json, JsonView};

verus! {

/// The hexadecimal digit of a value below sixteen, lower case.
pub open spec fn hex_digit(d: nat) -> char {
    if d == 0 {
        '0'
    } else if d == 1 {
        '1'
    } else if d == 2 {
        '2'
    } else if d == 3 {
        '3'
    } else if d == 4 {
        '4'
    } else if d == 5 {
        '5'
    } else if d == 6 {
        '6'
    } else if d == 7 {
        '7'
    } else if d == 8 {
        '8'
    } else if d == 9 {
        '9'
    } else if d == 10 {
        'a'
    } else if d == 11 {
        'b'
    } else if d == 12 {
        'c'
    } else if d == 13 {
        'd'
    } else if d == 14 {
        'e'
    } else {
        'f'
    }
}

/// The decimal digit of a value below ten.
pub open spec fn dec_digit(d: nat) -> char {
    hex_digit(if d < 10 {
        d
    } else {
        0
    })
}

/// The decimal text of a natural number, no sign, no leading zero but for
/// the number zero itself.
pub open spec fn nat_text(n: nat) -> Seq<char>
    decreases n,
{
    if n < 10 {
        seq![dec_digit(n)]
    } else {
        nat_text(n / 10) + seq![dec_digit(n % 10)]
    }
}

/// The decimal text of an integer: a minus sign ahead of the magnitude when
/// it is negative.
pub open spec fn int_text(n: int) -> Seq<char> {
    if n >= 0 {
        nat_text(n as nat)
    } else {
        seq!['-'] + nat_text((-n) as nat)
    }
}

/// How one character stands inside a JSON string literal: the quote and the
/// backslash escaped, the named control characters by letter, every other
/// control character as a four-digit escape, everything else as itself.
pub open spec fn esc_char(c: char) -> Seq<char> {
    if c == '"' {
        seq!['\\', '"']
    } else if c == '\\' {
        seq!['\\', '\\']
    } else if c == '\u{8}' {
        seq!['\\', 'b']
    } else if c == '\u{c}' {
        seq!['\\', 'f']
    } else if c == '\n' {
        seq!['\\', 'n']
    } else if c == '\r' {
        seq!['\\', 'r']
    } else if c == '\t' {
        seq!['\\', 't']
    } else if (c as u32) < 32 {
        seq!['\\', 'u', '0', '0', hex_digit((c as u32 / 16) as nat), hex_digit(
            (c as u32 % 16) as nat,
        )]
    } else {
        seq![c]
    }
}

/// The characters of a string from position `i` on, each escaped.
pub open spec fn escaped_from(s: Seq<char>, i: int) -> Seq<char>
    decreases s.len() - i,
{
    if i < 0 || i >= s.len() {
        Seq::empty()
    } else {
        esc_char(s[i]) + escaped_from(s, i + 1)
    }
}

/// The body of a JSON string literal holding `s`.
pub open spec fn escaped(s: Seq<char>) -> Seq<char> {
    escaped_from(s, 0)
}

/// A string as a JSON string literal: quoted and escaped.
pub open spec fn quoted(s: Seq<char>) -> Seq<char> {
    seq!['"'] + escaped(s) + seq!['"']
}

/// The compact text of a document: one line, no spaces.
pub open spec fn json_text(v: JsonView) -> Seq<char>
    decreases v, 0int,
{
    match v {
        JsonView::Null => seq!['n', 'u', 'l', 'l'],
        JsonView::Bool(b) => if b {
            seq!['t', 'r', 'u', 'e']
        } else {
            seq!['f', 'a', 'l', 's', 'e']
        },
        JsonView::Int(n) => int_text(n as int),
        JsonView::Num(s) => s,
        JsonView::Str(s) => quoted(s),
        JsonView::Arr(items) => seq!['['] + arr_text_from(items, 0) + seq![']'],
        JsonView::Obj(fields) => seq!['{'] + obj_text_from(fields, 0) + seq!['}'],
    }
}

/// The items of an array from position `i` on, comma-separated, compactly.
pub open spec fn arr_text_from(items: Seq<JsonView>, i: int) -> Seq<char>
    decreases items, items.len() - i + 1,
{
    if i < 0 || i >= items.len() {
        Seq::empty()
    } else {
        (if i == 0 {
            Seq::empty()
        } else {
            seq![',']
        }) + json_text(items[i]) + arr_text_from(items, i + 1)
    }
}

/// The fields of an object from position `i` on, comma-separated, compactly.
pub open spec fn obj_text_from(fields: Seq<(Seq<char>, JsonView)>, i: int) -> Seq<char>
    decreases fields, fields.len() - i + 1,
{
    if i < 0 || i >= fields.len() {
        Seq::empty()
    } else {
        (if i == 0 {
            Seq::empty()
        } else {
            seq![',']
        }) + quoted(fields[i].0) + seq![':'] + json_text(fields[i].1) + obj_text_from(
            fields,
            i + 1,
        )
    }
}

/// The pretty text of a document under the given indentation prefix: one
/// item per line, two more spaces of indent for each nesting level.
pub open spec fn json_pretty(v: JsonView, ind: Seq<char>) -> Seq<char>
    decreases v, 0int,
{
    match v {
        JsonView::Arr(items) => if items.len() == 0 {
            seq!['[', ']']
        } else {
            seq!['['] + arr_pretty_from(items, 0, ind + seq![' ', ' ']) + seq!['\n'] + ind
                + seq![']']
        },
        JsonView::Obj(fields) => if fields.len() == 0 {
            seq!['{', '}']
        } else {
            seq!['{'] + obj_pretty_from(fields, 0, ind + seq![' ', ' ']) + seq!['\n'] + ind
                + seq!['}']
        },
        _ => json_text(v),
    }
}

/// The items of an array from position `i` on, one per line, prettily.
pub open spec fn arr_pretty_from(items: Seq<JsonView>, i: int, ind: Seq<char>) -> Seq<char>
    decreases items, items.len() - i + 1,
{
    if i < 0 || i >= items.len() {
        Seq::empty()
    } else {
        (if i == 0 {
            seq!['\n']
        } else {
            seq![',', '\n']
        }) + ind + json_pretty(items[i], ind) + arr_pretty_from(items, i + 1, ind)
    }
}

/// The fields of an object from position `i` on, one per line, prettily.
pub open spec fn obj_pretty_from(fields: Seq<(Seq<char>, JsonView)>, i: int, ind: Seq<char>) -> Seq<
    char,
>
    decreases fields, fields.len() - i + 1,
{
    if i < 0 || i >= fields.len() {
        Seq::empty()
    } else {
        (if i == 0 {
            seq!['\n']
        } else {
            seq![',', '\n']
        }) + ind + quoted(fields[i].0) + seq![':', ' '] + json_pretty(fields[i].1, ind)
            + obj_pretty_from(fields, i + 1, ind)
    }
}

/// The hexadecimal digit of a value below sixteen.
fn hex_digit_char(d: u32) -> (c: char)
    requires
        d < 16,
    ensures
        c == hex_digit(d as nat),
{
    if d == 0 {
        '0'
    } else if d == 1 {
        '1'
    } else if d == 2 {
        '2'
    } else if d == 3 {
        '3'
    } else if d == 4 {
        '4'
    } else if d == 5 {
        '5'
    } else if d == 6 {
        '6'
    } else if d == 7 {
        '7'
    } else if d == 8 {
        '8'
    } else if d == 9 {
        '9'
    } else if d == 10 {
        'a'
    } else if d == 11 {
        'b'
    } else if d == 12 {
        'c'
    } else if d == 13 {
        'd'
    } else if d == 14 {
        'e'
    } else {
        'f'
    }
}

/// Appends the characters of `s` to `out` as they are.
pub fn push_str_chars(out: &mut Vec<char>, s: &str)
    ensures
        final(out)@ == old(out)@ + s@,
{
    let n = s.unicode_len();
    let mut i: usize = 0;
    while i < n
        invariant
            n == s@.len(),
            i <= n,
            out@ == old(out)@ + s@.subrange(0, i as int),
        decreases n - i,
    {
        out.push(s.get_char(i));
        proof {
            assert(old(out)@ + s@.subrange(0, i as int + 1) =~= (old(out)@ + s@.subrange(
                0,
                i as int,
            )).push(s@[i as int]));
        }
        i = i + 1;
    }
    proof {
        assert(s@.subrange(0, n as int) =~= s@);
    }
}

/// Appends one character to `out` as it stands inside a string literal.
fn push_esc_char(out: &mut Vec<char>, c: char)
    ensures
        final(out)@ == old(out)@ + esc_char(c),
{
    if c == '"' {
        out.push('\\');
        out.push('"');
    } else if c == '\\' {
        out.push('\\');
        out.push('\\');
    } else if c == '\u{8}' {
        out.push('\\');
        out.push('b');
    } else if c == '\u{c}' {
        out.push('\\');
        out.push('f');
    } else if c == '\n' {
        out.push('\\');
        out.push('n');
    } else if c == '\r' {
        out.push('\\');
        out.push('r');
    } else if c == '\t' {
        out.push('\\');
        out.push('t');
    } else if (c as u32) < 32 {
        out.push('\\');
        out.push('u');
        out.push('0');
        out.push('0');
        out.push(hex_digit_char((c as u32) / 16));
        out.push(hex_digit_char((c as u32) % 16));
    } else {
        out.push(c);
    }
    proof {
        assert(final(out)@ =~= old(out)@ + esc_char(c));
    }
}

/// Appends the body of a string literal holding `s`.
fn push_escaped(out: &mut Vec<char>, s: &str)
    ensures
        final(out)@ == old(out)@ + escaped(s@),
{
    let n = s.unicode_len();
    let mut i: usize = 0;
    while i < n
        invariant
            n == s@.len(),
            i <= n,
            out@ + escaped_from(s@, i as int) == old(out)@ + escaped(s@),
        decreases n - i,
    {
        push_esc_char(out, s.get_char(i));
        i = i + 1;
    }
}

/// Appends a whole string literal: quotes around the escaped body.
fn push_quoted(out: &mut Vec<char>, s: &str)
    ensures
        final(out)@ == old(out)@ + quoted(s@),
{
    out.push('"');
    push_escaped(out, s);
    out.push('"');
    proof {
        assert(final(out)@ =~= old(out)@ + quoted(s@));
    }
}

/// Appends the decimal text of a natural number.
fn push_nat(out: &mut Vec<char>, n: u64)
    ensures
        final(out)@ == old(out)@ + nat_text(n as nat),
    decreases n,
{
    if n < 10 {
        let d = n as u32;
        out.push(hex_digit_char(d));
        proof {
            assert(final(out)@ =~= old(out)@ + nat_text(n as nat));
        }
    } else {
        push_nat(out, n / 10);
        let d = (n % 10) as u32;
        out.push(hex_digit_char(d));
        proof {
            assert(final(out)@ =~= old(out)@ + nat_text(n as nat));
        }
    }
}

/// Appends the decimal text of an integer, sign included.
fn push_int(out: &mut Vec<char>, n: i64)
    ensures
        final(out)@ == old(out)@ + int_text(n as int),
{
    if n >= 0 {
        push_nat(out, n as u64);
    } else {
        out.push('-');
        let m = (-(n as i128)) as u64;
        proof {
            assert(m == -(n as int));
        }
        push_nat(out, m);
        proof {
            assert(final(out)@ =~= old(out)@ + int_text(n as int));
        }
    }
}

/// Appends the compact text of a document.
pub fn push_json(out: &mut Vec<char>, v: &Json)
    ensures
        final(out)@ == old(out)@ + json_text(v@),
    decreases v, 0int,
{
    match v {
        Json::Null => {
            out.push('n');
            out.push('u');
            out.push('l');
            out.push('l');
            proof {
                assert(final(out)@ =~= old(out)@ + json_text(v@));
            }
        },
        Json::Bool(b) => {
            if *b {
                out.push('t');
                out.push('r');
                out.push('u');
                out.push('e');
            } else {
                out.push('f');
                out.push('a');
                out.push('l');
                out.push('s');
                out.push('e');
            }
            proof {
                assert(final(out)@ =~= old(out)@ + json_text(v@));
            }
        },
        Json::Int(n) => {
            push_int(out, *n);
        },
        Json::Num(s) => {
            push_str_chars(out, s.as_str());
        },
        Json::Str(s) => {
            push_quoted(out, s.as_str());
        },
        Json::Arr(items) => {
            out.push('[');
            push_arr_from(out, items, 0);
            out.push(']');
            proof {
                crate::json::lemma_items_view(items@);
                assert(final(out)@ =~= old(out)@ + json_text(v@));
            }
        },
        Json::Obj(fields) => {
            out.push('{');
            push_obj_from(out, fields, 0);
            out.push('}');
            proof {
                crate::json::lemma_fields_view(fields@);
                assert(final(out)@ =~= old(out)@ + json_text(v@));
            }
        },
    }
}

/// Appends the items of an array from position `i` on, compactly.
fn push_arr_from(out: &mut Vec<char>, items: &Vec<Json>, i: usize)
    requires
        i <= items@.len(),
    ensures
        final(out)@ == old(out)@ + arr_text_from(crate::json::items_view(items@), i as int),
    decreases *items, items@.len() - i + 1,
{
    proof {
        crate::json::lemma_items_view(items@);
    }
    if i < items.len() {
        if i > 0 {
            out.push(',');
        }
        push_json(out, &items[i]);
        push_arr_from(out, items, i + 1);
        proof {
            assert(final(out)@ =~= old(out)@ + arr_text_from(
                crate::json::items_view(items@),
                i as int,
            ));
        }
    }
}

/// Appends the fields of an object from position `i` on, compactly.
fn push_obj_from(out: &mut Vec<char>, fields: &Vec<(String, Json)>, i: usize)
    requires
        i <= fields@.len(),
    ensures
        final(out)@ == old(out)@ + obj_text_from(crate::json::fields_view(fields@), i as int),
    decreases *fields, fields@.len() - i + 1,
{
    proof {
        crate::json::lemma_fields_view(fields@);
    }
    if i < fields.len() {
        if i > 0 {
            out.push(',');
        }
        push_quoted(out, fields[i].0.as_str());
        out.push(':');
        push_json(out, &fields[i].1);
        push_obj_from(out, fields, i + 1);
        proof {
            assert(final(out)@ =~= old(out)@ + obj_text_from(
                crate::json::fields_view(fields@),
                i as int,
            ));
        }
    }
}

/// Appends the pretty text of a document under the given indentation prefix.
pub fn push_json_pretty(out: &mut Vec<char>, v: &Json, ind: &Vec<char>)
    ensures
        final(out)@ == old(out)@ + json_pretty(v@, ind@),
    decreases v, 0int,
{
    match v {
        Json::Arr(items) => {
            if items.len() == 0 {
                out.push('[');
                out.push(']');
                proof {
                    crate::json::lemma_items_view(items@);
                    assert(final(out)@ =~= old(out)@ + json_pretty(v@, ind@));
                }
            } else {
                let mut ind2 = copy_chars(ind);
                ind2.push(' ');
                ind2.push(' ');
                out.push('[');
                push_arr_pretty_from(out, items, 0, &ind2);
                out.push('\n');
                push_chars(out, ind);
                out.push(']');
                proof {
                    crate::json::lemma_items_view(items@);
                    assert(ind2@ =~= ind@ + seq![' ', ' ']);
                    assert(final(out)@ =~= old(out)@ + json_pretty(v@, ind@));
                }
            }
        },
        Json::Obj(fields) => {
            if fields.len() == 0 {
                out.push('{');
                out.push('}');
                proof {
                    crate::json::lemma_fields_view(fields@);
                    assert(final(out)@ =~= old(out)@ + json_pretty(v@, ind@));
                }
            } else {
                let mut ind2 = copy_chars(ind);
                ind2.push(' ');
                ind2.push(' ');
                out.push('{');
                push_obj_pretty_from(out, fields, 0, &ind2);
                out.push('\n');
                push_chars(out, ind);
                out.push('}');
                proof {
                    crate::json::lemma_fields_view(fields@);
                    assert(ind2@ =~= ind@ + seq![' ', ' ']);
                    assert(final(out)@ =~= old(out)@ + json_pretty(v@, ind@));
                }
            }
        },
        _ => {
            push_json(out, v);
            proof {
                assert(json_pretty(v@, ind@) == json_text(v@));
            }
        },
    }
}

/// Appends the items of an array from position `i` on, prettily.
fn push_arr_pretty_from(out: &mut Vec<char>, items: &Vec<Json>, i: usize, ind: &Vec<char>)
    requires
        i <= items@.len(),
    ensures
        final(out)@ == old(out)@ + arr_pretty_from(
            crate::json::items_view(items@),
            i as int,
            ind@,
        ),
    decreases *items, items@.len() - i + 1,
{
    proof {
        crate::json::lemma_items_view(items@);
    }
    if i < items.len() {
        if i == 0 {
            out.push('\n');
        } else {
            out.push(',');
            out.push('\n');
        }
        push_chars(out, ind);
        push_json_pretty(out, &items[i], ind);
        push_arr_pretty_from(out, items, i + 1, ind);
        proof {
            assert(final(out)@ =~= old(out)@ + arr_pretty_from(
                crate::json::items_view(items@),
                i as int,
                ind@,
            ));
        }
    }
}

/// Appends the fields of an object from position `i` on, prettily.
fn push_obj_pretty_from(out: &mut Vec<char>, fields: &Vec<(String, Json)>, i: usize, ind: &Vec<char>)
    requires
        i <= fields@.len(),
    ensures
        final(out)@ == old(out)@ + obj_pretty_from(
            crate::json::fields_view(fields@),
            i as int,
            ind@,
        ),
    decreases *fields, fields@.len() - i + 1,
{
    proof {
        crate::json::lemma_fields_view(fields@);
    }
    if i < fields.len() {
        if i == 0 {
            out.push('\n');
        } else {
            out.push(',');
            out.push('\n');
        }
        push_chars(out, ind);
        push_quoted(out, fields[i].0.as_str());
        out.push(':');
        out.push(' ');
        push_json_pretty(out, &fields[i].1, ind);
        push_obj_pretty_from(out, fields, i + 1, ind);
        proof {
            assert(final(out)@ =~= old(out)@ + obj_pretty_from(
                crate::json::fields_view(fields@),
                i as int,
                ind@,
            ));
        }
    }
}

/// Appends a character sequence as it is.
fn push_chars(out: &mut Vec<char>, s: &Vec<char>)
    ensures
        final(out)@ == old(out)@ + s@,
{
    let mut i: usize = 0;
    while i < s.len()
        invariant
            i <= s@.len(),
            out@ == old(out)@ + s@.subrange(0, i as int),
        decreases s@.len() - i,
    {
        out.push(s[i]);
        proof {
            assert(old(out)@ + s@.subrange(0, i as int + 1) =~= (old(out)@ + s@.subrange(
                0,
                i as int,
            )).push(s@[i as int]));
        }
        i = i + 1;
    }
    proof {
        assert(s@.subrange(0, s@.len() as int) =~= s@);
    }
}

/// A copy of a character sequence.
fn copy_chars(s: &Vec<char>) -> (r: Vec<char>)
    ensures
        r@ == s@,
{
    let mut out: Vec<char> = Vec::new();
    push_chars(&mut out, s);
    out
}

/// The compact text of a document, as a string.
pub fn to_json_string(v: &Json) -> (r: String)
    ensures
        r@ == json_text(v@),
{
    let mut out: Vec<char> = Vec::new();
    push_json(&mut out, v);
    chars_to_string(&out)
}

/// The pretty text of a document, as a string, starting unindented.
pub fn to_json_string_pretty(v: &Json) -> (r: String)
    ensures
        r@ == json_pretty(v@, Seq::<char>::empty()),
{
    let mut out: Vec<char> = Vec::new();
    let ind: Vec<char> = Vec::new();
    push_json_pretty(&mut out, v, &ind);
    chars_to_string(&out)
}

/// The decimal text of a natural number, as a string.
pub fn nat_string(n: u64) -> (r: String)
    ensures
        r@ == nat_text(n as nat),
{
    let mut out: Vec<char> = Vec::new();
    push_nat(&mut out, n);
    chars_to_string(&out)
}

/// Relies on `String`'s `FromIterator` impl: collecting characters yields the
/// string of exactly those characters, in order.
#[verifier::external_body]
pub fn chars_to_string(chars: &Vec<char>) -> (r: String)
    ensures
        r@ == chars@,
{
    chars.iter().collect()
}

} // verus!
