//! Rendering of JSON documents: string-literal escaping for request
//! bodies, and the pretty form in which a whole response is handed back
//! when it does not carry the expected fast-path text.

use vstd::prelude::*;
use crate::chars::{chars_of, push_all, push_str_chars, string_of};
use crate::json::JsonValue;

verus! {

/// The lower-case hexadecimal digit of `n`.
pub open spec fn spec_hex_digit(n: nat) -> char {
    if n == 0 {
        '0'
    } else if n == 1 {
        '1'
    } else if n == 2 {
        '2'
    } else if n == 3 {
        '3'
    } else if n == 4 {
        '4'
    } else if n == 5 {
        '5'
    } else if n == 6 {
        '6'
    } else if n == 7 {
        '7'
    } else if n == 8 {
        '8'
    } else if n == 9 {
        '9'
    } else if n == 10 {
        'a'
    } else if n == 11 {
        'b'
    } else if n == 12 {
        'c'
    } else if n == 13 {
        'd'
    } else if n == 14 {
        'e'
    } else {
        'f'
    }
}

/// How one character stands inside a JSON string literal: quotes and
/// backslashes escaped, the named control characters short, every other
/// control character in the `\u00..` form, anything else itself.
pub open spec fn spec_escape_char(c: char) -> Seq<char> {
    if c == '"' {
        seq!['\\', '"']
    } else if c == '\\' {
        seq!['\\', '\\']
    } else if c == '\u{8}' {
        seq!['\\', 'b']
    } else if c == '\t' {
        seq!['\\', 't']
    } else if c == '\n' {
        seq!['\\', 'n']
    } else if c == '\u{c}' {
        seq!['\\', 'f']
    } else if c == '\r' {
        seq!['\\', 'r']
    } else if (c as u32) < 0x20 {
        seq!['\\', 'u', '0', '0', spec_hex_digit((c as u32 / 16) as nat), spec_hex_digit(
            (c as u32 % 16) as nat,
        )]
    } else {
        seq![c]
    }
}

/// A whole string's characters inside a JSON string literal.
pub open spec fn spec_escape(s: Seq<char>) -> Seq<char>
    decreases s.len(),
{
    if s.len() == 0 {
        Seq::empty()
    } else {
        spec_escape(s.drop_last()) + spec_escape_char(s.last())
    }
}

fn hex_digit(n: u32) -> (c: char)
    requires
        n < 16,
    ensures
        c == spec_hex_digit(n as nat),
{
    if n == 0 {
        '0'
    } else if n == 1 {
        '1'
    } else if n == 2 {
        '2'
    } else if n == 3 {
        '3'
    } else if n == 4 {
        '4'
    } else if n == 5 {
        '5'
    } else if n == 6 {
        '6'
    } else if n == 7 {
        '7'
    } else if n == 8 {
        '8'
    } else if n == 9 {
        '9'
    } else if n == 10 {
        'a'
    } else if n == 11 {
        'b'
    } else if n == 12 {
        'c'
    } else if n == 13 {
        'd'
    } else if n == 14 {
        'e'
    } else {
        'f'
    }
}

/// Appends the escaped form of the one character `c` to `out`.
pub(crate) fn push_escaped_char(out: &mut Vec<char>, c: char)
    ensures
        final(out)@ == old(out)@ + spec_escape_char(c),
{
    if c == '"' {
        out.push('\\');
        out.push('"');
    } else if c == '\\' {
        out.push('\\');
        out.push('\\');
    } else if c == '\u{8}' {
        out.push('\\');
        out.push('b');
    } else if c == '\t' {
        out.push('\\');
        out.push('t');
    } else if c == '\n' {
        out.push('\\');
        out.push('n');
    } else if c == '\u{c}' {
        out.push('\\');
        out.push('f');
    } else if c == '\r' {
        out.push('\\');
        out.push('r');
    } else if (c as u32) < 0x20 {
        let n = c as u32;
        out.push('\\');
        out.push('u');
        out.push('0');
        out.push('0');
        out.push(hex_digit(n / 16));
        out.push(hex_digit(n % 16));
    } else {
        out.push(c);
    }
    proof {
        assert(out@ =~= old(out)@ + spec_escape_char(c));
    }
}

/// Appends the escaped form of every character of `s` to `out`.
pub(crate) fn push_escaped(out: &mut Vec<char>, s: &Vec<char>)
    ensures
        final(out)@ == old(out)@ + spec_escape(s@),
{
    let mut k: usize = 0;
    proof {
        assert(s@.take(0) =~= Seq::<char>::empty());
        assert(out@ =~= out@ + spec_escape(s@.take(0)));
    }
    while k < s.len()
        invariant
            k <= s@.len(),
            out@ == old(out)@ + spec_escape(s@.take(k as int)),
        decreases s@.len() - k,
    {
        push_escaped_char(out, s[k]);
        proof {
            assert(s@.take(k as int + 1).drop_last() =~= s@.take(k as int));
            assert(s@.take(k as int + 1).last() == s@[k as int]);
            assert(out@ =~= old(out)@ + spec_escape(s@.take(k as int + 1)));
        }
        k = k + 1;
    }
    proof {
        assert(s@.take(s@.len() as int) =~= s@);
    }
}

/// The indentation that precedes a value `n` levels deep: two spaces a
/// level.
pub open spec fn spec_spaces(n: nat) -> Seq<char>
    decreases n,
{
    if n == 0 {
        Seq::empty()
    } else {
        spec_spaces((n - 1) as nat) + seq![' ', ' ']
    }
}

/// The pretty form of `v` when it stands `ind` levels deep: empty arrays
/// and objects close at once, every other array or object puts each
/// element on an indented line of its own.
pub open spec fn spec_pretty(v: JsonValue, ind: nat) -> Seq<char>
    decreases v, 0nat,
{
    match v {
        JsonValue::Null => "null"@,
        JsonValue::Bool(b) => if b {
            "true"@
        } else {
            "false"@
        },
        JsonValue::Num(n) => n@,
        JsonValue::Str(s) => seq!['"'] + spec_escape(s@) + seq!['"'],
        JsonValue::Arr(items) => if items@.len() == 0 {
            "[]"@
        } else {
            seq!['['] + spec_pretty_items(items@, ind + 1) + seq!['\n'] + spec_spaces(ind)
                + seq![']']
        },
        JsonValue::Obj(fields) => if fields@.len() == 0 {
            "{}"@
        } else {
            seq!['{'] + spec_pretty_fields(fields@, ind + 1) + seq!['\n'] + spec_spaces(ind)
                + seq!['}']
        },
    }
}

/// The lines of a non-empty array's items, each opened on a fresh
/// indented line, a comma after every item but the last.
pub open spec fn spec_pretty_items(items: Seq<JsonValue>, ind: nat) -> Seq<char>
    decreases items, 1nat,
{
    if items.len() == 0 {
        Seq::empty()
    } else {
        seq!['\n'] + spec_spaces(ind) + spec_pretty(items[0], ind) + (if items.len() > 1 {
            seq![',']
        } else {
            Seq::<char>::empty()
        }) + spec_pretty_items(items.drop_first(), ind)
    }
}

/// The lines of a non-empty object's fields, each a quoted escaped key,
/// a separating colon, and the field's value.
pub open spec fn spec_pretty_fields(fields: Seq<(String, JsonValue)>, ind: nat) -> Seq<char>
    decreases fields, 1nat,
{
    if fields.len() == 0 {
        Seq::empty()
    } else {
        seq!['\n'] + spec_spaces(ind) + seq!['"'] + spec_escape(fields[0].0@) + seq!['"', ':', ' ']
            + spec_pretty(fields[0].1, ind) + (if fields.len() > 1 {
            seq![',']
        } else {
            Seq::<char>::empty()
        }) + spec_pretty_fields(fields.drop_first(), ind)
    }
}

proof fn lemma_items_step(items: Seq<JsonValue>, j: int, ind: nat)
    requires
        0 <= j < items.len(),
    ensures
        spec_pretty_items(items.skip(j), ind) == seq!['\n'] + spec_spaces(ind) + spec_pretty(
            items[j],
            ind,
        ) + (if j + 1 < items.len() {
            seq![',']
        } else {
            Seq::<char>::empty()
        }) + spec_pretty_items(items.skip(j + 1), ind),
{
    assert(items.skip(j)[0] == items[j]);
    assert(items.skip(j).drop_first() =~= items.skip(j + 1));
}

proof fn lemma_fields_step(fields: Seq<(String, JsonValue)>, j: int, ind: nat)
    requires
        0 <= j < fields.len(),
    ensures
        spec_pretty_fields(fields.skip(j), ind) == seq!['\n'] + spec_spaces(ind) + seq!['"']
            + spec_escape(fields[j].0@) + seq!['"', ':', ' '] + spec_pretty(fields[j].1, ind) + (
        if j + 1 < fields.len() {
            seq![',']
        } else {
            Seq::<char>::empty()
        }) + spec_pretty_fields(fields.skip(j + 1), ind),
{
    assert(fields.skip(j)[0] == fields[j]);
    assert(fields.skip(j).drop_first() =~= fields.skip(j + 1));
}

fn child_pad_of(pad: &Vec<char>) -> (out: Vec<char>)
    ensures
        out@ == pad@ + seq![' ', ' '],
{
    let mut out: Vec<char> = Vec::new();
    push_all(&mut out, pad);
    out.push(' ');
    out.push(' ');
    proof {
        assert(out@ =~= pad@ + seq![' ', ' ']);
    }
    out
}

fn pretty_chars(v: &JsonValue, pad: &Vec<char>, Ghost(ind): Ghost<nat>, out: &mut Vec<char>)
    requires
        pad@ == spec_spaces(ind),
    ensures
        final(out)@ == old(out)@ + spec_pretty(*v, ind),
    decreases *v,
{
    match v {
        JsonValue::Null => {
            push_str_chars(out, "null");
        },
        JsonValue::Bool(b) => {
            if *b {
                push_str_chars(out, "true");
            } else {
                push_str_chars(out, "false");
            }
        },
        JsonValue::Num(n) => {
            push_str_chars(out, n.as_str());
        },
        JsonValue::Str(s) => {
            out.push('"');
            let sc = chars_of(s.as_str());
            push_escaped(out, &sc);
            out.push('"');
            proof {
                assert(out@ =~= old(out)@ + spec_pretty(*v, ind));
            }
        },
        JsonValue::Arr(items) => {
            if items.len() == 0 {
                push_str_chars(out, "[]");
            } else {
                out.push('[');
                let child_pad = child_pad_of(pad);
                let ghost base = out@;
                let mut j: usize = 0;
                proof {
                    assert(items@.skip(0) =~= items@);
                    assert(base + spec_pretty_items(items@, ind + 1) =~= out@ + spec_pretty_items(
                        items@.skip(0),
                        ind + 1,
                    ));
                }
                while j < items.len()
                    invariant
                        *v == JsonValue::Arr(*items),
                        0 < items@.len(),
                        j <= items@.len(),
                        pad@ == spec_spaces(ind),
                        child_pad@ == spec_spaces(ind + 1),
                        base + spec_pretty_items(items@, ind + 1) == out@ + spec_pretty_items(
                            items@.skip(j as int),
                            ind + 1,
                        ),
                    decreases items@.len() - j,
                {
                    let ghost out0 = out@;
                    out.push('\n');
                    push_all(out, &child_pad);
                    proof {
                        assert(decreases_to!(*v => (*v)->Arr_0));
                        assert((*v)->Arr_0 == *items);
                        assert(decreases_to!(*v => items@));
                        assert(decreases_to!(*v => items@[j as int]));
                    }
                    pretty_chars(&items[j], &child_pad, Ghost(ind + 1), out);
                    if j + 1 < items.len() {
                        out.push(',');
                    }
                    proof {
                        lemma_items_step(items@, j as int, ind + 1);
                        assert(out@ =~= out0 + (seq!['\n'] + spec_spaces(ind + 1) + spec_pretty(
                            items@[j as int],
                            ind + 1,
                        ) + (if j as int + 1 < items@.len() {
                            seq![',']
                        } else {
                            Seq::<char>::empty()
                        })));
                        assert(out0 + spec_pretty_items(items@.skip(j as int), ind + 1)
                            =~= out@ + spec_pretty_items(items@.skip(j as int + 1), ind + 1));
                    }
                    j = j + 1;
                }
                out.push('\n');
                push_all(out, pad);
                out.push(']');
                proof {
                    assert(spec_pretty_items(items@.skip(items@.len() as int), ind + 1)
                        =~= Seq::<char>::empty());
                    assert(out@ =~= old(out)@ + spec_pretty(*v, ind));
                }
            }
        },
        JsonValue::Obj(fields) => {
            if fields.len() == 0 {
                push_str_chars(out, "{}");
            } else {
                out.push('{');
                let child_pad = child_pad_of(pad);
                let ghost base = out@;
                let mut j: usize = 0;
                proof {
                    assert(fields@.skip(0) =~= fields@);
                    assert(base + spec_pretty_fields(fields@, ind + 1) =~= out@
                        + spec_pretty_fields(fields@.skip(0), ind + 1));
                }
                while j < fields.len()
                    invariant
                        *v == JsonValue::Obj(*fields),
                        0 < fields@.len(),
                        j <= fields@.len(),
                        pad@ == spec_spaces(ind),
                        child_pad@ == spec_spaces(ind + 1),
                        base + spec_pretty_fields(fields@, ind + 1) == out@ + spec_pretty_fields(
                            fields@.skip(j as int),
                            ind + 1,
                        ),
                    decreases fields@.len() - j,
                {
                    let ghost out0 = out@;
                    out.push('\n');
                    push_all(out, &child_pad);
                    out.push('"');
                    let kc = chars_of(fields[j].0.as_str());
                    push_escaped(out, &kc);
                    out.push('"');
                    out.push(':');
                    out.push(' ');
                    proof {
                        assert(decreases_to!(*v => (*v)->Obj_0));
                        assert((*v)->Obj_0 == *fields);
                        assert(decreases_to!(*v => fields@));
                        assert(decreases_to!(*v => fields@[j as int]));
                        assert(decreases_to!(fields@[j as int] => fields@[j as int].1));
                    }
                    pretty_chars(&fields[j].1, &child_pad, Ghost(ind + 1), out);
                    if j + 1 < fields.len() {
                        out.push(',');
                    }
                    proof {
                        lemma_fields_step(fields@, j as int, ind + 1);
                        assert(out@ =~= out0 + (seq!['\n'] + spec_spaces(ind + 1) + seq!['"']
                            + spec_escape(fields@[j as int].0@) + seq!['"', ':', ' ']
                            + spec_pretty(fields@[j as int].1, ind + 1) + (if j as int + 1
                            < fields@.len() {
                            seq![',']
                        } else {
                            Seq::<char>::empty()
                        })));
                        assert(out0 + spec_pretty_fields(fields@.skip(j as int), ind + 1)
                            =~= out@ + spec_pretty_fields(fields@.skip(j as int + 1), ind + 1));
                    }
                    j = j + 1;
                }
                out.push('\n');
                push_all(out, pad);
                out.push('}');
                proof {
                    assert(spec_pretty_fields(fields@.skip(fields@.len() as int), ind + 1)
                        =~= Seq::<char>::empty());
                    assert(out@ =~= old(out)@ + spec_pretty(*v, ind));
                }
            }
        },
    }
}

/// The pretty form of a whole document, as the relay's fallback hands it
/// back.
pub fn to_pretty_string(v: &JsonValue) -> (out: String)
    ensures
        out@ == spec_pretty(*v, 0),
{
    let pad: Vec<char> = Vec::new();
    let mut buf: Vec<char> = Vec::new();
    proof {
        assert(pad@ =~= spec_spaces(0));
    }
    pretty_chars(v, &pad, Ghost(0nat), &mut buf);
    string_of(&buf)
}

} // verus!
