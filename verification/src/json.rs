//! The library's model of a JSON value, and a verified renderer that turns a
//! value into its wire text.
//!
//! Numbers that are not plain integers keep their literal text in the `Num`
//! variant, so no floating point enters the verified code; rendering emits
//! that literal unchanged.

use vstd::prelude::*;
use crate::text::{push_char, push_u64, push_i64, spec_digits, spec_int_text};

verus! {

/// A JSON value as carried through the transport.
#[derive(Debug)]
pub enum JsonValue {
    Null,
    Bool(bool),
    Int(i64),
    /// A number outside the plain integer range, kept as its literal text.
    Num(String),
    Str(String),
    Arr(Vec<JsonValue>),
    Obj(Vec<(String, JsonValue)>),
}

/// The mathematical shape of a JSON value: what a `JsonValue` means with
/// every string read as its character sequence. Contracts that speak of
/// whole values speak of this shape.
pub enum JsonV {
    Null,
    Bool(bool),
    Int(int),
    Num(Seq<char>),
    Str(Seq<char>),
    Arr(Seq<JsonV>),
    Obj(Seq<(Seq<char>, JsonV)>),
}

/// The shape of a JSON value.
pub open spec fn jv(v: JsonValue) -> JsonV
    decreases v,
{
    match v {
        JsonValue::Null => JsonV::Null,
        JsonValue::Bool(b) => JsonV::Bool(b),
        JsonValue::Int(n) => JsonV::Int(n as int),
        JsonValue::Num(s) => JsonV::Num(s@),
        JsonValue::Str(s) => JsonV::Str(s@),
        JsonValue::Arr(items) => JsonV::Arr(jv_items(items@)),
        JsonValue::Obj(fields) => JsonV::Obj(jv_fields(fields@)),
    }
}

/// The shapes of the elements of an array, in order.
pub open spec fn jv_items(items: Seq<JsonValue>) -> Seq<JsonV>
    decreases items,
{
    if items.len() == 0 {
        Seq::empty()
    } else {
        jv_items(items.drop_last()).push(jv(items.last()))
    }
}

/// The shapes of the members of an object, in order.
pub open spec fn jv_fields(fields: Seq<(String, JsonValue)>) -> Seq<(Seq<char>, JsonV)>
    decreases fields,
{
    if fields.len() == 0 {
        Seq::empty()
    } else {
        jv_fields(fields.drop_last()).push((fields.last().0@, jv(fields.last().1)))
    }
}

/// Element shapes line up with elements: `jv_items` keeps length and order.
pub proof fn lemma_jv_items_index(items: Seq<JsonValue>, i: int)
    requires
        0 <= i < items.len(),
    ensures
        jv_items(items).len() == items.len(),
        jv_items(items)[i] == jv(items[i]),
    decreases items.len(),
{
    lemma_jv_items_len(items);
    if items.len() > 1 && i < items.len() - 1 {
        lemma_jv_items_index(items.drop_last(), i);
    }
}

/// `jv_items` keeps the length of the sequence it abstracts.
pub proof fn lemma_jv_items_len(items: Seq<JsonValue>)
    ensures
        jv_items(items).len() == items.len(),
    decreases items.len(),
{
    if items.len() > 0 {
        lemma_jv_items_len(items.drop_last());
    }
}

/// Member shapes line up with members: `jv_fields` keeps length and order.
pub proof fn lemma_jv_fields_index(fields: Seq<(String, JsonValue)>, i: int)
    requires
        0 <= i < fields.len(),
    ensures
        jv_fields(fields).len() == fields.len(),
        jv_fields(fields)[i] == (fields[i].0@, jv(fields[i].1)),
    decreases fields.len(),
{
    lemma_jv_fields_len(fields);
    if fields.len() > 1 && i < fields.len() - 1 {
        lemma_jv_fields_index(fields.drop_last(), i);
    }
}

/// `jv_fields` keeps the length of the sequence it abstracts.
pub proof fn lemma_jv_fields_len(fields: Seq<(String, JsonValue)>)
    ensures
        jv_fields(fields).len() == fields.len(),
    decreases fields.len(),
{
    if fields.len() > 0 {
        lemma_jv_fields_len(fields.drop_last());
    }
}

impl Clone for JsonValue {
    /// A clone has the same shape as the original.
    fn clone(&self) -> (r: Self)
        ensures
            jv(r) == jv(*self),
    {
        clone_json(self)
    }
}

/// Builds a value of the same shape as `v`.
#[verifier::loop_isolation(false)]
fn clone_json(v: &JsonValue) -> (r: JsonValue)
    ensures
        jv(r) == jv(*v),
    decreases *v,
{
    match v {
        JsonValue::Null => JsonValue::Null,
        JsonValue::Bool(b) => JsonValue::Bool(*b),
        JsonValue::Int(n) => JsonValue::Int(*n),
        JsonValue::Num(s) => JsonValue::Num(s.clone()),
        JsonValue::Str(s) => JsonValue::Str(s.clone()),
        JsonValue::Arr(items) => {
            let mut out: Vec<JsonValue> = Vec::new();
            let m = items.len();
            for i in 0..m
                invariant
                    m == items@.len(),
                    out@.len() == i,
                    forall|j: int| 0 <= j < i ==> jv(out@[j]) == jv(items@[j]),
            {
                proof {
                    assert(decreases_to!(*v => items@));
                    assert(decreases_to!(items@ => items@[i as int]));
                }
                out.push(clone_json(&items[i]));
            }
            proof {
                assert forall|j: int| 0 <= j < m implies jv_items(out@)[j] == jv_items(items@)[j] by {
                    lemma_jv_items_index(out@, j);
                    lemma_jv_items_index(items@, j);
                }
                lemma_jv_items_len(out@);
                lemma_jv_items_len(items@);
                assert(jv_items(out@) =~= jv_items(items@));
            }
            JsonValue::Arr(out)
        },
        JsonValue::Obj(fields) => {
            let mut out: Vec<(String, JsonValue)> = Vec::new();
            let m = fields.len();
            for i in 0..m
                invariant
                    m == fields@.len(),
                    out@.len() == i,
                    forall|j: int| 0 <= j < i ==> out@[j].0@ == fields@[j].0@ && jv(out@[j].1)
                        == jv(fields@[j].1),
            {
                proof {
                    assert(decreases_to!(*v => fields@));
                    assert(decreases_to!(fields@ => fields@[i as int]));
                    assert(decreases_to!(fields@[i as int] => fields@[i as int].1));
                }
                let key = fields[i].0.clone();
                let val = clone_json(&fields[i].1);
                out.push((key, val));
            }
            proof {
                assert forall|j: int| 0 <= j < m implies jv_fields(out@)[j] == jv_fields(fields@)[j] by {
                    lemma_jv_fields_index(out@, j);
                    lemma_jv_fields_index(fields@, j);
                }
                lemma_jv_fields_len(out@);
                lemma_jv_fields_len(fields@);
                assert(jv_fields(out@) =~= jv_fields(fields@));
            }
            JsonValue::Obj(out)
        },
    }
}

/// The hexadecimal digit character for a value below sixteen.
pub open spec fn spec_hex_digit(d: nat) -> char
    recommends
        d < 16,
{
    if d < 10 {
        ((48 + d) as u8) as char
    } else {
        ((87 + d) as u8) as char
    }
}

/// How one character appears inside a rendered JSON string: quotes and
/// backslashes are escaped, control characters use the short escapes or the
/// `\u00..` form, and everything else stands for itself.
pub open spec fn spec_escape_char(c: char) -> Seq<char> {
    if c == '"' {
        seq!['\\', '"']
    } else if c == '\\' {
        seq!['\\', '\\']
    } else if c == '\n' {
        seq!['\\', 'n']
    } else if c == '\r' {
        seq!['\\', 'r']
    } else if c == '\t' {
        seq!['\\', 't']
    } else if (c as u32) < 32 {
        seq!['\\', 'u', '0', '0', spec_hex_digit((c as u32 / 16) as nat), spec_hex_digit(
            (c as u32 % 16) as nat,
        )]
    } else {
        seq![c]
    }
}

/// The body of a rendered JSON string: each character escaped in turn.
pub open spec fn spec_escape(s: Seq<char>) -> Seq<char>
    decreases s.len(),
{
    if s.len() == 0 {
        Seq::empty()
    } else {
        spec_escape(s.drop_last()) + spec_escape_char(s.last())
    }
}

/// A rendered JSON string: the escaped body between double quotes.
pub open spec fn spec_render_str(s: Seq<char>) -> Seq<char> {
    seq!['"'] + spec_escape(s) + seq!['"']
}

/// The wire text of a JSON value, with no whitespace between tokens.
pub open spec fn spec_render(v: JsonValue) -> Seq<char>
    decreases v,
{
    match v {
        JsonValue::Null => seq!['n', 'u', 'l', 'l'],
        JsonValue::Bool(b) => if b {
            seq!['t', 'r', 'u', 'e']
        } else {
            seq!['f', 'a', 'l', 's', 'e']
        },
        JsonValue::Int(n) => spec_int_text(n as int),
        JsonValue::Num(s) => s@,
        JsonValue::Str(s) => spec_render_str(s@),
        JsonValue::Arr(items) => seq!['['] + spec_render_items(items@) + seq![']'],
        JsonValue::Obj(fields) => seq!['{'] + spec_render_fields(fields@) + seq!['}'],
    }
}

/// The comma-separated rendering of array elements.
pub open spec fn spec_render_items(items: Seq<JsonValue>) -> Seq<char>
    decreases items,
{
    if items.len() == 0 {
        Seq::empty()
    } else if items.len() == 1 {
        spec_render(items[0])
    } else {
        spec_render_items(items.drop_last()) + seq![','] + spec_render(items.last())
    }
}

/// The comma-separated rendering of object members, keys kept in order.
pub open spec fn spec_render_fields(fields: Seq<(String, JsonValue)>) -> Seq<char>
    decreases fields,
{
    if fields.len() == 0 {
        Seq::empty()
    } else if fields.len() == 1 {
        spec_render_str(fields[0].0@) + seq![':'] + spec_render(fields[0].1)
    } else {
        spec_render_fields(fields.drop_last()) + seq![','] + spec_render_str(fields.last().0@)
            + seq![':'] + spec_render(fields.last().1)
    }
}

/// Appends the escaped body of `s` to `out`.
pub fn push_escaped(out: &mut String, s: &str)
    ensures
        final(out)@ == old(out)@ + spec_escape(s@),
{
    let n = s.unicode_len();
    for i in 0..n
        invariant
            n == s@.len(),
            out@ == old(out)@ + spec_escape(s@.take(i as int)),
    {
        let c = s.get_char(i);
        if c == '"' {
            push_char(out, '\\');
            push_char(out, '"');
        } else if c == '\\' {
            push_char(out, '\\');
            push_char(out, '\\');
        } else if c == '\n' {
            push_char(out, '\\');
            push_char(out, 'n');
        } else if c == '\r' {
            push_char(out, '\\');
            push_char(out, 'r');
        } else if c == '\t' {
            push_char(out, '\\');
            push_char(out, 't');
        } else if (c as u32) < 32 {
            push_char(out, '\\');
            push_char(out, 'u');
            push_char(out, '0');
            push_char(out, '0');
            let hi = (c as u32) / 16;
            let lo = (c as u32) % 16;
            push_char(out, if hi < 10 { (48 + hi as u8) as char } else { (87 + hi as u8) as char });
            push_char(out, if lo < 10 { (48 + lo as u8) as char } else { (87 + lo as u8) as char });
        } else {
            push_char(out, c);
        }
        proof {
            assert(s@.take(i + 1).drop_last() =~= s@.take(i as int));
            assert(s@.take(i + 1).last() == s@[i as int]);
        }
    }
    proof {
        assert(s@.take(n as int) =~= s@);
    }
}

/// Appends the rendered form of a JSON string to `out`.
pub fn push_json_str(out: &mut String, s: &str)
    ensures
        final(out)@ == old(out)@ + spec_render_str(s@),
{
    push_char(out, '"');
    push_escaped(out, s);
    push_char(out, '"');
}

/// Appends the wire text of `v` to `out`.
pub fn push_json(out: &mut String, v: &JsonValue)
    ensures
        final(out)@ == old(out)@ + spec_render(*v),
    decreases *v,
{
    match v {
        JsonValue::Null => {
            push_char(out, 'n');
            push_char(out, 'u');
            push_char(out, 'l');
            push_char(out, 'l');
        },
        JsonValue::Bool(b) => {
            if *b {
                push_char(out, 't');
                push_char(out, 'r');
                push_char(out, 'u');
                push_char(out, 'e');
            } else {
                push_char(out, 'f');
                push_char(out, 'a');
                push_char(out, 'l');
                push_char(out, 's');
                push_char(out, 'e');
            }
        },
        JsonValue::Int(n) => {
            push_i64(out, *n);
        },
        JsonValue::Num(s) => {
            out.append(s.as_str());
        },
        JsonValue::Str(s) => {
            push_json_str(out, s.as_str());
        },
        JsonValue::Arr(items) => {
            proof {
                assert(decreases_to!(*v => items@));
            }
            push_char(out, '[');
            push_json_items(out, items);
            push_char(out, ']');
        },
        JsonValue::Obj(fields) => {
            proof {
                assert(decreases_to!(*v => fields@));
            }
            push_char(out, '{');
            push_json_fields(out, fields);
            push_char(out, '}');
        },
    }
}

/// Appends the comma-separated renderings of the array elements to `out`.
#[verifier::loop_isolation(false)]
pub fn push_json_items(out: &mut String, items: &Vec<JsonValue>)
    ensures
        final(out)@ == old(out)@ + spec_render_items(items@),
    decreases items@,
{
    let m = items.len();
    for i in 0..m
        invariant
            m == items@.len(),
            out@ == old(out)@ + spec_render_items(items@.take(i as int)),
    {
        if i > 0 {
            push_char(out, ',');
        }
        proof {
            assert(decreases_to!(items@ => items@[i as int]));
        }
        push_json(out, &items[i]);
        proof {
            let t = items@.take(i + 1);
            assert(t.drop_last() =~= items@.take(i as int));
            assert(t.last() == items@[i as int]);
        }
    }
    proof {
        assert(items@.take(m as int) =~= items@);
    }
}

/// Appends the comma-separated renderings of the object members to `out`.
#[verifier::loop_isolation(false)]
fn push_json_fields(out: &mut String, fields: &Vec<(String, JsonValue)>)
    ensures
        final(out)@ == old(out)@ + spec_render_fields(fields@),
    decreases fields@,
{
    let m = fields.len();
    for i in 0..m
        invariant
            m == fields@.len(),
            out@ == old(out)@ + spec_render_fields(fields@.take(i as int)),
    {
        if i > 0 {
            push_char(out, ',');
        }
        push_json_str(out, fields[i].0.as_str());
        push_char(out, ':');
        proof {
            assert(decreases_to!(fields@ => fields@[i as int]));
            assert(decreases_to!(fields@[i as int] => fields@[i as int].1));
        }
        push_json(out, &fields[i].1);
        proof {
            let t = fields@.take(i + 1);
            assert(t.drop_last() =~= fields@.take(i as int));
            assert(t.last() == fields@[i as int]);
        }
    }
    proof {
        assert(fields@.take(m as int) =~= fields@);
    }
}

} // verus!
