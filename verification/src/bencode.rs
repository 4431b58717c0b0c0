//! The bencode format: the value model, its canonical encoding, and a
//! strict parser.
//!
//! Every bencode value has exactly one canonical encoding (integers and
//! lengths without leading zeros), and the parser accepts nothing else: what
//! it returns re-encodes to exactly the bytes it consumed, so the returned
//! value is pinned by the input.

use vstd::prelude::*;

verus! {

/// A bencode value: integers, byte strings, lists, and dictionaries with
/// byte-string keys in file order.
#[derive(Debug)]
pub enum Bencode {
    Int(i64),
    Bytes(Vec<u8>),
    List(Vec<Bencode>),
    Dict(Vec<(Vec<u8>, Bencode)>),
}

/// The decimal digits of `n` as bytes, no leading zeros.
pub open spec fn spec_dec_bytes(n: nat) -> Seq<u8>
    decreases n,
{
    if n < 10 {
        seq![(48 + n) as u8]
    } else {
        spec_dec_bytes(n / 10) + seq![(48 + n % 10) as u8]
    }
}

/// The decimal bytes of a signed integer.
pub open spec fn spec_int_bytes(n: int) -> Seq<u8> {
    if n < 0 {
        seq![45u8] + spec_dec_bytes((-n) as nat)
    } else {
        spec_dec_bytes(n as nat)
    }
}

/// The canonical encoding of a bencode value.
pub open spec fn spec_bencode(v: Bencode) -> Seq<u8>
    decreases v,
{
    match v {
        Bencode::Int(n) => seq![105u8] + spec_int_bytes(n as int) + seq![101u8],
        Bencode::Bytes(b) => spec_dec_bytes(b@.len()) + seq![58u8] + b@,
        Bencode::List(items) => seq![108u8] + spec_bencode_items(items@) + seq![101u8],
        Bencode::Dict(fields) => seq![100u8] + spec_bencode_fields(fields@) + seq![101u8],
    }
}

/// The concatenated encodings of list elements.
pub open spec fn spec_bencode_items(items: Seq<Bencode>) -> Seq<u8>
    decreases items,
{
    if items.len() == 0 {
        Seq::empty()
    } else {
        spec_bencode_items(items.drop_last()) + spec_bencode(items.last())
    }
}

/// The concatenated encodings of dictionary members: each key as a byte
/// string, then its value.
pub open spec fn spec_bencode_fields(fields: Seq<(Vec<u8>, Bencode)>) -> Seq<u8>
    decreases fields,
{
    if fields.len() == 0 {
        Seq::empty()
    } else {
        spec_bencode_fields(fields.drop_last()) + spec_dec_bytes(fields.last().0@.len()) + seq![
            58u8,
        ] + fields.last().0@ + spec_bencode(fields.last().1)
    }
}

/// Appends the decimal bytes of `n`.
fn push_dec_bytes(out: &mut Vec<u8>, n: u64)
    ensures
        final(out)@ == old(out)@ + spec_dec_bytes(n as nat),
    decreases n,
{
    if n < 10 {
        out.push(48 + (n as u8));
        proof {
            assert(out@ =~= old(out)@ + spec_dec_bytes(n as nat));
        }
    } else {
        push_dec_bytes(out, n / 10);
        out.push(48 + ((n % 10) as u8));
        proof {
            assert(out@ =~= old(out)@ + spec_dec_bytes(n as nat));
        }
    }
}

/// Appends the raw bytes of `b`.
fn push_raw(out: &mut Vec<u8>, b: &Vec<u8>)
    ensures
        final(out)@ == old(out)@ + b@,
{
    let m = b.len();
    for i in 0..m
        invariant
            m == b@.len(),
            out@ == old(out)@ + b@.take(i as int),
    {
        out.push(b[i]);
        proof {
            assert(b@.take(i + 1) =~= b@.take(i as int).push(b@[i as int]));
            assert(out@ =~= old(out)@ + b@.take(i + 1));
        }
    }
    proof {
        assert(b@.take(m as int) =~= b@);
    }
}

/// Appends the canonical encoding of `v`.
pub fn push_bencode(out: &mut Vec<u8>, v: &Bencode)
    ensures
        final(out)@ == old(out)@ + spec_bencode(*v),
    decreases *v,
{
    match v {
        Bencode::Int(n) => {
            out.push(105);
            if *n < 0 {
                out.push(45);
                let big: i128 = *n as i128;
                let neg: i128 = -big;
                assert(0 <= neg <= u64::MAX);
                push_dec_bytes(out, neg as u64);
            } else {
                push_dec_bytes(out, *n as u64);
            }
            out.push(101);
            proof {
                assert(out@ =~= old(out)@ + spec_bencode(*v));
            }
        },
        Bencode::Bytes(b) => {
            push_dec_bytes(out, b.len() as u64);
            out.push(58);
            push_raw(out, b);
            proof {
                assert(out@ =~= old(out)@ + spec_bencode(*v));
            }
        },
        Bencode::List(items) => {
            proof {
                assert(decreases_to!(*v => items@));
            }
            out.push(108);
            push_bencode_items(out, items);
            out.push(101);
            proof {
                assert(out@ =~= old(out)@ + spec_bencode(*v));
            }
        },
        Bencode::Dict(fields) => {
            proof {
                assert(decreases_to!(*v => fields@));
            }
            out.push(100);
            push_bencode_fields(out, fields);
            out.push(101);
            proof {
                assert(out@ =~= old(out)@ + spec_bencode(*v));
            }
        },
    }
}

/// Appends the encodings of list elements, in order.
#[verifier::loop_isolation(false)]
fn push_bencode_items(out: &mut Vec<u8>, items: &Vec<Bencode>)
    ensures
        final(out)@ == old(out)@ + spec_bencode_items(items@),
    decreases items@,
{
    let m = items.len();
    for i in 0..m
        invariant
            m == items@.len(),
            out@ == old(out)@ + spec_bencode_items(items@.take(i as int)),
    {
        proof {
            assert(decreases_to!(items@ => items@[i as int]));
        }
        push_bencode(out, &items[i]);
        proof {
            let t = items@.take(i + 1);
            assert(t.drop_last() =~= items@.take(i as int));
            assert(t.last() == items@[i as int]);
            assert(out@ =~= old(out)@ + spec_bencode_items(items@.take(i + 1)));
        }
    }
    proof {
        assert(items@.take(m as int) =~= items@);
    }
}

/// Appends the encodings of dictionary members, keys first, in order.
#[verifier::loop_isolation(false)]
fn push_bencode_fields(out: &mut Vec<u8>, fields: &Vec<(Vec<u8>, Bencode)>)
    ensures
        final(out)@ == old(out)@ + spec_bencode_fields(fields@),
    decreases fields@,
{
    let m = fields.len();
    for i in 0..m
        invariant
            m == fields@.len(),
            out@ == old(out)@ + spec_bencode_fields(fields@.take(i as int)),
    {
        push_dec_bytes(out, fields[i].0.len() as u64);
        out.push(58);
        push_raw(out, &fields[i].0);
        proof {
            assert(decreases_to!(fields@ => fields@[i as int]));
            assert(decreases_to!(fields@[i as int] => fields@[i as int].1));
        }
        push_bencode(out, &fields[i].1);
        proof {
            let t = fields@.take(i + 1);
            assert(t.drop_last() =~= fields@.take(i as int));
            assert(t.last() == fields@[i as int]);
            assert(out@ =~= old(out)@ + spec_bencode_fields(fields@.take(i + 1)));
        }
    }
    proof {
        assert(fields@.take(m as int) =~= fields@);
    }
}

/// The canonical encoding of `v` as a fresh byte vector.
pub fn encode_bencode(v: &Bencode) -> (r: Vec<u8>)
    ensures
        r@ == spec_bencode(*v),
{
    let mut out: Vec<u8> = Vec::new();
    push_bencode(&mut out, v);
    out
}

/// Parses the decimal run at `i`: consumed digits, no leading zero, value
/// within the machine word. What it accepts re-encodes to the consumed
/// bytes.
#[verifier::loop_isolation(false)]
fn parse_dec(data: &Vec<u8>, i: usize) -> (r: Option<(u64, usize)>)
    requires
        i <= data@.len(),
    ensures
        r matches Some((n, j)) ==> i < j <= data@.len() && spec_dec_bytes(n as nat)
            == data@.subrange(i as int, j as int),
    decreases data@.len() - i,
{
    if i >= data.len() {
        return None;
    }
    let c0 = data[i];
    if c0 < 48 || c0 > 57 {
        return None;
    }
    if c0 == 48 {
        // A leading zero stands only for zero itself.
        proof {
            assert(spec_dec_bytes(0) =~= data@.subrange(i as int, i + 1));
        }
        return Some((0, i + 1));
    }
    let mut n: u64 = (c0 - 48) as u64;
    let mut j: usize = i + 1;
    proof {
        assert(spec_dec_bytes(n as nat) =~= data@.subrange(i as int, j as int));
    }
    while j < data.len() && data[j] >= 48 && data[j] <= 57
        invariant
            i < j <= data@.len(),
            spec_dec_bytes(n as nat) == data@.subrange(i as int, j as int),
            n >= 1,
        decreases data@.len() - j,
    {
        let d = (data[j] - 48) as u64;
        if n > (u64::MAX - d) / 10 {
            return None;
        }
        let ghost n0 = n as nat;
        n = n * 10 + d;
        j = j + 1;
        proof {
            assert(n as nat == n0 * 10 + d);
            assert((n as nat) / 10 == n0);
            assert((n as nat) % 10 == d);
            assert(n >= 10);
            assert(spec_dec_bytes(n as nat) == spec_dec_bytes(n0) + seq![(48 + (n as nat) % 10) as u8]);
            assert(data@.subrange(i as int, j as int) =~= data@.subrange(i as int, j - 1).push(
                data@[j - 1],
            ));
            assert(spec_dec_bytes(n as nat) =~= data@.subrange(i as int, j as int));
        }
    }
    Some((n, j))
}

/// The parse result: the value and the index just past its encoding.
pub enum ParsedAt {
    Value(Bencode, usize),
    Invalid,
}

/// Parses one bencode value at `i`. Whatever it accepts re-encodes to
/// exactly the consumed bytes — the strict grammar has one encoding per
/// value — so the returned value is pinned by the input.
#[verifier::loop_isolation(false)]
pub fn parse_bencode_at(data: &Vec<u8>, i: usize) -> (r: ParsedAt)
    requires
        i <= data@.len(),
    ensures
        r matches ParsedAt::Value(v, j) ==> i < j <= data@.len() && spec_bencode(v)
            == data@.subrange(i as int, j as int),
    decreases data@.len() - i,
{
    if i >= data.len() {
        return ParsedAt::Invalid;
    }
    let c = data[i];
    if c == 105 {
        // integer: 'i', optional '-', digits, 'e'
        let neg = i + 1 < data.len() && data[i + 1] == 45;
        let dstart = if neg {
            i + 2
        } else {
            i + 1
        };
        if dstart > data.len() {
            return ParsedAt::Invalid;
        }
        let (mag, j) = match parse_dec(data, dstart) {
            Some(p) => p,
            None => {
                return ParsedAt::Invalid;
            },
        };
        if j >= data.len() || data[j] != 101 {
            return ParsedAt::Invalid;
        }
        if neg {
            if mag == 0 || mag > 0x8000000000000000 {
                return ParsedAt::Invalid;
            }
            let value: i64 = if mag == 0x8000000000000000 {
                i64::MIN
            } else {
                -((mag) as i64)
            };
            proof {
                assert(value as int == -(mag as int));
                assert(spec_int_bytes(value as int) =~= seq![45u8] + spec_dec_bytes(mag as nat));
                assert(spec_bencode(Bencode::Int(value)) =~= data@.subrange(i as int, j + 1));
            }
            return ParsedAt::Value(Bencode::Int(value), j + 1);
        }
        if mag > 0x7FFFFFFFFFFFFFFF {
            return ParsedAt::Invalid;
        }
        let value: i64 = mag as i64;
        proof {
            assert(spec_bencode(Bencode::Int(value)) =~= data@.subrange(i as int, j + 1));
        }
        return ParsedAt::Value(Bencode::Int(value), j + 1);
    }
    if c >= 48 && c <= 57 {
        // byte string: length, ':', bytes
        let (len, j) = match parse_dec(data, i) {
            Some(p) => p,
            None => {
                return ParsedAt::Invalid;
            },
        };
        if j >= data.len() || data[j] != 58 {
            return ParsedAt::Invalid;
        }
        if len > (data.len() - j - 1) as u64 {
            return ParsedAt::Invalid;
        }
        let blen = len as usize;
        let bstart = j + 1;
        let mut bytes: Vec<u8> = Vec::new();
        for k in 0..blen
            invariant
                bstart + blen <= data@.len(),
                bytes@ == data@.subrange(bstart as int, bstart + k),
        {
            bytes.push(data[bstart + k]);
            proof {
                assert(data@.subrange(bstart as int, bstart + k + 1) =~= data@.subrange(
                    bstart as int,
                    bstart + k,
                ).push(data@[bstart + k]));
            }
        }
        proof {
            assert(spec_bencode(Bencode::Bytes(bytes)) =~= data@.subrange(
                i as int,
                bstart + blen,
            ));
        }
        return ParsedAt::Value(Bencode::Bytes(bytes), bstart + blen);
    }
    if c == 108 {
        // list: 'l', values, 'e'
        let mut items: Vec<Bencode> = Vec::new();
        let mut pos: usize = i + 1;
        proof {
            assert(seq![108u8] + spec_bencode_items(items@) =~= data@.subrange(i as int, pos as int));
        }
        while pos < data.len() && data[pos] != 101
            invariant
                i < pos <= data@.len(),
                seq![108u8] + spec_bencode_items(items@) == data@.subrange(i as int, pos as int),
            decreases data@.len() - pos,
        {
            let ghost previtems = items@;
            match parse_bencode_at(data, pos) {
                ParsedAt::Value(v, j) => {
                    proof {
                        assert(spec_bencode_items(previtems.push(v)) == spec_bencode_items(
                            previtems,
                        ) + spec_bencode(v)) by {
                            assert(previtems.push(v).drop_last() =~= previtems);
                        }
                        assert(data@.subrange(i as int, j as int) =~= data@.subrange(
                            i as int,
                            pos as int,
                        ) + data@.subrange(pos as int, j as int));
                        assert(seq![108u8] + spec_bencode_items(previtems.push(v)) =~= data@
                            .subrange(i as int, j as int));
                    }
                    items.push(v);
                    pos = j;
                },
                ParsedAt::Invalid => {
                    return ParsedAt::Invalid;
                },
            }
        }
        if pos >= data.len() {
            return ParsedAt::Invalid;
        }
        proof {
            assert(spec_bencode(Bencode::List(items)) =~= data@.subrange(i as int, pos + 1));
        }
        return ParsedAt::Value(Bencode::List(items), pos + 1);
    }
    if c == 100 {
        // dictionary: 'd', key-value pairs, 'e'
        let mut fields: Vec<(Vec<u8>, Bencode)> = Vec::new();
        let mut pos: usize = i + 1;
        proof {
            assert(seq![100u8] + spec_bencode_fields(fields@) =~= data@.subrange(
                i as int,
                pos as int,
            ));
        }
        while pos < data.len() && data[pos] != 101
            invariant
                i < pos <= data@.len(),
                seq![100u8] + spec_bencode_fields(fields@) == data@.subrange(i as int, pos as int),
            decreases data@.len() - pos,
        {
            let ghost prevfields = fields@;
            // the key: a byte string
            let kc = data[pos];
            if !(kc >= 48 && kc <= 57) {
                return ParsedAt::Invalid;
            }
            let key = match parse_bencode_at(data, pos) {
                ParsedAt::Value(Bencode::Bytes(b), j) => (b, j),
                _ => {
                    return ParsedAt::Invalid;
                },
            };
            let (kbytes, kend) = key;
            if kend >= data.len() {
                return ParsedAt::Invalid;
            }
            match parse_bencode_at(data, kend) {
                ParsedAt::Value(v, j) => {
                    proof {
                        let entry = (kbytes, v);
                        assert(spec_bencode_fields(prevfields.push(entry)) == spec_bencode_fields(
                            prevfields,
                        ) + spec_dec_bytes(kbytes@.len()) + seq![58u8] + kbytes@ + spec_bencode(v))
                            by {
                            assert(prevfields.push(entry).drop_last() =~= prevfields);
                        }
                        assert(spec_bencode(Bencode::Bytes(kbytes)) == spec_dec_bytes(kbytes@.len())
                            + seq![58u8] + kbytes@);
                        assert(data@.subrange(i as int, kend as int) =~= data@.subrange(
                            i as int,
                            pos as int,
                        ) + data@.subrange(pos as int, kend as int));
                        assert(data@.subrange(i as int, j as int) =~= data@.subrange(
                            i as int,
                            kend as int,
                        ) + data@.subrange(kend as int, j as int));
                        assert(seq![100u8] + spec_bencode_fields(prevfields.push(entry)) =~= data@
                            .subrange(i as int, j as int));
                    }
                    fields.push((kbytes, v));
                    pos = j;
                },
                ParsedAt::Invalid => {
                    return ParsedAt::Invalid;
                },
            }
        }
        if pos >= data.len() {
            return ParsedAt::Invalid;
        }
        proof {
            assert(spec_bencode(Bencode::Dict(fields)) =~= data@.subrange(i as int, pos + 1));
        }
        return ParsedAt::Value(Bencode::Dict(fields), pos + 1);
    }
    ParsedAt::Invalid
}

/// Parses a whole document: one bencode value covering every byte. What it
/// accepts re-encodes to exactly the input.
pub fn parse_bencode(data: &Vec<u8>) -> (r: Option<Bencode>)
    ensures
        r matches Some(v) ==> spec_bencode(v) == data@,
{
    match parse_bencode_at(data, 0) {
        ParsedAt::Value(v, j) => {
            if j == data.len() {
                proof {
                    assert(data@.subrange(0, data@.len() as int) =~= data@);
                }
                Some(v)
            } else {
                None
            }
        },
        ParsedAt::Invalid => None,
    }
}

} // verus!
