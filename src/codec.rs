//! Byte-level wire format: little-endian integers, length-prefixed UTF-8
//! strings and length-prefixed lists of `u64`, each with a reader, a writer
//! and the proofs that the two are inverse.
use vstd::prelude::*;
use vstd::utf8::{decode_utf8, encode_utf8, valid_utf8};

verus! {

broadcast use vstd::utf8::encode_utf8_decode_utf8, vstd::utf8::encode_utf8_valid_utf8;

// ---------------------------------------------------------------------------
// Integers
// ---------------------------------------------------------------------------

/// Little-endian bytes of a `u64`.
pub open spec fn le_u64(v: u64) -> Seq<u8> {
    seq![
        (v & 0xff) as u8,
        ((v >> 8u64) & 0xff) as u8,
        ((v >> 16u64) & 0xff) as u8,
        ((v >> 24u64) & 0xff) as u8,
        ((v >> 32u64) & 0xff) as u8,
        ((v >> 40u64) & 0xff) as u8,
        ((v >> 48u64) & 0xff) as u8,
        ((v >> 56u64) & 0xff) as u8,
    ]
}

/// The `u64` whose little-endian bytes are the first eight of `b`.
pub open spec fn u64_of_le(b: Seq<u8>) -> u64
    recommends
        b.len() >= 8,
{
    (b[0] as u64) | ((b[1] as u64) << 8u64) | ((b[2] as u64) << 16u64) | ((b[3] as u64) << 24u64)
        | ((b[4] as u64) << 32u64) | ((b[5] as u64) << 40u64) | ((b[6] as u64) << 48u64) | ((
    b[7] as u64) << 56u64)
}

/// Little-endian bytes of a `u32`.
pub open spec fn le_u32(v: u32) -> Seq<u8> {
    seq![
        (v & 0xff) as u8,
        ((v >> 8u32) & 0xff) as u8,
        ((v >> 16u32) & 0xff) as u8,
        ((v >> 24u32) & 0xff) as u8,
    ]
}

/// The `u32` whose little-endian bytes are the first four of `b`.
pub open spec fn u32_of_le(b: Seq<u8>) -> u32
    recommends
        b.len() >= 4,
{
    (b[0] as u32) | ((b[1] as u32) << 8u32) | ((b[2] as u32) << 16u32) | ((b[3] as u32) << 24u32)
}

pub proof fn lemma_u64_le_value(v: u64)
    ensures
        u64_of_le(le_u64(v)) == v,
        le_u64(v).len() == 8,
{
    let b = le_u64(v);
    assert(b[0] == (v & 0xff) as u8);
    assert(b[7] == ((v >> 56u64) & 0xff) as u8);
    assert(((((v & 0xff) as u8) as u64) | (((((v >> 8u64) & 0xff) as u8) as u64) << 8u64) | ((((
    (v >> 16u64) & 0xff) as u8) as u64) << 16u64) | (((((v >> 24u64) & 0xff) as u8) as u64)
        << 24u64) | (((((v >> 32u64) & 0xff) as u8) as u64) << 32u64) | (((((v >> 40u64) & 0xff)
        as u8) as u64) << 40u64) | (((((v >> 48u64) & 0xff) as u8) as u64) << 48u64) | (((((v
        >> 56u64) & 0xff) as u8) as u64) << 56u64)) == v) by (bit_vector);
}

pub proof fn lemma_u64_le_bytes(b: Seq<u8>)
    requires
        b.len() == 8,
    ensures
        le_u64(u64_of_le(b)) == b,
{
    let (b0, b1, b2, b3, b4, b5, b6, b7) = (b[0], b[1], b[2], b[3], b[4], b[5], b[6], b[7]);
    let v = u64_of_le(b);
    assert(v == (b0 as u64) | ((b1 as u64) << 8u64) | ((b2 as u64) << 16u64) | ((b3 as u64)
        << 24u64) | ((b4 as u64) << 32u64) | ((b5 as u64) << 40u64) | ((b6 as u64) << 48u64) | ((
    b7 as u64) << 56u64));
    assert(v == (b0 as u64) | ((b1 as u64) << 8u64) | ((b2 as u64) << 16u64) | ((b3 as u64)
        << 24u64) | ((b4 as u64) << 32u64) | ((b5 as u64) << 40u64) | ((b6 as u64) << 48u64) | ((
    b7 as u64) << 56u64) ==> (v & 0xff) as u8 == b0 && ((v >> 8u64) & 0xff) as u8 == b1 && ((v
        >> 16u64) & 0xff) as u8 == b2 && ((v >> 24u64) & 0xff) as u8 == b3 && ((v >> 32u64)
        & 0xff) as u8 == b4 && ((v >> 40u64) & 0xff) as u8 == b5 && ((v >> 48u64) & 0xff) as u8
        == b6 && ((v >> 56u64) & 0xff) as u8 == b7) by (bit_vector);
    assert(le_u64(v) =~= b);
}

pub proof fn lemma_u32_le_value(v: u32)
    ensures
        u32_of_le(le_u32(v)) == v,
        le_u32(v).len() == 4,
{
    let b = le_u32(v);
    assert(b[3] == ((v >> 24u32) & 0xff) as u8);
    assert(((((v & 0xff) as u8) as u32) | (((((v >> 8u32) & 0xff) as u8) as u32) << 8u32) | ((((
    (v >> 16u32) & 0xff) as u8) as u32) << 16u32) | (((((v >> 24u32) & 0xff) as u8) as u32)
        << 24u32)) == v) by (bit_vector);
}

pub proof fn lemma_u32_le_bytes(b: Seq<u8>)
    requires
        b.len() == 4,
    ensures
        le_u32(u32_of_le(b)) == b,
{
    let (b0, b1, b2, b3) = (b[0], b[1], b[2], b[3]);
    let v = u32_of_le(b);
    assert(v == (b0 as u32) | ((b1 as u32) << 8u32) | ((b2 as u32) << 16u32) | ((b3 as u32)
        << 24u32) ==> (v & 0xff) as u8 == b0 && ((v >> 8u32) & 0xff) as u8 == b1 && ((v >> 16u32)
        & 0xff) as u8 == b2 && ((v >> 24u32) & 0xff) as u8 == b3) by (bit_vector);
    assert(le_u32(v) =~= b);
}

// ---------------------------------------------------------------------------
// Readers over the rest of a buffer: each gives the value read and what follows
// ---------------------------------------------------------------------------

pub open spec fn take_u32(b: Seq<u8>) -> Option<(u32, Seq<u8>)> {
    if b.len() >= 4 {
        Some((u32_of_le(b), b.skip(4)))
    } else {
        None
    }
}

pub open spec fn take_u64(b: Seq<u8>) -> Option<(u64, Seq<u8>)> {
    if b.len() >= 8 {
        Some((u64_of_le(b), b.skip(8)))
    } else {
        None
    }
}

/// A string: its UTF-8 byte length as a `u32`, then the bytes, which must be valid UTF-8.
pub open spec fn take_string(b: Seq<u8>) -> Option<(Seq<char>, Seq<u8>)> {
    match take_u32(b) {
        Some((n, r)) => if n <= r.len() && valid_utf8(r.take(n as int)) {
            Some((decode_utf8(r.take(n as int)), r.skip(n as int)))
        } else {
            None
        },
        None => None,
    }
}

/// A list of `u64`: its length as a `u32`, then each item.
pub open spec fn take_u64_list(b: Seq<u8>) -> Option<(Seq<u64>, Seq<u8>)> {
    match take_u32(b) {
        Some((n, r)) => if 8 * n <= r.len() {
            Some((Seq::new(n as nat, |i: int| u64_of_le(r.skip(8 * i))), r.skip(8 * n)))
        } else {
            None
        },
        None => None,
    }
}

// ---------------------------------------------------------------------------
// What the writers produce
// ---------------------------------------------------------------------------

/// Whether a string's UTF-8 form fits the `u32` length prefix.
pub open spec fn string_fits(s: Seq<char>) -> bool {
    encode_utf8(s).len() <= u32::MAX
}

pub open spec fn string_wire(s: Seq<char>) -> Seq<u8> {
    le_u32(encode_utf8(s).len() as u32) + encode_utf8(s)
}

/// The items of a list, each as eight little-endian bytes, without a prefix.
pub open spec fn u64s_wire(vs: Seq<u64>) -> Seq<u8>
    decreases vs.len(),
{
    if vs.len() == 0 {
        seq![]
    } else {
        u64s_wire(vs.drop_last()) + le_u64(vs.last())
    }
}

pub open spec fn u64_list_wire(vs: Seq<u64>) -> Seq<u8> {
    le_u32(vs.len() as u32) + u64s_wire(vs)
}

// ---------------------------------------------------------------------------
// Readers and writers undo each other
// ---------------------------------------------------------------------------

pub proof fn lemma_take_u32_wire(v: u32, rest: Seq<u8>)
    ensures
        take_u32(le_u32(v) + rest) == Some((v, rest)),
{
    lemma_u32_le_value(v);
    let b = le_u32(v) + rest;
    assert(b.take(4) =~= le_u32(v));
    assert(u32_of_le(b) == u32_of_le(b.take(4)));
    assert(b.skip(4) =~= rest);
}

pub proof fn lemma_take_u32_parts(b: Seq<u8>)
    requires
        take_u32(b) is Some,
    ensures
        b == le_u32((take_u32(b)->0).0) + (take_u32(b)->0).1,
{
    lemma_u32_le_bytes(b.take(4));
    assert(u32_of_le(b) == u32_of_le(b.take(4)));
    assert(b =~= b.take(4) + b.skip(4));
}

pub proof fn lemma_take_u64_wire(v: u64, rest: Seq<u8>)
    ensures
        take_u64(le_u64(v) + rest) == Some((v, rest)),
{
    lemma_u64_le_value(v);
    let b = le_u64(v) + rest;
    assert(b.take(8) =~= le_u64(v));
    assert(u64_of_le(b) == u64_of_le(b.take(8)));
    assert(b.skip(8) =~= rest);
}

pub proof fn lemma_take_u64_parts(b: Seq<u8>)
    requires
        take_u64(b) is Some,
    ensures
        b == le_u64((take_u64(b)->0).0) + (take_u64(b)->0).1,
{
    lemma_u64_le_bytes(b.take(8));
    assert(u64_of_le(b) == u64_of_le(b.take(8)));
    assert(b =~= b.take(8) + b.skip(8));
}

pub proof fn lemma_take_string_wire(s: Seq<char>, rest: Seq<u8>)
    requires
        string_fits(s),
    ensures
        take_string(string_wire(s) + rest) == Some((s, rest)),
{
    let e = encode_utf8(s);
    let n = e.len() as u32;
    assert(string_wire(s) + rest =~= le_u32(n) + (e + rest));
    lemma_take_u32_wire(n, e + rest);
    assert((e + rest).take(n as int) =~= e);
    assert((e + rest).skip(n as int) =~= rest);
}

pub proof fn lemma_take_string_parts(b: Seq<u8>)
    requires
        take_string(b) is Some,
    ensures
        string_fits((take_string(b)->0).0),
        b == string_wire((take_string(b)->0).0) + (take_string(b)->0).1,
{
    let (n, r) = take_u32(b)->0;
    lemma_take_u32_parts(b);
    let e = r.take(n as int);
    vstd::utf8::decode_utf8_encode_utf8(e);
    assert(encode_utf8(decode_utf8(e)) == e);
    assert(r =~= e + r.skip(n as int));
}

pub proof fn lemma_u64s_wire_len(vs: Seq<u64>)
    ensures
        u64s_wire(vs).len() == 8 * vs.len(),
    decreases vs.len(),
{
    if vs.len() > 0 {
        lemma_u64s_wire_len(vs.drop_last());
        lemma_u64_le_value(vs.last());
    }
}

/// Item `i` of a list stands at bytes `8 * i ..` of its wire form.
pub proof fn lemma_u64s_wire_item(vs: Seq<u64>, rest: Seq<u8>, i: int)
    requires
        0 <= i < vs.len(),
    ensures
        u64_of_le((u64s_wire(vs) + rest).skip(8 * i)) == vs[i],
    decreases vs.len(),
{
    let w = u64s_wire(vs) + rest;
    let front = vs.drop_last();
    lemma_u64s_wire_len(front);
    if i == vs.len() - 1 {
        lemma_u64_le_value(vs.last());
        assert(w.skip(8 * i).take(8) =~= le_u64(vs.last()));
        assert(u64_of_le(w.skip(8 * i)) == u64_of_le(w.skip(8 * i).take(8)));
    } else {
        assert(w =~= u64s_wire(front) + (le_u64(vs.last()) + rest));
        lemma_u64s_wire_item(front, le_u64(vs.last()) + rest, i);
    }
}

/// Bytes of length `8 * n` are the wire form of the `n` items they hold.
pub proof fn lemma_u64s_wire_of_bytes(b: Seq<u8>, n: nat)
    requires
        b.len() == 8 * n,
    ensures
        u64s_wire(Seq::new(n, |i: int| u64_of_le(b.skip(8 * i)))) == b,
    decreases n,
{
    let vs = Seq::new(n, |i: int| u64_of_le(b.skip(8 * i)));
    if n > 0 {
        let m = (n - 1) as nat;
        let front = b.take(8 * (m as int));
        lemma_u64s_wire_of_bytes(front, m);
        let fvs = Seq::new(m, |i: int| u64_of_le(front.skip(8 * i)));
        assert forall|i: int| 0 <= i < m implies fvs[i] == vs.drop_last()[i] by {
            assert(front.skip(8 * i).take(8) =~= b.skip(8 * i).take(8));
            assert(u64_of_le(front.skip(8 * i)) == u64_of_le(front.skip(8 * i).take(8)));
            assert(u64_of_le(b.skip(8 * i)) == u64_of_le(b.skip(8 * i).take(8)));
        }
        assert(fvs =~= vs.drop_last());
        lemma_u64_le_bytes(b.skip(8 * (m as int)));
        assert(u64_of_le(b.skip(8 * (m as int))) == vs.last());
        assert(b =~= front + b.skip(8 * (m as int)));
    } else {
        assert(b =~= seq![]);
    }
}

pub proof fn lemma_take_u64_list_wire(vs: Seq<u64>, rest: Seq<u8>)
    requires
        vs.len() <= u32::MAX,
    ensures
        take_u64_list(u64_list_wire(vs) + rest) == Some((vs, rest)),
{
    let n = vs.len() as u32;
    let w = u64s_wire(vs);
    lemma_u64s_wire_len(vs);
    assert(u64_list_wire(vs) + rest =~= le_u32(n) + (w + rest));
    lemma_take_u32_wire(n, w + rest);
    let got = Seq::new(n as nat, |i: int| u64_of_le((w + rest).skip(8 * i)));
    assert forall|i: int| 0 <= i < n implies got[i] == vs[i] by {
        lemma_u64s_wire_item(vs, rest, i);
    }
    assert(got =~= vs);
    assert((w + rest).skip(8 * n) =~= rest);
}

/// Reading a `u64` looks at the first eight bytes only.
pub proof fn lemma_u64_of_le_prefix(a: Seq<u8>, b: Seq<u8>)
    requires
        a.len() >= 8,
        b.len() >= 8,
        a.take(8) == b.take(8),
    ensures
        u64_of_le(a) == u64_of_le(b),
{
    assert(a[0] == a.take(8)[0] && a[1] == a.take(8)[1] && a[2] == a.take(8)[2]);
    assert(a[3] == a.take(8)[3] && a[4] == a.take(8)[4] && a[5] == a.take(8)[5]);
    assert(a[6] == a.take(8)[6] && a[7] == a.take(8)[7]);
    assert(b[0] == b.take(8)[0] && b[1] == b.take(8)[1] && b[2] == b.take(8)[2]);
    assert(b[3] == b.take(8)[3] && b[4] == b.take(8)[4] && b[5] == b.take(8)[5]);
    assert(b[6] == b.take(8)[6] && b[7] == b.take(8)[7]);
}

proof fn lemma_items_of_prefix(r: Seq<u8>, n: nat)
    requires
        8 * n <= r.len(),
    ensures
        Seq::new(n, |i: int| u64_of_le(r.skip(8 * i))) == Seq::new(
            n,
            |i: int| u64_of_le(r.take(8 * (n as int)).skip(8 * i)),
        ),
{
    let items = r.take(8 * (n as int));
    let vs = Seq::new(n, |i: int| u64_of_le(r.skip(8 * i)));
    let ws = Seq::new(n, |i: int| u64_of_le(items.skip(8 * i)));
    assert forall|i: int| 0 <= i < n implies vs[i] == ws[i] by {
        assert(8 * i + 8 <= 8 * n);
        assert(r.skip(8 * i).take(8) =~= items.skip(8 * i).take(8));
        lemma_u64_of_le_prefix(r.skip(8 * i), items.skip(8 * i));
    }
    assert(vs =~= ws);
}

pub proof fn lemma_take_u64_list_parts(b: Seq<u8>)
    requires
        take_u64_list(b) is Some,
    ensures
        (take_u64_list(b)->0).0.len() <= u32::MAX,
        b == u64_list_wire((take_u64_list(b)->0).0) + (take_u64_list(b)->0).1,
{
    let (n, r) = take_u32(b)->0;
    lemma_take_u32_parts(b);
    let items = r.take(8 * n);
    lemma_u64s_wire_of_bytes(items, n as nat);
    lemma_items_of_prefix(r, n as nat);
    assert(r =~= items + r.skip(8 * n));
}

// ---------------------------------------------------------------------------
// Executable readers: each reads at position `at` of a buffer and gives the
// value and the position after it
// ---------------------------------------------------------------------------

/// What a reader at `at` returns, given what the spec reader gives on the rest of the buffer.
pub open spec fn read_result<T>(r: Option<(T, usize)>, spec: Option<(T, Seq<u8>)>, b: Seq<u8>) -> bool {
    match spec {
        Some((v, rest)) => r is Some && (r->0).0 == v && (r->0).1 <= b.len() && b.skip(
            (r->0).1 as int,
        ) == rest,
        None => r is None,
    }
}

pub fn read_u32(b: &[u8], at: usize) -> (r: Option<(u32, usize)>)
    requires
        at <= b@.len(),
    ensures
        read_result(r, take_u32(b@.skip(at as int)), b@),
{
    if b.len() - at < 4 {
        return None;
    }
    let v: u32 = (b[at] as u32) | ((b[at + 1] as u32) << 8u32) | ((b[at + 2] as u32) << 16u32) | ((
    b[at + 3] as u32) << 24u32);
    assert(b@.skip(at as int).skip(4) =~= b@.skip(at + 4));
    Some((v, at + 4))
}

pub fn read_u64(b: &[u8], at: usize) -> (r: Option<(u64, usize)>)
    requires
        at <= b@.len(),
    ensures
        read_result(r, take_u64(b@.skip(at as int)), b@),
{
    if b.len() - at < 8 {
        return None;
    }
    let v: u64 = (b[at] as u64) | ((b[at + 1] as u64) << 8u64) | ((b[at + 2] as u64) << 16u64) | ((
    b[at + 3] as u64) << 24u64) | ((b[at + 4] as u64) << 32u64) | ((b[at + 5] as u64) << 40u64)
        | ((b[at + 6] as u64) << 48u64) | ((b[at + 7] as u64) << 56u64);
    assert(b@.skip(at as int).skip(8) =~= b@.skip(at + 8));
    Some((v, at + 8))
}

/// Relies on `String::from_utf8`: it accepts exactly the valid UTF-8 byte
/// strings, and the string it returns has those bytes as its UTF-8 form.
#[verifier::external_body]
fn string_from_utf8(bytes: Vec<u8>) -> (r: Option<String>)
    ensures
        r is Some <==> valid_utf8(bytes@),
        r matches Some(s) ==> encode_utf8(s@) == bytes@,
{
    String::from_utf8(bytes).ok()
}

pub fn read_string(b: &[u8], at: usize) -> (r: Option<(String, usize)>)
    requires
        at <= b@.len(),
    ensures
        match take_string(b@.skip(at as int)) {
            Some((s, rest)) => r is Some && (r->0).0@ == s && (r->0).1 <= b@.len() && b@.skip(
                (r->0).1 as int,
            ) == rest,
            None => r is None,
        },
{
    let (n, p) = match read_u32(b, at) {
        Some(x) => x,
        None => return None,
    };
    let len = n as usize;
    if len > b.len() - p {
        return None;
    }
    let ghost rest = b@.skip(p as int);
    let mut bytes: Vec<u8> = Vec::new();
    let mut i: usize = 0;
    while i < len
        invariant
            p + len <= b.len(),
            0 <= i <= len,
            bytes@ == b@.subrange(p as int, p + i),
        decreases len - i,
    {
        bytes.push(b[p + i]);
        i = i + 1;
        assert(bytes@ =~= b@.subrange(p as int, p + i));
    }
    assert(bytes@ =~= rest.take(n as int));
    let s = match string_from_utf8(bytes) {
        Some(s) => s,
        None => return None,
    };
    proof {
        vstd::utf8::decode_utf8_encode_utf8(rest.take(n as int));
        assert(s@ == decode_utf8(encode_utf8(s@)));
    }
    assert(rest.skip(n as int) =~= b@.skip(p + len));
    Some((s, p + len))
}

pub fn read_u64_list(b: &[u8], at: usize) -> (r: Option<(Vec<u64>, usize)>)
    requires
        at <= b@.len(),
    ensures
        match take_u64_list(b@.skip(at as int)) {
            Some((vs, rest)) => r is Some && (r->0).0@ == vs && (r->0).1 <= b@.len() && b@.skip(
                (r->0).1 as int,
            ) == rest,
            None => r is None,
        },
{
    let (n, p) = match read_u32(b, at) {
        Some(x) => x,
        None => return None,
    };
    let len = n as usize;
    if len > (b.len() - p) / 8 {
        return None;
    }
    let room = b.len() - p;
    assert(8 * len <= room) by (nonlinear_arith)
        requires
            len <= room / 8,
    ;
    let ghost rest = b@.skip(p as int);
    let mut vs: Vec<u64> = Vec::new();
    let mut i: usize = 0;
    while i < len
        invariant
            p + 8 * len <= b.len(),
            rest == b@.skip(p as int),
            0 <= i <= len,
            vs@ == Seq::new(i as nat, |j: int| u64_of_le(rest.skip(8 * j))),
        decreases len - i,
    {
        let (v, _) = match read_u64(b, p + 8 * i) {
            Some(x) => x,
            None => return None,
        };
        assert(b@.skip(p + 8 * i) =~= rest.skip(8 * i));
        vs.push(v);
        i = i + 1;
        assert(vs@ =~= Seq::new(i as nat, |j: int| u64_of_le(rest.skip(8 * j))));
    }
    assert(rest.skip(8 * n) =~= b@.skip(p + 8 * len));
    Some((vs, p + 8 * len))
}

// ---------------------------------------------------------------------------
// Executable writers: each appends to `out`
// ---------------------------------------------------------------------------

pub fn write_u8(out: &mut Vec<u8>, v: u8)
    ensures
        final(out)@ == old(out)@ + seq![v],
{
    out.push(v);
}

pub fn write_u32(out: &mut Vec<u8>, v: u32)
    ensures
        final(out)@ == old(out)@ + le_u32(v),
{
    out.push((v & 0xff) as u8);
    out.push(((v >> 8u32) & 0xff) as u8);
    out.push(((v >> 16u32) & 0xff) as u8);
    out.push(((v >> 24u32) & 0xff) as u8);
    assert(out@ =~= old(out)@ + le_u32(v));
}

pub fn write_u64(out: &mut Vec<u8>, v: u64)
    ensures
        final(out)@ == old(out)@ + le_u64(v),
{
    out.push((v & 0xff) as u8);
    out.push(((v >> 8u64) & 0xff) as u8);
    out.push(((v >> 16u64) & 0xff) as u8);
    out.push(((v >> 24u64) & 0xff) as u8);
    out.push(((v >> 32u64) & 0xff) as u8);
    out.push(((v >> 40u64) & 0xff) as u8);
    out.push(((v >> 48u64) & 0xff) as u8);
    out.push(((v >> 56u64) & 0xff) as u8);
    assert(out@ =~= old(out)@ + le_u64(v));
}

/// Whether `s` fits the wire's `u32` length prefix; its UTF-8 length is `s.len()`.
pub fn string_fits_wire(s: &String) -> (r: bool)
    ensures
        r == string_fits(s@),
{
    let bytes = s.as_str().as_bytes();
    bytes.len() <= 0xffff_ffffusize
}

pub fn write_string(out: &mut Vec<u8>, s: &String)
    requires
        string_fits(s@),
    ensures
        final(out)@ == old(out)@ + string_wire(s@),
{
    let bytes = s.as_str().as_bytes();
    let len = bytes.len();
    write_u32(out, len as u32);
    let ghost start = out@;
    let mut i: usize = 0;
    while i < len
        invariant
            len == bytes@.len(),
            bytes@ == encode_utf8(s@),
            0 <= i <= len,
            out@ == start + bytes@.take(i as int),
        decreases len - i,
    {
        out.push(bytes[i]);
        i = i + 1;
        assert(out@ =~= start + bytes@.take(i as int));
    }
    assert(bytes@.take(len as int) =~= bytes@);
    assert(out@ =~= old(out)@ + string_wire(s@));
}

pub fn write_u64_list(out: &mut Vec<u8>, vs: &Vec<u64>)
    requires
        vs@.len() <= u32::MAX,
    ensures
        final(out)@ == old(out)@ + u64_list_wire(vs@),
{
    let len = vs.len();
    write_u32(out, len as u32);
    let ghost start = out@;
    let mut i: usize = 0;
    while i < len
        invariant
            len == vs@.len(),
            0 <= i <= len,
            out@ == start + u64s_wire(vs@.take(i as int)),
        decreases len - i,
    {
        write_u64(out, vs[i]);
        i = i + 1;
        assert(vs@.take(i as int).drop_last() =~= vs@.take(i - 1));
        assert(out@ =~= start + u64s_wire(vs@.take(i as int)));
    }
    assert(vs@.take(len as int) =~= vs@);
    assert(out@ =~= old(out)@ + u64_list_wire(vs@));
}

} // verus!
