//! Primitives of the binary wire format the feeds use: base-128 varints and
//! little-endian fixed-width scalars, each with a specification-level
//! encoder/decoder pair, executable counterparts proved against them, and
//! round-trip lemmas.
//!
//! A field of a message is a varint *tag* (field number shifted left by 3,
//! or-ed with the wire type) followed by a payload. Wire type 0 is a varint,
//! wire type 1 an 8-byte little-endian scalar, wire type 2 a varint byte
//! length followed by that many bytes, and wire type 5 a 4-byte little-endian
//! scalar. Unlike a strict protobuf reader, the decoder here places no upper
//! bound on the byte count of a varint: over-long encodings are accepted and
//! their excess bits wrap around.
use vstd::prelude::*;

verus! {

/// Little-endian base-128 encoding of `v`: seven bits per byte, least
/// significant group first, the high bit of a byte marking continuation.
pub open spec fn varint_enc(v: u64) -> Seq<u8>
    decreases v,
    via varint_enc_decreases
{
    if v < 0x80 {
        seq![v as u8]
    } else {
        seq![((v & 0x7f) | 0x80) as u8] + varint_enc(v >> 7)
    }
}

#[via_fn]
proof fn varint_enc_decreases(v: u64) {
    assert(v >= 0x80 ==> (v >> 7) < v) by (bit_vector);
}

/// The varint starting at index `i` of `s`: its value and the index just
/// past it, or `None` when the buffer ends inside the varint.
pub open spec fn varint_at(s: Seq<u8>, i: int) -> Option<(u64, int)>
    decreases s.len() - i,
{
    if i < 0 || i >= s.len() {
        None
    } else {
        let b = s[i];
        if b < 0x80 {
            Some((b as u64, i + 1))
        } else {
            match varint_at(s, i + 1) {
                None => None,
                Some((v, j)) => Some(((v << 7) | ((b & 0x7f) as u64), j)),
            }
        }
    }
}

/// A varint of a value below 2^32 takes at most five bytes.
pub proof fn lemma_varint_enc_len_u32(v: u64)
    requires
        v <= u32::MAX,
    ensures
        1 <= varint_enc(v).len() <= 5,
{
    let v1 = v >> 7;
    let v2 = v1 >> 7;
    let v3 = v2 >> 7;
    let v4 = v3 >> 7;
    assert(v <= 0xffff_ffff ==> ((((v >> 7) >> 7) >> 7) >> 7) < 0x80) by (bit_vector);
    assert(varint_enc(v4).len() == 1);
    assert(varint_enc(v3).len() <= 2);
    assert(varint_enc(v2).len() <= 3);
    assert(varint_enc(v1).len() <= 4);
    assert(varint_enc(v).len() <= 5);
}

/// Decoding an encoded varint in place recovers the value and consumes
/// exactly the encoding's bytes.
pub proof fn lemma_varint_at_enc(s: Seq<u8>, i: int, v: u64)
    requires
        0 <= i,
        i + varint_enc(v).len() <= s.len(),
        s.subrange(i, i + varint_enc(v).len() as int) == varint_enc(v),
    ensures
        varint_at(s, i) == Some((v, i + varint_enc(v).len() as int)),
    decreases v,
{
    let e = varint_enc(v);
    assert(s[i] == e[0]);
    if v < 0x80 {
        assert(s[i] == v as u8);
    } else {
        let b: u64 = (v & 0x7f) | 0x80;
        assert(0x80 <= b <= 0xff) by (bit_vector)
            requires b == (v & 0x7f) | 0x80,
        ;
        assert(s[i] == b as u8);
        assert((b as u8) >= 0x80);
        let rest = varint_enc(v >> 7);
        assert forall|k: int| 0 <= k < rest.len()
            implies s.subrange(i + 1, i + 1 + rest.len() as int)[k] == rest[k] by {
            assert(s.subrange(i, i + e.len() as int)[k + 1] == e[k + 1]);
        }
        assert(s.subrange(i + 1, i + 1 + rest.len() as int) =~= rest);
        assert(v >= 0x80 ==> (v >> 7) < v) by (bit_vector);
        lemma_varint_at_enc(s, i + 1, v >> 7);
        assert((((v & 0x7f) | 0x80) as u8 & 0x7f) as u64 == (v & 0x7f)) by (bit_vector);
        assert(((v >> 7) << 7) | (v & 0x7f) == v) by (bit_vector);
    }
}

/// A window of a buffer that equals `t` agrees with `t` on every inner
/// window.
pub proof fn lemma_subrange_within(s: Seq<u8>, i: int, t: Seq<u8>, a: int, b: int)
    requires
        0 <= i,
        i + t.len() <= s.len(),
        s.subrange(i, i + t.len() as int) == t,
        0 <= a <= b <= t.len(),
    ensures
        s.subrange(i + a, i + b) == t.subrange(a, b),
{
    assert forall|k: int| 0 <= k < b - a
        implies s.subrange(i + a, i + b)[k] == t.subrange(a, b)[k] by {
        assert(s.subrange(i, i + t.len() as int)[a + k] == t[a + k]);
    }
    assert(s.subrange(i + a, i + b) =~= t.subrange(a, b));
}

/// Little-endian bytes of a 64-bit scalar.
pub open spec fn u64_le_enc(v: u64) -> Seq<u8> {
    seq![
        (v & 0xff) as u8,
        ((v >> 8) & 0xff) as u8,
        ((v >> 16) & 0xff) as u8,
        ((v >> 24) & 0xff) as u8,
        ((v >> 32) & 0xff) as u8,
        ((v >> 40) & 0xff) as u8,
        ((v >> 48) & 0xff) as u8,
        ((v >> 56) & 0xff) as u8,
    ]
}

/// The 64-bit little-endian scalar starting at index `i` of `s`.
pub open spec fn u64_le_at(s: Seq<u8>, i: int) -> u64
    recommends
        0 <= i && i + 8 <= s.len(),
{
    (s[i] as u64)
    | ((s[i + 1] as u64) << 8)
    | ((s[i + 2] as u64) << 16)
    | ((s[i + 3] as u64) << 24)
    | ((s[i + 4] as u64) << 32)
    | ((s[i + 5] as u64) << 40)
    | ((s[i + 6] as u64) << 48)
    | ((s[i + 7] as u64) << 56)
}

/// An 8-byte scalar field payload at index `i`, or `None` when fewer than 8
/// bytes remain.
pub open spec fn fixed64_at(s: Seq<u8>, i: int) -> Option<(u64, int)> {
    if 0 <= i && i + 8 <= s.len() {
        Some((u64_le_at(s, i), i + 8))
    } else {
        None
    }
}

/// Decoding the 8 encoded bytes of a 64-bit scalar recovers it.
pub proof fn lemma_fixed64_at_enc(s: Seq<u8>, i: int, v: u64)
    requires
        0 <= i,
        i + 8 <= s.len(),
        s.subrange(i, i + 8) == u64_le_enc(v),
    ensures
        fixed64_at(s, i) == Some((v, i + 8)),
{
    let e = u64_le_enc(v);
    assert(s[i] == e[0] && s[i + 1] == e[1] && s[i + 2] == e[2] && s[i + 3] == e[3]
        && s[i + 4] == e[4] && s[i + 5] == e[5] && s[i + 6] == e[6] && s[i + 7] == e[7]);
    assert(((v & 0xff) as u8 as u64)
        | ((((v >> 8) & 0xff) as u8 as u64) << 8)
        | ((((v >> 16) & 0xff) as u8 as u64) << 16)
        | ((((v >> 24) & 0xff) as u8 as u64) << 24)
        | ((((v >> 32) & 0xff) as u8 as u64) << 32)
        | ((((v >> 40) & 0xff) as u8 as u64) << 40)
        | ((((v >> 48) & 0xff) as u8 as u64) << 48)
        | ((((v >> 56) & 0xff) as u8 as u64) << 56) == v) by (bit_vector);
}

/// The 32-bit little-endian scalar starting at index `i` of `s`.
pub open spec fn u32_le_at(s: Seq<u8>, i: int) -> u32
    recommends
        0 <= i && i + 4 <= s.len(),
{
    (s[i] as u32)
    | ((s[i + 1] as u32) << 8)
    | ((s[i + 2] as u32) << 16)
    | ((s[i + 3] as u32) << 24)
}

/// A 4-byte scalar field payload at index `i`, or `None` when fewer than 4
/// bytes remain.
pub open spec fn fixed32_at(s: Seq<u8>, i: int) -> Option<(u32, int)> {
    if 0 <= i && i + 4 <= s.len() {
        Some((u32_le_at(s, i), i + 4))
    } else {
        None
    }
}

/// Index just past the payload of a field of wire type `wire` whose payload
/// starts at `i`, or `None` when the payload is cut short or the wire type
/// is not one of the four the format defines.
pub open spec fn skip_at(s: Seq<u8>, i: int, wire: u64) -> Option<int> {
    if wire == 0 {
        match varint_at(s, i) {
            Some((_v, j)) => Some(j),
            None => None,
        }
    } else if wire == 1 {
        if 0 <= i && i + 8 <= s.len() { Some(i + 8) } else { None }
    } else if wire == 2 {
        match varint_at(s, i) {
            Some((l, j)) => if j + l <= s.len() { Some(j + l) } else { None },
            None => None,
        }
    } else if wire == 5 {
        if 0 <= i && i + 4 <= s.len() { Some(i + 4) } else { None }
    } else {
        None
    }
}

/// Reads the varint at `pos`.
pub fn read_varint(data: &[u8], pos: usize) -> (r: Option<(u64, usize)>)
    requires
        pos <= data@.len(),
    ensures
        match r {
            Some((v, j)) => varint_at(data@, pos as int) == Some((v, j as int))
                && pos < j <= data@.len(),
            None => varint_at(data@, pos as int) is None,
        },
    decreases data@.len() - pos,
{
    if pos >= data.len() {
        return None;
    }
    let b = data[pos];
    if b < 0x80 {
        Some((b as u64, pos + 1))
    } else {
        match read_varint(data, pos + 1) {
            None => None,
            Some((v, j)) => Some(((v << 7) | ((b & 0x7f) as u64), j)),
        }
    }
}

/// Reads the 8-byte little-endian scalar at `pos`.
pub fn read_fixed64(data: &[u8], pos: usize) -> (r: Option<(u64, usize)>)
    requires
        pos <= data@.len(),
    ensures
        match r {
            Some((v, j)) => fixed64_at(data@, pos as int) == Some((v, j as int))
                && pos < j <= data@.len(),
            None => fixed64_at(data@, pos as int) is None,
        },
{
    if data.len() - pos < 8 {
        return None;
    }
    let v = (data[pos] as u64)
        | ((data[pos + 1] as u64) << 8)
        | ((data[pos + 2] as u64) << 16)
        | ((data[pos + 3] as u64) << 24)
        | ((data[pos + 4] as u64) << 32)
        | ((data[pos + 5] as u64) << 40)
        | ((data[pos + 6] as u64) << 48)
        | ((data[pos + 7] as u64) << 56);
    Some((v, pos + 8))
}

/// Reads the 4-byte little-endian scalar at `pos`.
pub fn read_fixed32(data: &[u8], pos: usize) -> (r: Option<(u32, usize)>)
    requires
        pos <= data@.len(),
    ensures
        match r {
            Some((v, j)) => fixed32_at(data@, pos as int) == Some((v, j as int))
                && pos < j <= data@.len(),
            None => fixed32_at(data@, pos as int) is None,
        },
{
    if data.len() - pos < 4 {
        return None;
    }
    let v = (data[pos] as u32)
        | ((data[pos + 1] as u32) << 8)
        | ((data[pos + 2] as u32) << 16)
        | ((data[pos + 3] as u32) << 24);
    Some((v, pos + 4))
}

/// Skips the payload of a field of wire type `wire` starting at `pos`.
pub fn skip_field(data: &[u8], pos: usize, wire: u64) -> (r: Option<usize>)
    requires
        pos <= data@.len(),
    ensures
        match r {
            Some(j) => skip_at(data@, pos as int, wire) == Some(j as int)
                && pos <= j <= data@.len(),
            None => skip_at(data@, pos as int, wire) is None,
        },
{
    if wire == 0 {
        match read_varint(data, pos) {
            Some((_v, j)) => Some(j),
            None => None,
        }
    } else if wire == 1 {
        if data.len() - pos >= 8 { Some(pos + 8) } else { None }
    } else if wire == 2 {
        match read_varint(data, pos) {
            Some((l, j)) => {
                if l <= (data.len() - j) as u64 {
                    Some(j + (l as usize))
                } else {
                    None
                }
            },
            None => None,
        }
    } else if wire == 5 {
        if data.len() - pos >= 4 { Some(pos + 4) } else { None }
    } else {
        None
    }
}

/// Appends the varint encoding of `v` to `buf`.
pub fn push_varint(buf: &mut Vec<u8>, v: u64)
    ensures
        final(buf)@ == old(buf)@ + varint_enc(v),
    decreases v,
{
    if v < 0x80 {
        buf.push(v as u8);
        assert(buf@ =~= old(buf)@ + varint_enc(v));
    } else {
        proof {
            assert(((v & 0x7f) | 0x80) <= 0xff) by (bit_vector);
        }
        buf.push(((v & 0x7f) | 0x80) as u8);
        proof {
            assert((v >> 7) < v) by (bit_vector)
                requires v >= 0x80,
            ;
        }
        push_varint(buf, v >> 7);
        assert(buf@ =~= old(buf)@ + varint_enc(v));
    }
}

/// Appends the 8 little-endian bytes of `v` to `buf`.
pub fn push_fixed64(buf: &mut Vec<u8>, v: u64)
    ensures
        final(buf)@ == old(buf)@ + u64_le_enc(v),
{
    proof {
        assert((v & 0xff) <= 0xff && ((v >> 8) & 0xff) <= 0xff && ((v >> 16) & 0xff) <= 0xff
            && ((v >> 24) & 0xff) <= 0xff && ((v >> 32) & 0xff) <= 0xff
            && ((v >> 40) & 0xff) <= 0xff && ((v >> 48) & 0xff) <= 0xff
            && ((v >> 56) & 0xff) <= 0xff) by (bit_vector);
    }
    buf.push((v & 0xff) as u8);
    buf.push(((v >> 8) & 0xff) as u8);
    buf.push(((v >> 16) & 0xff) as u8);
    buf.push(((v >> 24) & 0xff) as u8);
    buf.push(((v >> 32) & 0xff) as u8);
    buf.push(((v >> 40) & 0xff) as u8);
    buf.push(((v >> 48) & 0xff) as u8);
    buf.push(((v >> 56) & 0xff) as u8);
    assert(buf@ =~= old(buf)@ + u64_le_enc(v));
}

} // verus!
