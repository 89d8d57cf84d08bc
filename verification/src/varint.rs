//! The variable-length integer encoding that capsules use for their type
//! and length fields.
//!
//! The top two bits of the first byte select an encoding of 1, 2, 4 or 8
//! bytes; the remaining six bits of the first byte and all later bytes,
//! big-endian, carry the value. A varint therefore holds a 62-bit value.
//! This module gives the encoding a mathematical model (`varint_encoding`,
//! `varint_parse`) and proves the facts about it that the capsule codec's
//! contracts rest on.

use vstd::prelude::*;

verus! {

/// One more than the largest value a varint can carry: varints hold
/// 62-bit values.
pub const VARINT_LIMIT: u64 = 0x4000_0000_0000_0000;

/// Byte length of the varint whose first byte is `b0`: the top two bits
/// of the first byte select an encoding of 1, 2, 4 or 8 bytes.
pub open spec fn varint_len_of(b0: u8) -> int {
    if b0 < 0x40 {
        1
    } else if b0 < 0x80 {
        2
    } else if b0 < 0xc0 {
        4
    } else {
        8
    }
}

/// Value of the complete varint `s`: the low six bits of the first byte,
/// then the remaining bytes, big-endian.
pub open spec fn varint_value(s: Seq<u8>) -> int
    recommends
        1 <= s.len(),
        s.len() == varint_len_of(s[0]),
{
    let b0 = (s[0] % 0x40) as int;
    if s.len() == 1 {
        b0
    } else if s.len() == 2 {
        b0 * 0x100 + (s[1] as int)
    } else if s.len() == 4 {
        b0 * 0x100_0000 + (s[1] as int) * 0x1_0000 + (s[2] as int) * 0x100 + (s[3] as int)
    } else {
        b0 * 0x100_0000_0000_0000 + (s[1] as int) * 0x1_0000_0000_0000 + (s[2] as int)
            * 0x100_0000_0000 + (s[3] as int) * 0x1_0000_0000 + (s[4] as int) * 0x100_0000 + (
        s[5] as int) * 0x1_0000 + (s[6] as int) * 0x100 + (s[7] as int)
    }
}

/// Parse one varint from the front of `s`: the value and the number of
/// bytes it occupies, or `None` when `s` holds less than a whole varint.
pub open spec fn varint_parse(s: Seq<u8>) -> Option<(u64, int)> {
    if s.len() == 0 {
        None
    } else if s.len() < varint_len_of(s[0]) {
        None
    } else {
        Some(((varint_value(s.take(varint_len_of(s[0])))) as u64, varint_len_of(s[0])))
    }
}

/// The shortest varint encoding of `v`.
pub open spec fn varint_encoding(v: u64) -> Seq<u8>
    recommends
        v < VARINT_LIMIT,
{
    if v < 0x40 {
        seq![v as u8]
    } else if v < 0x4000 {
        seq![(v / 0x100 + 0x40) as u8, (v % 0x100) as u8]
    } else if v < 0x4000_0000 {
        seq![
            (v / 0x100_0000 + 0x80) as u8,
            ((v / 0x1_0000) % 0x100) as u8,
            ((v / 0x100) % 0x100) as u8,
            (v % 0x100) as u8,
        ]
    } else {
        seq![
            (v / 0x100_0000_0000_0000 + 0xc0) as u8,
            ((v / 0x1_0000_0000_0000) % 0x100) as u8,
            ((v / 0x100_0000_0000) % 0x100) as u8,
            ((v / 0x1_0000_0000) % 0x100) as u8,
            ((v / 0x100_0000) % 0x100) as u8,
            ((v / 0x1_0000) % 0x100) as u8,
            ((v / 0x100) % 0x100) as u8,
            (v % 0x100) as u8,
        ]
    }
}

/// The first byte of an encoding announces exactly the encoding's length.
pub proof fn lemma_varint_encoding_len(v: u64)
    requires
        v < VARINT_LIMIT,
    ensures
        ({
            let e = varint_encoding(v);
            &&& e.len() == varint_len_of(e[0])
            &&& 1 <= e.len() <= 8
        }),
{
    let e = varint_encoding(v);
    if v < 0x40 {
        assert(e[0] == v as u8);
    } else if v < 0x4000 {
        assert(v / 0x100 < 0x40);
        assert(0x40 <= e[0] < 0x80);
    } else if v < 0x4000_0000 {
        assert(v / 0x100_0000 < 0x40);
        assert(0x80 <= e[0] < 0xc0);
    } else {
        assert(v / 0x100_0000_0000_0000 < 0x40);
        assert(0xc0 <= e[0]);
    }
}

/// Parsing an encoding, with any bytes at all behind it, gives back the
/// encoded value and consumes exactly the encoding.
pub proof fn lemma_varint_parse_encoding(v: u64, tail: Seq<u8>)
    requires
        v < VARINT_LIMIT,
    ensures
        varint_parse(varint_encoding(v) + tail) == Some((v, varint_encoding(v).len() as int)),
{
    let e = varint_encoding(v);
    let s = e + tail;
    lemma_varint_encoding_len(v);
    assert(s[0] == e[0]);
    assert(s.take(e.len() as int) =~= e);
    if v < 0x40 {
        assert(varint_value(e) == v);
    } else if v < 0x4000 {
        assert(v / 0x100 < 0x40);
        assert(e[0] == (v / 0x100 + 0x40) as u8);
        assert((e[0] % 0x40) as int == v / 0x100);
        assert(((v / 0x100) * 0x100 + v % 0x100) == v) by (bit_vector)
            requires
                v < 0x4000,
        ;
        assert(varint_value(e) == v);
    } else if v < 0x4000_0000 {
        assert(v / 0x100_0000 < 0x40);
        assert(e[0] == (v / 0x100_0000 + 0x80) as u8);
        assert((e[0] % 0x40) as int == v / 0x100_0000);
        assert(((v / 0x100_0000) * 0x100_0000 + ((v / 0x1_0000) % 0x100) * 0x1_0000 + ((v / 0x100)
            % 0x100) * 0x100 + v % 0x100) == v) by (bit_vector)
            requires
                v < 0x4000_0000,
        ;
        assert(varint_value(e) == v);
    } else {
        assert(v / 0x100_0000_0000_0000 < 0x40);
        assert(e[0] == (v / 0x100_0000_0000_0000 + 0xc0) as u8);
        assert((e[0] % 0x40) as int == v / 0x100_0000_0000_0000);
        assert(((v / 0x100_0000_0000_0000) * 0x100_0000_0000_0000 + ((v / 0x1_0000_0000_0000)
            % 0x100) * 0x1_0000_0000_0000 + ((v / 0x100_0000_0000) % 0x100) * 0x100_0000_0000 + ((v
            / 0x1_0000_0000) % 0x100) * 0x1_0000_0000 + ((v / 0x100_0000) % 0x100) * 0x100_0000 + ((
        v / 0x1_0000) % 0x100) * 0x1_0000 + ((v / 0x100) % 0x100) * 0x100 + v % 0x100) == v)
            by (bit_vector)
            requires
                v < 0x4000_0000_0000_0000,
        ;
        assert(varint_value(e) == v);
    }
}

/// No strict prefix of an encoding parses: a cut-off varint reads as
/// "not enough bytes", never as some other value.
pub proof fn lemma_varint_parse_encoding_prefix(v: u64, k: int)
    requires
        v < VARINT_LIMIT,
        0 <= k < varint_encoding(v).len(),
    ensures
        varint_parse(varint_encoding(v).take(k)) is None,
{
    let e = varint_encoding(v);
    let p = e.take(k);
    lemma_varint_encoding_len(v);
    if k > 0 {
        assert(p[0] == e[0]);
        assert(p.len() < varint_len_of(p[0]));
    }
}

} // verus!
