//! The capsule codec: one self-describing record decoded from, or encoded
//! to, a byte buffer.
//!
//! A capsule is a varint type tag, a varint payload length, and exactly
//! that many payload bytes. Decoding consumes one capsule from the front
//! of a cursor, or reports "not enough bytes yet" without producing a
//! value, or skips a whole capsule of an unrecognized type. The outcome a
//! decode call owes for a given buffer is the spec function `spec_decode`;
//! the proof functions at the end of this module state the codec's laws
//! over that model.

use vstd::prelude::*;

use crate::codec::Decoder;
use crate::codec::Encoder;
use crate::varint::varint_encoding;
use crate::varint::varint_parse;
use crate::varint::VARINT_LIMIT;
use crate::varint::lemma_varint_encoding_len;
use crate::varint::lemma_varint_parse_encoding;
use crate::varint::lemma_varint_parse_encoding_prefix;
use crate::Error;
use crate::Res;

verus! {

/// The well-known capsule type tag of a datagram capsule. Every other
/// tag is unknown at this layer and is skipped when decoded.
pub const CAPSULE_TYPE_DATAGRAM: u64 = 0x00;

/// One decoded capsule. The payload bytes are owned: a decoded capsule
/// outlives the buffer it was read from.
#[derive(PartialEq, Eq, Debug, Clone)]
pub enum Capsule {
    Datagram { payload: Vec<u8> },
}

/// What decoding owes for a buffer that holds these bytes.
#[verifier::ext_equal]
pub enum DecodeOutcome {
    /// Less than a whole capsule has arrived: no value, no error, and the
    /// caller retries once more bytes are buffered.
    NeedMoreData,
    /// The declared payload length cannot be represented as a buffer
    /// size: the bytes are malformed, which is an error, not a shortage.
    LengthOverflow,
    /// A whole datagram capsule: exactly these payload bytes.
    Decoded { payload: Seq<u8> },
    /// A whole capsule of an unrecognized type: consumed, no value.
    SkippedUnknown,
}

/// The capsule grammar, as one function of the unconsumed bytes.
pub open spec fn spec_decode(s: Seq<u8>) -> DecodeOutcome {
    match varint_parse(s) {
        None => DecodeOutcome::NeedMoreData,
        Some((ctype, nt)) => {
            let s1 = s.skip(nt);
            match varint_parse(s1) {
                None => DecodeOutcome::NeedMoreData,
                Some((length, nl)) => {
                    let s2 = s1.skip(nl);
                    if length > usize::MAX {
                        DecodeOutcome::LengthOverflow
                    } else if s2.len() < length {
                        DecodeOutcome::NeedMoreData
                    } else if ctype == CAPSULE_TYPE_DATAGRAM {
                        DecodeOutcome::Decoded { payload: s2.take(length as int) }
                    } else {
                        DecodeOutcome::SkippedUnknown
                    }
                },
            }
        },
    }
}

/// The bytes a decode call leaves unconsumed, for a buffer that held `s`.
pub open spec fn spec_decode_rest(s: Seq<u8>) -> Seq<u8> {
    match varint_parse(s) {
        None => s,
        Some((ctype, nt)) => {
            let s1 = s.skip(nt);
            match varint_parse(s1) {
                None => s1,
                Some((length, nl)) => {
                    let s2 = s1.skip(nl);
                    if length > usize::MAX {
                        s2
                    } else if s2.len() < length {
                        s2
                    } else {
                        s2.skip(length as int)
                    }
                },
            }
        },
    }
}

/// The wire encoding of a capsule with type tag `ctype` and payload
/// `payload`.
pub open spec fn spec_capsule_encoding(ctype: u64, payload: Seq<u8>) -> Seq<u8>
    recommends
        ctype < VARINT_LIMIT,
        payload.len() < VARINT_LIMIT,
{
    varint_encoding(ctype) + varint_encoding(payload.len() as u64) + payload
}

impl Capsule {
    /// The payload bytes this capsule carries.
    pub open spec fn spec_payload(self) -> Seq<u8> {
        match self {
            Capsule::Datagram { payload } => payload@,
        }
    }

    /// A capsule short enough to encode: its payload length fits a
    /// varint.
    pub open spec fn encodable(self) -> bool {
        self.spec_payload().len() < VARINT_LIMIT
    }

    /// The type tag this capsule carries on the wire.
    pub fn capsule_type(&self) -> (r: u64)
        ensures
            r == CAPSULE_TYPE_DATAGRAM,
    {
        match self {
            Self::Datagram { .. } => CAPSULE_TYPE_DATAGRAM,
        }
    }

    /// Append this capsule's wire encoding: its type tag, its payload
    /// length, and its payload.
    pub fn encode(&self, enc: &mut Encoder)
        requires
            self.encodable(),
        ensures
            final(enc)@ == old(enc)@ + spec_capsule_encoding(
                CAPSULE_TYPE_DATAGRAM,
                self.spec_payload(),
            ),
    {
        enc.encode_varint(self.capsule_type());
        match self {
            Self::Datagram { payload } => {
                enc.encode_vvec(payload.as_slice());
            },
        }
    }

    /// Decode one capsule from the front of `decoder`.
    ///
    /// Returns `Ok(None)` both when less than a whole capsule has been
    /// buffered (the caller retries against a buffer that still holds
    /// these bytes once more arrive) and when a whole capsule of an
    /// unknown type was consumed; returns an error only for a declared
    /// payload length that cannot be represented as a buffer size.
    pub fn decode(decoder: &mut Decoder) -> (r: Res<Option<Self>>)
        requires
            old(decoder).wf(),
        ensures
            final(decoder).wf(),
            final(decoder).rest() == spec_decode_rest(old(decoder).rest()),
            (match spec_decode(old(decoder).rest()) {
                DecodeOutcome::NeedMoreData => r == Res::<Option<Capsule>>::Ok(None),
                DecodeOutcome::LengthOverflow => r == Res::<Option<Capsule>>::Err(
                    Error::HttpFrame,
                ),
                DecodeOutcome::Decoded { payload } => (r matches Ok(Some(Capsule::Datagram {
                    payload: p,
                })) && p@ == payload),
                DecodeOutcome::SkippedUnknown => r == Res::<Option<Capsule>>::Ok(None),
            }),
    {
        let capsule_type = match decoder.decode_varint() {
            Some(t) => t,
            None => {
                return Ok(None);
            },
        };

        let capsule_length = match decoder.decode_varint() {
            Some(l) => l,
            None => {
                return Ok(None);
            },
        };

        if capsule_length > usize::MAX as u64 {
            return Err(Error::HttpFrame);
        }
        let capsule_length_usize = capsule_length as usize;

        if decoder.remaining() < capsule_length_usize {
            return Ok(None);
        }

        if capsule_type == CAPSULE_TYPE_DATAGRAM {
            let payload = match decoder.decode(capsule_length_usize) {
                Some(p) => p,
                None => {
                    return Err(Error::HttpFrame);
                },
            };
            Ok(Some(Self::Datagram { payload }))
        } else {
            decoder.skip(capsule_length_usize);
            Ok(None)
        }
    }
}

/// Round trip: decoding the encoding of a datagram capsule with payload
/// `payload` yields exactly that payload back and consumes the whole
/// buffer, leaving no unread bytes.
pub proof fn lemma_round_trip(payload: Seq<u8>)
    requires
        payload.len() < VARINT_LIMIT,
        payload.len() <= usize::MAX,
    ensures
        (spec_decode(spec_capsule_encoding(CAPSULE_TYPE_DATAGRAM, payload))
            == DecodeOutcome::Decoded { payload }),
        spec_decode_rest(spec_capsule_encoding(CAPSULE_TYPE_DATAGRAM, payload)) == Seq::<
            u8,
        >::empty(),
{
    let l = payload.len() as u64;
    let et = varint_encoding(CAPSULE_TYPE_DATAGRAM);
    let el = varint_encoding(l);
    let s = spec_capsule_encoding(CAPSULE_TYPE_DATAGRAM, payload);
    assert(s =~= et + (el + payload));
    lemma_varint_parse_encoding(CAPSULE_TYPE_DATAGRAM, el + payload);
    assert(s.skip(et.len() as int) =~= el + payload);
    lemma_varint_parse_encoding(l, payload);
    assert((el + payload).skip(el.len() as int) =~= payload);
    assert(payload.take(l as int) =~= payload);
    assert(payload.skip(l as int) =~= Seq::<u8>::empty());
}

/// Truncation safety: a strict prefix of a validly encoded capsule —
/// whatever its type, and however little of it has arrived — decodes to
/// "need more data": never an error, never a value.
pub proof fn lemma_truncation_safety(ctype: u64, payload: Seq<u8>, k: int)
    requires
        ctype < VARINT_LIMIT,
        payload.len() < VARINT_LIMIT,
        payload.len() <= usize::MAX,
        0 <= k < spec_capsule_encoding(ctype, payload).len(),
    ensures
        spec_decode(spec_capsule_encoding(ctype, payload).take(k)) == DecodeOutcome::NeedMoreData,
{
    let l = payload.len() as u64;
    let et = varint_encoding(ctype);
    let el = varint_encoding(l);
    let s = spec_capsule_encoding(ctype, payload);
    let p = s.take(k);
    lemma_varint_encoding_len(ctype);
    lemma_varint_encoding_len(l);
    if k < et.len() {
        assert(p =~= et.take(k));
        lemma_varint_parse_encoding_prefix(ctype, k);
    } else if k < et.len() + el.len() {
        let k1 = k - et.len();
        assert(p =~= et + el.take(k1));
        lemma_varint_parse_encoding(ctype, el.take(k1));
        assert(p.skip(et.len() as int) =~= el.take(k1));
        lemma_varint_parse_encoding_prefix(l, k1);
    } else {
        let k2 = k - et.len() - el.len();
        assert(p =~= et + (el + payload.take(k2)));
        lemma_varint_parse_encoding(ctype, el + payload.take(k2));
        assert(p.skip(et.len() as int) =~= el + payload.take(k2));
        lemma_varint_parse_encoding(l, payload.take(k2));
        assert((el + payload.take(k2)).skip(el.len() as int) =~= payload.take(k2));
        assert(payload.take(k2).len() < l);
    }
}

/// Unknown-type skip: a whole capsule of a type other than the datagram
/// type decodes to no value, and the cursor ends up exactly past it, at
/// the start of whatever follows.
pub proof fn lemma_unknown_type_skip(ctype: u64, payload: Seq<u8>, tail: Seq<u8>)
    requires
        0 < ctype < VARINT_LIMIT,
        payload.len() < VARINT_LIMIT,
        payload.len() <= usize::MAX,
    ensures
        spec_decode(spec_capsule_encoding(ctype, payload) + tail) == DecodeOutcome::SkippedUnknown,
        spec_decode_rest(spec_capsule_encoding(ctype, payload) + tail) == tail,
{
    let l = payload.len() as u64;
    let et = varint_encoding(ctype);
    let el = varint_encoding(l);
    let s = spec_capsule_encoding(ctype, payload) + tail;
    assert(s =~= et + (el + (payload + tail)));
    lemma_varint_parse_encoding(ctype, el + (payload + tail));
    assert(s.skip(et.len() as int) =~= el + (payload + tail));
    lemma_varint_parse_encoding(l, payload + tail);
    assert((el + (payload + tail)).skip(el.len() as int) =~= payload + tail);
    assert((payload + tail).skip(l as int) =~= tail);
}

/// Overflow rejection: a capsule that declares a payload length the
/// platform cannot represent as a buffer size is malformed — an error,
/// not "need more data", however many bytes follow the declaration.
pub proof fn lemma_overflow_rejection(ctype: u64, length: u64, more: Seq<u8>)
    requires
        ctype < VARINT_LIMIT,
        length < VARINT_LIMIT,
        length > usize::MAX,
    ensures
        spec_decode(varint_encoding(ctype) + varint_encoding(length) + more)
            == DecodeOutcome::LengthOverflow,
{
    let et = varint_encoding(ctype);
    let el = varint_encoding(length);
    let s = et + el + more;
    assert(s =~= et + (el + more));
    lemma_varint_parse_encoding(ctype, el + more);
    assert(s.skip(et.len() as int) =~= el + more);
    lemma_varint_parse_encoding(length, more);
}

} // verus!
