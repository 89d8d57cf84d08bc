//! The byte cursor the capsule codec reads from and the buffer it writes
//! to.
//!
//! `Decoder` is a position-tracking view over a borrowed byte slice: reads
//! consume from the front, and a read that would pass the end of the
//! buffer consumes nothing and reports `None`, so a caller can retry
//! against a longer buffer later. `Encoder` accumulates bytes in an owned
//! buffer. Both speak varints in the encoding of the `varint` module.

use vstd::prelude::*;
use vstd::slice::slice_index_get;
use vstd::slice::slice_subrange;
use vstd::slice::slice_to_vec;

use crate::varint::varint_encoding;
use crate::varint::varint_parse;
use crate::varint::varint_value;
use crate::varint::VARINT_LIMIT;

verus! {

/// A read cursor over a borrowed byte buffer.
pub struct Decoder<'a> {
    buf: &'a [u8],
    offset: usize,
}

impl<'a> Decoder<'a> {
    /// The cursor never points past the end of its buffer.
    pub closed spec fn wf(self) -> bool {
        self.offset <= self.buf@.len()
    }

    /// The bytes not yet consumed.
    pub closed spec fn rest(self) -> Seq<u8> {
        self.buf@.skip(self.offset as int)
    }

    /// A fresh cursor positioned at the front of `data`.
    pub fn from(data: &'a [u8]) -> (r: Decoder<'a>)
        ensures
            r.wf(),
            r.rest() == data@,
    {
        let r = Decoder { buf: data, offset: 0 };
        proof {
            assert(r.rest() =~= data@);
        }
        r
    }

    /// How many bytes are left to read.
    pub fn remaining(&self) -> (r: usize)
        requires
            self.wf(),
        ensures
            r == self.rest().len(),
    {
        self.buf.len() - self.offset
    }

    /// The unconsumed byte `i` places ahead of the cursor, without
    /// consuming it.
    fn peek(&self, i: usize) -> (r: u8)
        requires
            self.wf(),
            i < self.rest().len(),
        ensures
            r == self.rest()[i as int],
    {
        let total = self.buf.len();
        proof {
            assert(self.offset + i < total);
        }
        *slice_index_get(self.buf, self.offset + i)
    }

    /// Read one varint from the front, or read nothing when fewer bytes
    /// than a whole varint are left.
    pub fn decode_varint(&mut self) -> (r: Option<u64>)
        requires
            old(self).wf(),
        ensures
            final(self).wf(),
            (match varint_parse(old(self).rest()) {
                None => r is None && final(self).rest() == old(self).rest(),
                Some((v, n)) => r == Some(v) && final(self).rest() == old(self).rest().skip(n),
            }),
    {
        let rem = self.remaining();
        if rem == 0 {
            return None;
        }
        let b0 = self.peek(0);
        let n: usize = if b0 < 0x40 {
            1
        } else if b0 < 0x80 {
            2
        } else if b0 < 0xc0 {
            4
        } else {
            8
        };
        if rem < n {
            return None;
        }
        let ghost complete = old(self).rest().take(n as int);
        proof {
            assert(complete.len() == n);
            assert(forall|i: int| 0 <= i < n ==> complete[i] == old(self).rest()[i]);
        }
        let b0m: u64 = (b0 % 0x40) as u64;
        let val: u64 = if n == 1 {
            b0m
        } else if n == 2 {
            b0m * 0x100 + (self.peek(1) as u64)
        } else if n == 4 {
            b0m * 0x100_0000 + (self.peek(1) as u64) * 0x1_0000 + (self.peek(2) as u64) * 0x100 + (
            self.peek(3) as u64)
        } else {
            b0m * 0x100_0000_0000_0000 + (self.peek(1) as u64) * 0x1_0000_0000_0000 + (self.peek(
                2,
            ) as u64) * 0x100_0000_0000 + (self.peek(3) as u64) * 0x1_0000_0000 + (self.peek(
                4,
            ) as u64) * 0x100_0000 + (self.peek(5) as u64) * 0x1_0000 + (self.peek(6) as u64)
                * 0x100 + (self.peek(7) as u64)
        };
        proof {
            assert(val == varint_value(complete));
        }
        let total = self.buf.len();
        proof {
            assert(self.offset + n <= total);
        }
        self.offset = self.offset + n;
        proof {
            assert(self.rest() =~= old(self).rest().skip(n as int));
        }
        Some(val)
    }

    /// Read exactly `n` bytes from the front into an owned buffer, or
    /// read nothing when fewer than `n` bytes are left.
    pub fn decode(&mut self, n: usize) -> (r: Option<Vec<u8>>)
        requires
            old(self).wf(),
        ensures
            final(self).wf(),
            (if n <= old(self).rest().len() {
                &&& (r matches Some(p) && p@ == old(self).rest().take(n as int))
                &&& final(self).rest() == old(self).rest().skip(n as int)
            } else {
                &&& r is None
                &&& final(self).rest() == old(self).rest()
            }),
    {
        if self.remaining() < n {
            return None;
        }
        let total = self.buf.len();
        proof {
            assert(self.offset + n <= total);
        }
        let out = slice_to_vec(slice_subrange(self.buf, self.offset, self.offset + n));
        proof {
            assert(out@ =~= self.rest().take(n as int));
        }
        self.offset = self.offset + n;
        proof {
            assert(self.rest() =~= old(self).rest().skip(n as int));
        }
        Some(out)
    }

    /// Discard exactly `n` of the remaining bytes.
    pub fn skip(&mut self, n: usize)
        requires
            old(self).wf(),
            n <= old(self).rest().len(),
        ensures
            final(self).wf(),
            final(self).rest() == old(self).rest().skip(n as int),
    {
        let total = self.buf.len();
        proof {
            assert(self.offset + n <= total);
        }
        self.offset = self.offset + n;
        proof {
            assert(self.rest() =~= old(self).rest().skip(n as int));
        }
    }
}

/// A growing byte buffer that encoders append to.
pub struct Encoder {
    buf: Vec<u8>,
}

impl View for Encoder {
    type V = Seq<u8>;

    closed spec fn view(&self) -> Seq<u8> {
        self.buf@
    }
}

impl Default for Encoder {
    /// An empty buffer.
    fn default() -> (r: Self)
        ensures
            r@ == Seq::<u8>::empty(),
    {
        Encoder { buf: Vec::new() }
    }
}

impl Encoder {
    /// Append the shortest varint encoding of `v`.
    pub fn encode_varint(&mut self, v: u64)
        requires
            v < VARINT_LIMIT,
        ensures
            final(self)@ == old(self)@ + varint_encoding(v),
    {
        if v < 0x40 {
            self.buf.push(v as u8);
        } else if v < 0x4000 {
            assert(v / 0x100 < 0x40);
            self.buf.push((v / 0x100) as u8 + 0x40);
            self.buf.push((v % 0x100) as u8);
        } else if v < 0x4000_0000 {
            assert(v / 0x100_0000 < 0x40);
            self.buf.push((v / 0x100_0000) as u8 + 0x80);
            self.buf.push(((v / 0x1_0000) % 0x100) as u8);
            self.buf.push(((v / 0x100) % 0x100) as u8);
            self.buf.push((v % 0x100) as u8);
        } else {
            assert(v / 0x100_0000_0000_0000 < 0x40);
            self.buf.push((v / 0x100_0000_0000_0000) as u8 + 0xc0);
            self.buf.push(((v / 0x1_0000_0000_0000) % 0x100) as u8);
            self.buf.push(((v / 0x100_0000_0000) % 0x100) as u8);
            self.buf.push(((v / 0x1_0000_0000) % 0x100) as u8);
            self.buf.push(((v / 0x100_0000) % 0x100) as u8);
            self.buf.push(((v / 0x1_0000) % 0x100) as u8);
            self.buf.push(((v / 0x100) % 0x100) as u8);
            self.buf.push((v % 0x100) as u8);
        }
        proof {
            assert(self@ =~= old(self)@ + varint_encoding(v));
        }
    }

    /// Append a length-prefixed byte sequence: the varint length of
    /// `data`, then `data` itself.
    pub fn encode_vvec(&mut self, data: &[u8])
        requires
            data@.len() < VARINT_LIMIT,
        ensures
            final(self)@ == old(self)@ + varint_encoding(data@.len() as u64) + data@,
    {
        self.encode_varint(data.len() as u64);
        let ghost mid = self@;
        let mut i: usize = 0;
        while i < data.len()
            invariant
                i <= data@.len(),
                self@ == mid + data@.take(i as int),
            decreases data@.len() - i,
        {
            let b = *slice_index_get(data, i);
            self.buf.push(b);
            i = i + 1;
            proof {
                assert(self@ =~= mid + data@.take(i as int));
            }
        }
        proof {
            assert(data@.take(data@.len() as int) =~= data@);
            assert(self@ =~= old(self)@ + varint_encoding(data@.len() as u64) + data@);
        }
    }

    /// The bytes written so far.
    pub fn as_ref(&self) -> (r: &[u8])
        ensures
            r@ == self@,
    {
        self.buf.as_slice()
    }
}

} // verus!
