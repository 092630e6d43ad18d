//! Decimal rendering of the numbers that appear on the wire.

use vstd::prelude::*;

use crate::encode::{EncodeContext, Encoder};

verus! {

broadcast use {
    crate::seqext::lemma_concat_assoc,
    crate::seqext::lemma_concat_empty_right,
    crate::seqext::lemma_concat_empty_left,
};

/// The ASCII decimal digits of `n`, most significant first.
pub closed spec fn dec_digits(n: nat) -> Seq<u8>
    decreases n,
{
    if n < 10 {
        seq![(48 + n) as u8]
    } else {
        dec_digits(n / 10).push((48 + n % 10) as u8)
    }
}

/// The ASCII decimal rendering of `n`.
pub fn dec_u64(n: u64) -> (r: Vec<u8>)
    ensures
        r@ == dec_digits(n as nat),
{
    let mut rev: Vec<u8> = Vec::new();
    let mut m: u64 = n;
    while m >= 10
        invariant
            dec_digits(n as nat) == dec_digits(m as nat) + rev@.reverse(),
        decreases m,
    {
        let d: u8 = (m % 10) as u8 + 48;
        let m2: u64 = m / 10;
        proof {
            assert((m2 as nat) == (m as nat) / 10);
            assert(d == (48 + (m as nat) % 10) as u8);
            assert(dec_digits(m as nat) == dec_digits((m as nat) / 10).push(d));
            assert(dec_digits((m as nat) / 10).push(d) =~= dec_digits((m as nat) / 10) + seq![d]);
            assert(rev@.push(d).reverse() =~= seq![d] + rev@.reverse());
        }
        rev.push(d);
        m = m2;
    }
    let d: u8 = m as u8 + 48;
    proof {
        assert(dec_digits(m as nat) =~= seq![d]);
        assert(rev@.push(d).reverse() =~= seq![d] + rev@.reverse());
    }
    rev.push(d);
    // dec_digits(n) == rev@.reverse(): emit the digits back to front.
    let mut out: Vec<u8> = Vec::new();
    let mut i: usize = rev.len();
    while i > 0
        invariant
            0 <= i <= rev@.len(),
            out@ == rev@.reverse().take((rev@.len() - i) as int),
        decreases i,
    {
        let d2: u8 = rev[i - 1];
        out.push(d2);
        proof {
            assert(out@ =~= rev@.reverse().take((rev@.len() - (i - 1)) as int));
        }
        i = i - 1;
    }
    proof {
        assert(rev@.reverse().take(rev@.len() as int) =~= rev@.reverse());
    }
    out
}

impl EncodeContext {
    /// Append the decimal rendering of `n`.
    pub fn write_u64(&mut self, n: u64)
        ensures
            final(self).accumulator@ == old(self).accumulator@ + dec_digits(n as nat),
            final(self).items@ == old(self).items@,
            final(self).wire() == old(self).wire() + dec_digits(n as nat),
    {
        let digits = dec_u64(n);
        self.write_bytes(digits.as_slice());
    }

    /// Append the decimal rendering of `n`.
    pub fn write_u32(&mut self, n: u32)
        ensures
            final(self).accumulator@ == old(self).accumulator@ + dec_digits(n as nat),
            final(self).items@ == old(self).items@,
            final(self).wire() == old(self).wire() + dec_digits(n as nat),
    {
        self.write_u64(n as u64);
    }
}


/// Two zero-padded ASCII digits of `n` (for `n < 100`).
pub closed spec fn two_digits(n: nat) -> Seq<u8> {
    seq![(48 + n / 10) as u8, (48 + n % 10) as u8]
}

/// Four zero-padded ASCII digits of `n` (for `n < 10000`).
pub closed spec fn four_digits(n: nat) -> Seq<u8> {
    seq![
        (48 + n / 1000) as u8,
        (48 + (n / 100) % 10) as u8,
        (48 + (n / 10) % 10) as u8,
        (48 + n % 10) as u8,
    ]
}

impl EncodeContext {
    /// Append `n` as exactly two digits, zero-padded.
    pub fn write_2digits(&mut self, n: u8)
        requires
            n < 100,
        ensures
            final(self).items@ == old(self).items@,
            final(self).wire() == old(self).wire() + two_digits(n as nat),
    {
        let a: [u8; 2] = [48 + n / 10, 48 + n % 10];
        proof {
            assert(a@ =~= two_digits(n as nat));
        }
        self.write_bytes(a.as_slice());
    }

    /// Append `n` as exactly four digits, zero-padded.
    pub fn write_4digits(&mut self, n: u16)
        requires
            n < 10000,
        ensures
            final(self).items@ == old(self).items@,
            final(self).wire() == old(self).wire() + four_digits(n as nat),
    {
        let a: [u8; 4] = [
            48 + (n / 1000) as u8,
            48 + ((n / 100) % 10) as u8,
            48 + ((n / 10) % 10) as u8,
            48 + (n % 10) as u8,
        ];
        proof {
            assert(a@ =~= four_digits(n as nat));
        }
        self.write_bytes(a.as_slice());
    }
}

impl Encoder for u32 {
    closed spec fn wire(&self) -> Seq<u8> {
        dec_digits(*self as nat)
    }

    fn encode_ctx(&self, ctx: &mut EncodeContext) {
        ctx.write_u32(*self);
        proof {
            crate::frag_rules::lemma_frags_extended_refl(ctx.items@);
        }
    }
}

impl Encoder for u64 {
    closed spec fn wire(&self) -> Seq<u8> {
        dec_digits(*self as nat)
    }

    fn encode_ctx(&self, ctx: &mut EncodeContext) {
        ctx.write_u64(*self);
        proof {
            crate::frag_rules::lemma_frags_extended_refl(ctx.items@);
        }
    }
}

} // verus!
