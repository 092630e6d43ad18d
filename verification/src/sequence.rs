//! Message sequence sets: comma-separated single numbers and ranges.

use vstd::prelude::*;

use crate::encode::{join_serializable, joined_wire, EncodeContext, Encoder};
use crate::kw::{kb, kw_vec, Keyword, KwA, KwB, KwC, KwD, KwE, KwF};

verus! {

broadcast use {
    crate::seqext::lemma_concat_assoc,
    crate::seqext::lemma_concat_empty_right,
    crate::seqext::lemma_concat_empty_left,
    crate::frag_rules::lemma_frags_extended_trans,
    crate::frag_rules::lemma_frags_extended_refl,
};

/// A message number or UID, or `*` for the highest assigned.
#[derive(Clone, Copy, Debug, PartialEq, Eq)]
pub enum SeqOrUid {
    /// A positive message number or UID.
    Value(u32),
    /// `*`: the highest number in use.
    Asterisk,
}

/// A sequence number is positive; zero is not on the wire grammar.
pub open spec fn seq_or_uid_wf(s: SeqOrUid) -> bool {
    match s {
        SeqOrUid::Value(n) => n > 0,
        SeqOrUid::Asterisk => true,
    }
}

impl Encoder for SeqOrUid {
    closed spec fn wire(&self) -> Seq<u8> {
        match self {
            SeqOrUid::Value(n) => crate::numfmt::dec_digits(*n as nat),
            SeqOrUid::Asterisk => kb(Keyword::KwA(KwA::Star)),
        }
    }

    fn encode_ctx(&self, ctx: &mut EncodeContext) {
        match self {
            SeqOrUid::Value(n) => ctx.write_u32(*n),
            SeqOrUid::Asterisk => ctx.write_kw(Keyword::KwA(KwA::Star)),
        }
    }
}

/// A single number or an `a:b` range.
#[derive(Clone, Copy, Debug, PartialEq, Eq)]
pub enum Sequence {
    Single(SeqOrUid),
    Range(SeqOrUid, SeqOrUid),
}

impl Encoder for Sequence {
    closed spec fn wire(&self) -> Seq<u8> {
        match self {
            Sequence::Single(s) => s.wire(),
            Sequence::Range(from, to) => (from.wire() + kb(Keyword::KwA(KwA::Colon))) + to.wire(),
        }
    }

    fn encode_ctx(&self, ctx: &mut EncodeContext) {
        match self {
            Sequence::Single(s) => s.encode_ctx(ctx),
            Sequence::Range(from, to) => {
                from.encode_ctx(ctx);
                ctx.write_kw(Keyword::KwA(KwA::Colon));
                to.encode_ctx(ctx);
            },
        }
    }
}

/// Why a sequence set was rejected at construction.
#[derive(Clone, Copy, Debug, PartialEq, Eq)]
pub enum SequenceSetError {
    /// The set was empty; the grammar requires at least one sequence.
    Empty,
    /// A sequence carries the number zero, which is not on the wire grammar.
    Zero,
}

/// Whether every number in the sequence is positive.
pub open spec fn sequence_wf(s: Sequence) -> bool {
    match s {
        Sequence::Single(x) => seq_or_uid_wf(x),
        Sequence::Range(from, to) => seq_or_uid_wf(from) && seq_or_uid_wf(to),
    }
}

/// A non-empty, order-preserving list of positive sequences, comma-joined.
/// Construction validates, so every value has a defined encoding.
#[derive(Clone, Debug, PartialEq, Eq)]
pub struct SequenceSet {
    sequences: Vec<Sequence>,
}

/// A well-formed sequence set: at least one sequence, no zero anywhere.
pub open spec fn sequence_set_wf(s: Seq<Sequence>) -> bool {
    s.len() > 0 && forall|i: int| 0 <= i < s.len() ==> #[trigger] sequence_wf(s[i])
}

impl View for SequenceSet {
    type V = Seq<Sequence>;

    closed spec fn view(&self) -> Seq<Sequence> {
        self.sequences@
    }
}

impl SequenceSet {
    pub fn new(sequences: Vec<Sequence>) -> (r: Result<SequenceSet, SequenceSetError>)
        ensures
            r is Ok <==> sequence_set_wf(sequences@),
            r matches Ok(s) ==> s@ == sequences@,
            r == Err::<SequenceSet, SequenceSetError>(SequenceSetError::Empty) <==> sequences@.len()
                == 0,
    {
        if sequences.len() == 0 {
            return Err(SequenceSetError::Empty);
        }
        let n: usize = sequences.len();
        let mut i: usize = 0;
        while i < n
            invariant
                n == sequences@.len(),
                0 <= i <= n,
                forall|j: int| 0 <= j < i ==> #[trigger] sequence_wf(sequences@[j]),
            decreases n - i,
        {
            let ok: bool = match sequences[i] {
                Sequence::Single(SeqOrUid::Value(v)) => v > 0,
                Sequence::Single(SeqOrUid::Asterisk) => true,
                Sequence::Range(from, to) => {
                    let f: bool = match from {
                        SeqOrUid::Value(v) => v > 0,
                        SeqOrUid::Asterisk => true,
                    };
                    let t: bool = match to {
                        SeqOrUid::Value(v) => v > 0,
                        SeqOrUid::Asterisk => true,
                    };
                    f && t
                },
            };
            proof {
                assert(ok == sequence_wf(sequences@[i as int]));
            }
            if !ok {
                return Err(SequenceSetError::Zero);
            }
            i = i + 1;
        }
        Ok(SequenceSet { sequences })
    }

    pub fn sequences(&self) -> (r: &Vec<Sequence>)
        ensures
            r@ == self@,
    {
        &self.sequences
    }
}

impl Encoder for SequenceSet {
    closed spec fn wire(&self) -> Seq<u8> {
        joined_wire(self@, kb(Keyword::KwA(KwA::Comma)))
    }

    fn encode_ctx(&self, ctx: &mut EncodeContext) {
        let sep = kw_vec(Keyword::KwA(KwA::Comma));
        join_serializable(self.sequences.as_slice(), sep.as_slice(), ctx);
    }
}

} // verus!
