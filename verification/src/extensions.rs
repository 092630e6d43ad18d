//! Capability names and quota resources, shared by commands and responses.

use vstd::prelude::*;

use crate::auth::AuthMechanism;
use crate::encode::{EncodeContext, Encoder};
use crate::imapstr::{AString, Atom};
use crate::kw::{kb, Keyword, KwA, KwB, KwC, KwD, KwE, KwF};
use crate::numfmt::dec_digits;

verus! {

broadcast use {
    crate::seqext::lemma_concat_assoc,
    crate::seqext::lemma_concat_empty_right,
    crate::seqext::lemma_concat_empty_left,
    crate::frag_rules::lemma_frags_extended_trans,
    crate::frag_rules::lemma_frags_extended_refl,
};

/// A COMPRESS algorithm name.
#[derive(Clone, Copy, Debug, PartialEq, Eq)]
pub enum CompressionAlgorithm {
    Deflate,
}

impl Encoder for CompressionAlgorithm {
    closed spec fn wire(&self) -> Seq<u8> {
        kb(Keyword::KwF(KwF::Deflate))
    }

    fn encode_ctx(&self, ctx: &mut EncodeContext) {
        ctx.write_kw(Keyword::KwF(KwF::Deflate));
    }
}

/// A capability as it appears in CAPABILITY data and in ENABLE.
#[derive(Clone, Debug, PartialEq, Eq)]
pub enum Capability {
    Imap4Rev1,
    Auth(AuthMechanism),
    Compress { algorithm: CompressionAlgorithm },
    LiteralPlus,
    Move,
    Quota,
    Unselect,
    Idle,
    Enable,
    Other(Atom),
}

impl Encoder for Capability {
    closed spec fn wire(&self) -> Seq<u8> {
        match self {
            Capability::Imap4Rev1 => kb(Keyword::KwF(KwF::Imap4rev1)),
            Capability::Auth(mech) => kb(Keyword::KwF(KwF::AuthEq)) + mech.wire(),
            Capability::Compress { algorithm } => kb(Keyword::KwF(KwF::CompressEq))
                + algorithm.wire(),
            Capability::LiteralPlus => kb(Keyword::KwF(KwF::LiteralPlus)),
            Capability::Move => kb(Keyword::KwB(KwB::Move)),
            Capability::Quota => kb(Keyword::KwF(KwF::Quota)),
            Capability::Unselect => kb(Keyword::KwB(KwB::Unselect)),
            Capability::Idle => kb(Keyword::KwB(KwB::Idle)),
            Capability::Enable => kb(Keyword::KwB(KwB::Enable)),
            Capability::Other(atom) => atom.wire(),
        }
    }

    fn encode_ctx(&self, ctx: &mut EncodeContext) {
        match self {
            Capability::Imap4Rev1 => ctx.write_kw(Keyword::KwF(KwF::Imap4rev1)),
            Capability::Auth(mech) => {
                ctx.write_kw(Keyword::KwF(KwF::AuthEq));
                mech.encode_ctx(ctx);
            },
            Capability::Compress { algorithm } => {
                ctx.write_kw(Keyword::KwF(KwF::CompressEq));
                algorithm.encode_ctx(ctx);
            },
            Capability::LiteralPlus => ctx.write_kw(Keyword::KwF(KwF::LiteralPlus)),
            Capability::Move => ctx.write_kw(Keyword::KwB(KwB::Move)),
            Capability::Quota => ctx.write_kw(Keyword::KwF(KwF::Quota)),
            Capability::Unselect => ctx.write_kw(Keyword::KwB(KwB::Unselect)),
            Capability::Idle => ctx.write_kw(Keyword::KwB(KwB::Idle)),
            Capability::Enable => ctx.write_kw(Keyword::KwB(KwB::Enable)),
            Capability::Other(atom) => atom.encode_ctx(ctx),
        }
    }
}

/// A quota resource with its limit, as SETQUOTA sends it.
#[derive(Clone, Debug, PartialEq, Eq)]
pub struct QuotaSet {
    pub resource: Atom,
    pub limit: u64,
}

impl Encoder for QuotaSet {
    closed spec fn wire(&self) -> Seq<u8> {
        (self.resource.wire() + kb(Keyword::KwA(KwA::Sp))) + dec_digits(self.limit as nat)
    }

    fn encode_ctx(&self, ctx: &mut EncodeContext) {
        self.resource.encode_ctx(ctx);
        ctx.write_kw(Keyword::KwA(KwA::Sp));
        ctx.write_u64(self.limit);
    }
}

/// A quota resource with its usage and limit, as QUOTA data answers it.
#[derive(Clone, Debug, PartialEq, Eq)]
pub struct QuotaGet {
    pub resource: Atom,
    pub usage: u64,
    pub limit: u64,
}

impl Encoder for QuotaGet {
    closed spec fn wire(&self) -> Seq<u8> {
        (((self.resource.wire() + kb(Keyword::KwA(KwA::Sp))) + dec_digits(self.usage as nat)) + kb(
            Keyword::KwA(KwA::Sp),
        )) + dec_digits(self.limit as nat)
    }

    fn encode_ctx(&self, ctx: &mut EncodeContext) {
        self.resource.encode_ctx(ctx);
        ctx.write_kw(Keyword::KwA(KwA::Sp));
        ctx.write_u64(self.usage);
        ctx.write_kw(Keyword::KwA(KwA::Sp));
        ctx.write_u64(self.limit);
    }
}

/// The quota root argument of GETQUOTA and SETQUOTA.
#[derive(Clone, Debug, PartialEq, Eq)]
pub struct QuotaRoot(pub AString);

impl Encoder for QuotaRoot {
    closed spec fn wire(&self) -> Seq<u8> {
        self.0.wire()
    }

    fn encode_ctx(&self, ctx: &mut EncodeContext) {
        self.0.encode_ctx(ctx);
    }
}

} // verus!
