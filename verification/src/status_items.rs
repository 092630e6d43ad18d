//! STATUS data items: the names a client asks for and the answered values.

use vstd::prelude::*;

use crate::encode::{EncodeContext, Encoder};
use crate::kw::{kb, Keyword, KwA, KwB, KwC, KwD, KwE, KwF};
use crate::numfmt::dec_digits;

verus! {

broadcast use {
    crate::seqext::lemma_concat_assoc,
    crate::seqext::lemma_concat_empty_right,
    crate::seqext::lemma_concat_empty_left,
    crate::frag_rules::lemma_frags_extended_trans,
    crate::frag_rules::lemma_frags_extended_refl,
};

/// A STATUS item name, as requested in a STATUS command.
#[derive(Clone, Copy, Debug, PartialEq, Eq)]
pub enum StatusDataItemName {
    Messages,
    Recent,
    UidNext,
    UidValidity,
    Unseen,
    Deleted,
    DeletedStorage,
    HighestModSeq,
}

impl Encoder for StatusDataItemName {
    closed spec fn wire(&self) -> Seq<u8> {
        match self {
            StatusDataItemName::Messages => kb(Keyword::KwC(KwC::Messages)),
            StatusDataItemName::Recent => kb(Keyword::KwC(KwC::Recent)),
            StatusDataItemName::UidNext => kb(Keyword::KwC(KwC::Uidnext)),
            StatusDataItemName::UidValidity => kb(Keyword::KwC(KwC::Uidvalidity)),
            StatusDataItemName::Unseen => kb(Keyword::KwC(KwC::Unseen)),
            StatusDataItemName::Deleted => kb(Keyword::KwC(KwC::Deleted)),
            StatusDataItemName::DeletedStorage => kb(Keyword::KwC(KwC::DeletedStorage)),
            StatusDataItemName::HighestModSeq => kb(Keyword::KwC(KwC::Highestmodseq)),
        }
    }

    fn encode_ctx(&self, ctx: &mut EncodeContext) {
        match self {
            StatusDataItemName::Messages => ctx.write_kw(Keyword::KwC(KwC::Messages)),
            StatusDataItemName::Recent => ctx.write_kw(Keyword::KwC(KwC::Recent)),
            StatusDataItemName::UidNext => ctx.write_kw(Keyword::KwC(KwC::Uidnext)),
            StatusDataItemName::UidValidity => ctx.write_kw(Keyword::KwC(KwC::Uidvalidity)),
            StatusDataItemName::Unseen => ctx.write_kw(Keyword::KwC(KwC::Unseen)),
            StatusDataItemName::Deleted => ctx.write_kw(Keyword::KwC(KwC::Deleted)),
            StatusDataItemName::DeletedStorage => ctx.write_kw(Keyword::KwC(KwC::DeletedStorage)),
            StatusDataItemName::HighestModSeq => ctx.write_kw(Keyword::KwC(KwC::Highestmodseq)),
        }
    }
}

/// An answered STATUS item: the name followed by its value.
#[derive(Clone, Copy, Debug, PartialEq, Eq)]
pub enum StatusDataItem {
    Messages(u32),
    Recent(u32),
    UidNext(u32),
    UidValidity(u32),
    Unseen(u32),
    Deleted(u32),
    DeletedStorage(u64),
    HighestModSeq(u64),
}

impl Encoder for StatusDataItem {
    closed spec fn wire(&self) -> Seq<u8> {
        match self {
            StatusDataItem::Messages(n) => (kb(Keyword::KwC(KwC::Messages)) + kb(Keyword::KwA(KwA::Sp))) + dec_digits(
                *n as nat,
            ),
            StatusDataItem::Recent(n) => (kb(Keyword::KwC(KwC::Recent)) + kb(Keyword::KwA(KwA::Sp))) + dec_digits(
                *n as nat,
            ),
            StatusDataItem::UidNext(n) => (kb(Keyword::KwC(KwC::Uidnext)) + kb(Keyword::KwA(KwA::Sp))) + dec_digits(
                *n as nat,
            ),
            StatusDataItem::UidValidity(n) => (kb(Keyword::KwC(KwC::Uidvalidity)) + kb(Keyword::KwA(KwA::Sp)))
                + dec_digits(*n as nat),
            StatusDataItem::Unseen(n) => (kb(Keyword::KwC(KwC::Unseen)) + kb(Keyword::KwA(KwA::Sp))) + dec_digits(
                *n as nat,
            ),
            StatusDataItem::Deleted(n) => (kb(Keyword::KwC(KwC::Deleted)) + kb(Keyword::KwA(KwA::Sp))) + dec_digits(
                *n as nat,
            ),
            StatusDataItem::DeletedStorage(n) => (kb(Keyword::KwC(KwC::DeletedStorage)) + kb(Keyword::KwA(KwA::Sp)))
                + dec_digits(*n as nat),
            StatusDataItem::HighestModSeq(n) => (kb(Keyword::KwC(KwC::Highestmodseq)) + kb(Keyword::KwA(KwA::Sp)))
                + dec_digits(*n as nat),
        }
    }

    fn encode_ctx(&self, ctx: &mut EncodeContext) {
        match self {
            StatusDataItem::Messages(n) => {
                ctx.write_kw(Keyword::KwC(KwC::Messages));
                ctx.write_kw(Keyword::KwA(KwA::Sp));
                ctx.write_u32(*n);
            },
            StatusDataItem::Recent(n) => {
                ctx.write_kw(Keyword::KwC(KwC::Recent));
                ctx.write_kw(Keyword::KwA(KwA::Sp));
                ctx.write_u32(*n);
            },
            StatusDataItem::UidNext(n) => {
                ctx.write_kw(Keyword::KwC(KwC::Uidnext));
                ctx.write_kw(Keyword::KwA(KwA::Sp));
                ctx.write_u32(*n);
            },
            StatusDataItem::UidValidity(n) => {
                ctx.write_kw(Keyword::KwC(KwC::Uidvalidity));
                ctx.write_kw(Keyword::KwA(KwA::Sp));
                ctx.write_u32(*n);
            },
            StatusDataItem::Unseen(n) => {
                ctx.write_kw(Keyword::KwC(KwC::Unseen));
                ctx.write_kw(Keyword::KwA(KwA::Sp));
                ctx.write_u32(*n);
            },
            StatusDataItem::Deleted(n) => {
                ctx.write_kw(Keyword::KwC(KwC::Deleted));
                ctx.write_kw(Keyword::KwA(KwA::Sp));
                ctx.write_u32(*n);
            },
            StatusDataItem::DeletedStorage(n) => {
                ctx.write_kw(Keyword::KwC(KwC::DeletedStorage));
                ctx.write_kw(Keyword::KwA(KwA::Sp));
                ctx.write_u64(*n);
            },
            StatusDataItem::HighestModSeq(n) => {
                ctx.write_kw(Keyword::KwC(KwC::Highestmodseq));
                ctx.write_kw(Keyword::KwA(KwA::Sp));
                ctx.write_u64(*n);
            },
        }
    }
}

} // verus!
