//! Message flags, as they appear in commands and responses.

use vstd::prelude::*;

use crate::encode::{EncodeContext, Encoder};
use crate::imapstr::Atom;
use crate::kw::{kb, Keyword, KwA, KwB, KwC, KwD, KwE, KwF};

verus! {

broadcast use {
    crate::seqext::lemma_concat_assoc,
    crate::seqext::lemma_concat_empty_right,
    crate::seqext::lemma_concat_empty_left,
    crate::frag_rules::lemma_frags_extended_trans,
    crate::frag_rules::lemma_frags_extended_refl,
};

/// A system-flag extension: encoded as `\` followed by the atom.
#[derive(Clone, Debug, PartialEq, Eq)]
pub struct FlagExtension(pub Atom);

impl Encoder for FlagExtension {
    closed spec fn wire(&self) -> Seq<u8> {
        kb(Keyword::KwA(KwA::Backslash)) + self.0.wire()
    }

    fn encode_ctx(&self, ctx: &mut EncodeContext) {
        ctx.write_kw(Keyword::KwA(KwA::Backslash));
        self.0.encode_ctx(ctx);
    }
}

/// A flag that may be stored on a message.
#[derive(Clone, Debug, PartialEq, Eq)]
pub enum Flag {
    Seen,
    Answered,
    Flagged,
    Deleted,
    Draft,
    Extension(FlagExtension),
    Keyword(Atom),
}

impl Encoder for Flag {
    closed spec fn wire(&self) -> Seq<u8> {
        match self {
            Flag::Seen => kb(Keyword::KwC(KwC::FlagSeen)),
            Flag::Answered => kb(Keyword::KwC(KwC::FlagAnswered)),
            Flag::Flagged => kb(Keyword::KwC(KwC::FlagFlagged)),
            Flag::Deleted => kb(Keyword::KwC(KwC::FlagDeleted)),
            Flag::Draft => kb(Keyword::KwC(KwC::FlagDraft)),
            Flag::Extension(other) => other.wire(),
            Flag::Keyword(atom) => atom.wire(),
        }
    }

    fn encode_ctx(&self, ctx: &mut EncodeContext) {
        match self {
            Flag::Seen => ctx.write_kw(Keyword::KwC(KwC::FlagSeen)),
            Flag::Answered => ctx.write_kw(Keyword::KwC(KwC::FlagAnswered)),
            Flag::Flagged => ctx.write_kw(Keyword::KwC(KwC::FlagFlagged)),
            Flag::Deleted => ctx.write_kw(Keyword::KwC(KwC::FlagDeleted)),
            Flag::Draft => ctx.write_kw(Keyword::KwC(KwC::FlagDraft)),
            Flag::Extension(other) => other.encode_ctx(ctx),
            Flag::Keyword(atom) => atom.encode_ctx(ctx),
        }
    }
}

/// A flag as a FETCH result carries it: a stored flag or `\Recent`.
#[derive(Clone, Debug, PartialEq, Eq)]
pub enum FlagFetch {
    Flag(Flag),
    Recent,
}

impl Encoder for FlagFetch {
    closed spec fn wire(&self) -> Seq<u8> {
        match self {
            FlagFetch::Flag(f) => f.wire(),
            FlagFetch::Recent => kb(Keyword::KwC(KwC::FlagRecent)),
        }
    }

    fn encode_ctx(&self, ctx: &mut EncodeContext) {
        match self {
            FlagFetch::Flag(f) => f.encode_ctx(ctx),
            FlagFetch::Recent => ctx.write_kw(Keyword::KwC(KwC::FlagRecent)),
        }
    }
}

/// A flag in a PERMANENTFLAGS list: a flag or the `\*` marker.
#[derive(Clone, Debug, PartialEq, Eq)]
pub enum FlagPerm {
    Flag(Flag),
    AllowNewKeywords,
}

impl Encoder for FlagPerm {
    closed spec fn wire(&self) -> Seq<u8> {
        match self {
            FlagPerm::Flag(f) => f.wire(),
            FlagPerm::AllowNewKeywords => kb(Keyword::KwC(KwC::FlagStar)),
        }
    }

    fn encode_ctx(&self, ctx: &mut EncodeContext) {
        match self {
            FlagPerm::Flag(f) => f.encode_ctx(ctx),
            FlagPerm::AllowNewKeywords => ctx.write_kw(Keyword::KwC(KwC::FlagStar)),
        }
    }
}

/// A mailbox name attribute in LIST/LSUB data.
#[derive(Clone, Debug, PartialEq, Eq)]
pub enum FlagNameAttribute {
    Noinferiors,
    Noselect,
    Marked,
    Unmarked,
    Extension(Atom),
}

impl Encoder for FlagNameAttribute {
    closed spec fn wire(&self) -> Seq<u8> {
        match self {
            FlagNameAttribute::Noinferiors => kb(Keyword::KwC(KwC::AttrNoinferiors)),
            FlagNameAttribute::Noselect => kb(Keyword::KwC(KwC::AttrNoselect)),
            FlagNameAttribute::Marked => kb(Keyword::KwC(KwC::AttrMarked)),
            FlagNameAttribute::Unmarked => kb(Keyword::KwC(KwC::AttrUnmarked)),
            FlagNameAttribute::Extension(atom) => kb(Keyword::KwA(KwA::Backslash)) + atom.wire(),
        }
    }

    fn encode_ctx(&self, ctx: &mut EncodeContext) {
        match self {
            FlagNameAttribute::Noinferiors => ctx.write_kw(Keyword::KwC(KwC::AttrNoinferiors)),
            FlagNameAttribute::Noselect => ctx.write_kw(Keyword::KwC(KwC::AttrNoselect)),
            FlagNameAttribute::Marked => ctx.write_kw(Keyword::KwC(KwC::AttrMarked)),
            FlagNameAttribute::Unmarked => ctx.write_kw(Keyword::KwC(KwC::AttrUnmarked)),
            FlagNameAttribute::Extension(atom) => {
                ctx.write_kw(Keyword::KwA(KwA::Backslash));
                atom.encode_ctx(ctx);
            },
        }
    }
}

/// How a STORE changes the flag set.
#[derive(Clone, Copy, Debug, PartialEq, Eq)]
pub enum StoreType {
    Replace,
    Add,
    Remove,
}

/// Whether the server answers a STORE with the resulting flags.
#[derive(Clone, Copy, Debug, PartialEq, Eq)]
pub enum StoreResponse {
    Answer,
    Silent,
}

} // verus!
