//! SEARCH criteria: a recursive key grammar.

use vstd::prelude::*;

use crate::datetime::NaiveDate;
use crate::encode::{EncodeContext, Encoder};
use crate::imapstr::{AString, Atom};
use crate::kw::{kb, Keyword, KwA, KwB, KwC, KwD, KwE, KwF};
use crate::numfmt::dec_digits;
use crate::sequence::SequenceSet;

verus! {

broadcast use {
    crate::seqext::lemma_concat_assoc,
    crate::seqext::lemma_concat_empty_right,
    crate::seqext::lemma_concat_empty_left,
    crate::frag_rules::lemma_frags_extended_trans,
    crate::frag_rules::lemma_frags_extended_refl,
};

/// One SEARCH criterion.
#[derive(Debug, PartialEq, Eq)]
pub enum SearchKey {
    All,
    Answered,
    Bcc(AString),
    Before(NaiveDate),
    Body(AString),
    Cc(AString),
    Deleted,
    Draft,
    Flagged,
    From(AString),
    Header(AString, AString),
    Keyword(Atom),
    Larger(u32),
    New,
    Not(Box<SearchKey>),
    Old,
    On(NaiveDate),
    Or(Box<SearchKey>, Box<SearchKey>),
    Recent,
    Seen,
    SentBefore(NaiveDate),
    SentOn(NaiveDate),
    SentSince(NaiveDate),
    SequenceSet(SequenceSet),
    Since(NaiveDate),
    Smaller(u32),
    Subject(AString),
    Text(AString),
    To(AString),
    Uid(SequenceSet),
    Unanswered,
    Undeleted,
    Undraft,
    Unflagged,
    Unkeyword(Atom),
    Unseen,
    And(Vec<SearchKey>),
}

/// A keyword followed by a space and an operand.
spec fn kw_sp_arg(k: Keyword, arg: Seq<u8>) -> Seq<u8> {
    (kb(k) + kb(Keyword::KwA(KwA::Sp))) + arg
}

/// The wire bytes of one search key.
pub closed spec fn search_key_wire(k: SearchKey) -> Seq<u8>
    decreases k,
{
    match k {
        SearchKey::All => kb(Keyword::KwC(KwC::All)),
        SearchKey::Answered => kb(Keyword::KwC(KwC::Answered)),
        SearchKey::Bcc(a) => kw_sp_arg(Keyword::KwC(KwC::Bcc), a.wire()),
        SearchKey::Before(d) => kw_sp_arg(Keyword::KwC(KwC::Before), d.wire()),
        SearchKey::Body(a) => kw_sp_arg(Keyword::KwC(KwC::Body), a.wire()),
        SearchKey::Cc(a) => kw_sp_arg(Keyword::KwD(KwD::Cc), a.wire()),
        SearchKey::Deleted => kb(Keyword::KwC(KwC::Deleted)),
        SearchKey::Draft => kb(Keyword::KwD(KwD::Draft)),
        SearchKey::Flagged => kb(Keyword::KwD(KwD::Flagged)),
        SearchKey::From(a) => kw_sp_arg(Keyword::KwD(KwD::From), a.wire()),
        SearchKey::Header(name, value) => kw_sp_arg(
            Keyword::KwD(KwD::Header),
            (name.wire() + kb(Keyword::KwA(KwA::Sp))) + value.wire(),
        ),
        SearchKey::Keyword(a) => kw_sp_arg(Keyword::KwD(KwD::KeywordTok), a.wire()),
        SearchKey::Larger(n) => kw_sp_arg(Keyword::KwD(KwD::Larger), dec_digits(n as nat)),
        SearchKey::New => kb(Keyword::KwD(KwD::New)),
        SearchKey::Not(inner) => kw_sp_arg(Keyword::KwD(KwD::Not), search_key_wire(*inner)),
        SearchKey::Old => kb(Keyword::KwD(KwD::Old)),
        SearchKey::On(d) => kw_sp_arg(Keyword::KwD(KwD::On), d.wire()),
        SearchKey::Or(a, b) => kw_sp_arg(
            Keyword::KwD(KwD::Or),
            (search_key_wire(*a) + kb(Keyword::KwA(KwA::Sp))) + search_key_wire(*b),
        ),
        SearchKey::Recent => kb(Keyword::KwC(KwC::Recent)),
        SearchKey::Seen => kb(Keyword::KwD(KwD::Seen)),
        SearchKey::SentBefore(d) => kw_sp_arg(Keyword::KwD(KwD::Sentbefore), d.wire()),
        SearchKey::SentOn(d) => kw_sp_arg(Keyword::KwD(KwD::Senton), d.wire()),
        SearchKey::SentSince(d) => kw_sp_arg(Keyword::KwD(KwD::Sentsince), d.wire()),
        SearchKey::SequenceSet(s) => s.wire(),
        SearchKey::Since(d) => kw_sp_arg(Keyword::KwD(KwD::Since), d.wire()),
        SearchKey::Smaller(n) => kw_sp_arg(Keyword::KwD(KwD::Smaller), dec_digits(n as nat)),
        SearchKey::Subject(a) => kw_sp_arg(Keyword::KwD(KwD::Subject), a.wire()),
        SearchKey::Text(a) => kw_sp_arg(Keyword::KwD(KwD::TextTok), a.wire()),
        SearchKey::To(a) => kw_sp_arg(Keyword::KwD(KwD::To), a.wire()),
        SearchKey::Uid(s) => kw_sp_arg(Keyword::KwD(KwD::Uid), s.wire()),
        SearchKey::Unanswered => kb(Keyword::KwD(KwD::Unanswered)),
        SearchKey::Undeleted => kb(Keyword::KwD(KwD::Undeleted)),
        SearchKey::Undraft => kb(Keyword::KwD(KwD::Undraft)),
        SearchKey::Unflagged => kb(Keyword::KwD(KwD::Unflagged)),
        SearchKey::Unkeyword(a) => kw_sp_arg(Keyword::KwD(KwD::Unkeyword), a.wire()),
        SearchKey::Unseen => kb(Keyword::KwC(KwC::Unseen)),
        SearchKey::And(keys) => (kb(Keyword::KwA(KwA::LParen)) + search_keys_wire(keys@)) + kb(
            Keyword::KwA(KwA::RParen),
        ),
    }
}

/// Space-joined search keys, as the parenthesised AND form writes them.
pub closed spec fn search_keys_wire(s: Seq<SearchKey>) -> Seq<u8>
    decreases s,
{
    if s.len() == 0 {
        Seq::empty()
    } else if s.len() == 1 {
        search_key_wire(s[0])
    } else {
        (search_key_wire(s[0]) + kb(Keyword::KwA(KwA::Sp))) + search_keys_wire(s.drop_first())
    }
}

impl SearchKey {
    /// Write this key; the real work of the trait impl, recursive on the
    /// key's structure.
    fn write_ctx(&self, ctx: &mut EncodeContext)
        ensures
            final(ctx).wire() == old(ctx).wire() + search_key_wire(*self),
            crate::frag_rules::frags_extended(old(ctx).items@, final(ctx).items@),
        decreases *self,
    {
        match self {
            SearchKey::All => ctx.write_kw(Keyword::KwC(KwC::All)),
            SearchKey::Answered => ctx.write_kw(Keyword::KwC(KwC::Answered)),
            SearchKey::Bcc(a) => {
                ctx.write_kw(Keyword::KwC(KwC::Bcc));
                ctx.write_kw(Keyword::KwA(KwA::Sp));
                a.encode_ctx(ctx);
            },
            SearchKey::Before(d) => {
                ctx.write_kw(Keyword::KwC(KwC::Before));
                ctx.write_kw(Keyword::KwA(KwA::Sp));
                d.encode_ctx(ctx);
            },
            SearchKey::Body(a) => {
                ctx.write_kw(Keyword::KwC(KwC::Body));
                ctx.write_kw(Keyword::KwA(KwA::Sp));
                a.encode_ctx(ctx);
            },
            SearchKey::Cc(a) => {
                ctx.write_kw(Keyword::KwD(KwD::Cc));
                ctx.write_kw(Keyword::KwA(KwA::Sp));
                a.encode_ctx(ctx);
            },
            SearchKey::Deleted => ctx.write_kw(Keyword::KwC(KwC::Deleted)),
            SearchKey::Draft => ctx.write_kw(Keyword::KwD(KwD::Draft)),
            SearchKey::Flagged => ctx.write_kw(Keyword::KwD(KwD::Flagged)),
            SearchKey::From(a) => {
                ctx.write_kw(Keyword::KwD(KwD::From));
                ctx.write_kw(Keyword::KwA(KwA::Sp));
                a.encode_ctx(ctx);
            },
            SearchKey::Header(name, value) => {
                ctx.write_kw(Keyword::KwD(KwD::Header));
                ctx.write_kw(Keyword::KwA(KwA::Sp));
                name.encode_ctx(ctx);
                ctx.write_kw(Keyword::KwA(KwA::Sp));
                value.encode_ctx(ctx);
            },
            SearchKey::Keyword(a) => {
                ctx.write_kw(Keyword::KwD(KwD::KeywordTok));
                ctx.write_kw(Keyword::KwA(KwA::Sp));
                a.encode_ctx(ctx);
            },
            SearchKey::Larger(n) => {
                ctx.write_kw(Keyword::KwD(KwD::Larger));
                ctx.write_kw(Keyword::KwA(KwA::Sp));
                ctx.write_u32(*n);
            },
            SearchKey::New => ctx.write_kw(Keyword::KwD(KwD::New)),
            SearchKey::Not(inner) => {
                ctx.write_kw(Keyword::KwD(KwD::Not));
                ctx.write_kw(Keyword::KwA(KwA::Sp));
                inner.write_ctx(ctx);
            },
            SearchKey::Old => ctx.write_kw(Keyword::KwD(KwD::Old)),
            SearchKey::On(d) => {
                ctx.write_kw(Keyword::KwD(KwD::On));
                ctx.write_kw(Keyword::KwA(KwA::Sp));
                d.encode_ctx(ctx);
            },
            SearchKey::Or(a, b) => {
                ctx.write_kw(Keyword::KwD(KwD::Or));
                ctx.write_kw(Keyword::KwA(KwA::Sp));
                let ghost before = ctx.items@;
                a.write_ctx(ctx);
                let ghost mid = ctx.items@;
                ctx.write_kw(Keyword::KwA(KwA::Sp));
                b.write_ctx(ctx);
                proof {
                    crate::frag_rules::lemma_frags_extended_trans(before, mid, ctx.items@);
                }
            },
            SearchKey::Recent => ctx.write_kw(Keyword::KwC(KwC::Recent)),
            SearchKey::Seen => ctx.write_kw(Keyword::KwD(KwD::Seen)),
            SearchKey::SentBefore(d) => {
                ctx.write_kw(Keyword::KwD(KwD::Sentbefore));
                ctx.write_kw(Keyword::KwA(KwA::Sp));
                d.encode_ctx(ctx);
            },
            SearchKey::SentOn(d) => {
                ctx.write_kw(Keyword::KwD(KwD::Senton));
                ctx.write_kw(Keyword::KwA(KwA::Sp));
                d.encode_ctx(ctx);
            },
            SearchKey::SentSince(d) => {
                ctx.write_kw(Keyword::KwD(KwD::Sentsince));
                ctx.write_kw(Keyword::KwA(KwA::Sp));
                d.encode_ctx(ctx);
            },
            SearchKey::SequenceSet(s) => s.encode_ctx(ctx),
            SearchKey::Since(d) => {
                ctx.write_kw(Keyword::KwD(KwD::Since));
                ctx.write_kw(Keyword::KwA(KwA::Sp));
                d.encode_ctx(ctx);
            },
            SearchKey::Smaller(n) => {
                ctx.write_kw(Keyword::KwD(KwD::Smaller));
                ctx.write_kw(Keyword::KwA(KwA::Sp));
                ctx.write_u32(*n);
            },
            SearchKey::Subject(a) => {
                ctx.write_kw(Keyword::KwD(KwD::Subject));
                ctx.write_kw(Keyword::KwA(KwA::Sp));
                a.encode_ctx(ctx);
            },
            SearchKey::Text(a) => {
                ctx.write_kw(Keyword::KwD(KwD::TextTok));
                ctx.write_kw(Keyword::KwA(KwA::Sp));
                a.encode_ctx(ctx);
            },
            SearchKey::To(a) => {
                ctx.write_kw(Keyword::KwD(KwD::To));
                ctx.write_kw(Keyword::KwA(KwA::Sp));
                a.encode_ctx(ctx);
            },
            SearchKey::Uid(s) => {
                ctx.write_kw(Keyword::KwD(KwD::Uid));
                ctx.write_kw(Keyword::KwA(KwA::Sp));
                s.encode_ctx(ctx);
            },
            SearchKey::Unanswered => ctx.write_kw(Keyword::KwD(KwD::Unanswered)),
            SearchKey::Undeleted => ctx.write_kw(Keyword::KwD(KwD::Undeleted)),
            SearchKey::Undraft => ctx.write_kw(Keyword::KwD(KwD::Undraft)),
            SearchKey::Unflagged => ctx.write_kw(Keyword::KwD(KwD::Unflagged)),
            SearchKey::Unkeyword(a) => {
                ctx.write_kw(Keyword::KwD(KwD::Unkeyword));
                ctx.write_kw(Keyword::KwA(KwA::Sp));
                a.encode_ctx(ctx);
            },
            SearchKey::Unseen => ctx.write_kw(Keyword::KwC(KwC::Unseen)),
            SearchKey::And(keys) => {
                ctx.write_kw(Keyword::KwA(KwA::LParen));
                Self::write_list(keys.as_slice(), ctx);
                ctx.write_kw(Keyword::KwA(KwA::RParen));
            },
        }
    }

    /// Write space-joined keys, recursively on the slice.
    fn write_list(keys: &[SearchKey], ctx: &mut EncodeContext)
        ensures
            final(ctx).wire() == old(ctx).wire() + search_keys_wire(keys@),
            crate::frag_rules::frags_extended(old(ctx).items@, final(ctx).items@),
        decreases keys@,
    {
        if keys.len() == 0 {
            proof {
                crate::frag_rules::lemma_frags_extended_refl(ctx.items@);
            }
        } else {
            let first = vstd::slice::slice_index_get(keys, 0);
            first.write_ctx(ctx);
            if keys.len() > 1 {
                let ghost mid = ctx.items@;
                ctx.write_kw(Keyword::KwA(KwA::Sp));
                let rest = vstd::slice::slice_subrange(keys, 1, keys.len());
                Self::write_list(rest, ctx);
                proof {
                    assert(rest@ =~= keys@.drop_first());
                    crate::frag_rules::lemma_frags_extended_trans(
                        old(ctx).items@,
                        mid,
                        ctx.items@,
                    );
                }
            }
        }
    }
}

impl Encoder for SearchKey {
    closed spec fn wire(&self) -> Seq<u8> {
        search_key_wire(*self)
    }

    fn encode_ctx(&self, ctx: &mut EncodeContext) {
        self.write_ctx(ctx);
    }
}

} // verus!
