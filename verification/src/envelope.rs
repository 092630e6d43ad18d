//! Message envelopes: the parenthesised header-field summary a FETCH
//! answers with `ENVELOPE`.

use vstd::prelude::*;

use crate::encode::{join_serializable, joined_wire, EncodeContext, Encoder};
use crate::imapstr::NString;
use crate::kw::{kb, Keyword, KwA, KwB, KwC, KwD, KwE, KwF};

verus! {

broadcast use {
    crate::seqext::lemma_concat_assoc,
    crate::seqext::lemma_concat_empty_right,
    crate::seqext::lemma_concat_empty_left,
    crate::frag_rules::lemma_frags_extended_trans,
    crate::frag_rules::lemma_frags_extended_refl,
};

/// One address of an envelope: name, source route, mailbox and host.
#[derive(Clone, Debug, PartialEq, Eq)]
pub struct Address {
    pub name: NString,
    pub adl: NString,
    pub mailbox: NString,
    pub host: NString,
}

impl Encoder for Address {
    closed spec fn wire(&self) -> Seq<u8> {
        ((((((((kb(Keyword::KwA(KwA::LParen)) + self.name.wire()) + kb(Keyword::KwA(KwA::Sp)))
            + self.adl.wire()) + kb(Keyword::KwA(KwA::Sp))) + self.mailbox.wire()) + kb(
            Keyword::KwA(KwA::Sp),
        )) + self.host.wire()) + kb(Keyword::KwA(KwA::RParen)))
    }

    fn encode_ctx(&self, ctx: &mut EncodeContext) {
        ctx.write_kw(Keyword::KwA(KwA::LParen));
        self.name.encode_ctx(ctx);
        let ghost m1 = ctx.items@;
        ctx.write_kw(Keyword::KwA(KwA::Sp));
        self.adl.encode_ctx(ctx);
        let ghost m2 = ctx.items@;
        ctx.write_kw(Keyword::KwA(KwA::Sp));
        self.mailbox.encode_ctx(ctx);
        let ghost m3 = ctx.items@;
        ctx.write_kw(Keyword::KwA(KwA::Sp));
        self.host.encode_ctx(ctx);
        ctx.write_kw(Keyword::KwA(KwA::RParen));
        proof {
            crate::frag_rules::lemma_frags_extended_trans(m2, m3, ctx.items@);
            crate::frag_rules::lemma_frags_extended_trans(m1, m2, ctx.items@);
            crate::frag_rules::lemma_frags_extended_trans(old(ctx).items@, m1, ctx.items@);
        }
    }
}

/// The envelope of a message: the positional parenthesised header fields.
#[derive(Clone, Debug, PartialEq, Eq)]
pub struct Envelope {
    pub date: NString,
    pub subject: NString,
    pub from: Vec<Address>,
    pub sender: Vec<Address>,
    pub reply_to: Vec<Address>,
    pub to: Vec<Address>,
    pub cc: Vec<Address>,
    pub bcc: Vec<Address>,
    pub in_reply_to: NString,
    pub message_id: NString,
}

/// An address list as the envelope writes it: `NIL` when empty, otherwise
/// the addresses back to back inside parentheses.
pub open spec fn address_list_bytes(addrs: Seq<Address>) -> Seq<u8> {
    if addrs.len() == 0 {
        kb(Keyword::KwA(KwA::Nil))
    } else {
        (kb(Keyword::KwA(KwA::LParen)) + joined_wire(addrs, Seq::<u8>::empty())) + kb(
            Keyword::KwA(KwA::RParen),
        )
    }
}

fn write_address_list(addrs: &Vec<Address>, ctx: &mut EncodeContext)
    ensures
        final(ctx).wire() == old(ctx).wire() + address_list_bytes(addrs@),
        crate::frag_rules::frags_extended(old(ctx).items@, final(ctx).items@),
{
    if addrs.is_empty() {
        ctx.write_kw(Keyword::KwA(KwA::Nil));
    } else {
        ctx.write_kw(Keyword::KwA(KwA::LParen));
        let empty_sep: [u8; 0] = [];
        join_serializable(addrs.as_slice(), empty_sep.as_slice(), ctx);
        ctx.write_kw(Keyword::KwA(KwA::RParen));
        proof {
            assert(empty_sep@ =~= Seq::<u8>::empty());
        }
    }
}

impl Encoder for Envelope {
    closed spec fn wire(&self) -> Seq<u8> {
        ((((((((((((((((((((kb(Keyword::KwA(KwA::LParen)) + self.date.wire()) + kb(
            Keyword::KwA(KwA::Sp),
        )) + self.subject.wire()) + kb(Keyword::KwA(KwA::Sp))) + address_list_bytes(self.from@))
            + kb(Keyword::KwA(KwA::Sp))) + address_list_bytes(self.sender@)) + kb(
            Keyword::KwA(KwA::Sp),
        )) + address_list_bytes(self.reply_to@)) + kb(Keyword::KwA(KwA::Sp)))
            + address_list_bytes(self.to@)) + kb(Keyword::KwA(KwA::Sp))) + address_list_bytes(
            self.cc@,
        )) + kb(Keyword::KwA(KwA::Sp))) + address_list_bytes(self.bcc@)) + kb(
            Keyword::KwA(KwA::Sp),
        )) + self.in_reply_to.wire()) + kb(Keyword::KwA(KwA::Sp))) + self.message_id.wire()) + kb(
            Keyword::KwA(KwA::RParen),
        ))
    }

    fn encode_ctx(&self, ctx: &mut EncodeContext) {
        ctx.write_kw(Keyword::KwA(KwA::LParen));
        self.date.encode_ctx(ctx);
        let ghost m1 = ctx.items@;
        ctx.write_kw(Keyword::KwA(KwA::Sp));
        self.subject.encode_ctx(ctx);
        let ghost m2 = ctx.items@;
        ctx.write_kw(Keyword::KwA(KwA::Sp));
        write_address_list(&self.from, ctx);
        let ghost m3 = ctx.items@;
        ctx.write_kw(Keyword::KwA(KwA::Sp));
        write_address_list(&self.sender, ctx);
        let ghost m4 = ctx.items@;
        ctx.write_kw(Keyword::KwA(KwA::Sp));
        write_address_list(&self.reply_to, ctx);
        let ghost m5 = ctx.items@;
        ctx.write_kw(Keyword::KwA(KwA::Sp));
        write_address_list(&self.to, ctx);
        let ghost m6 = ctx.items@;
        ctx.write_kw(Keyword::KwA(KwA::Sp));
        write_address_list(&self.cc, ctx);
        let ghost m7 = ctx.items@;
        ctx.write_kw(Keyword::KwA(KwA::Sp));
        write_address_list(&self.bcc, ctx);
        let ghost m8 = ctx.items@;
        ctx.write_kw(Keyword::KwA(KwA::Sp));
        self.in_reply_to.encode_ctx(ctx);
        let ghost m9 = ctx.items@;
        ctx.write_kw(Keyword::KwA(KwA::Sp));
        self.message_id.encode_ctx(ctx);
        ctx.write_kw(Keyword::KwA(KwA::RParen));
        proof {
            crate::frag_rules::lemma_frags_extended_trans(m8, m9, ctx.items@);
            crate::frag_rules::lemma_frags_extended_trans(m7, m8, ctx.items@);
            crate::frag_rules::lemma_frags_extended_trans(m6, m7, ctx.items@);
            crate::frag_rules::lemma_frags_extended_trans(m5, m6, ctx.items@);
            crate::frag_rules::lemma_frags_extended_trans(m4, m5, ctx.items@);
            crate::frag_rules::lemma_frags_extended_trans(m3, m4, ctx.items@);
            crate::frag_rules::lemma_frags_extended_trans(m2, m3, ctx.items@);
            crate::frag_rules::lemma_frags_extended_trans(m1, m2, ctx.items@);
            crate::frag_rules::lemma_frags_extended_trans(old(ctx).items@, m1, ctx.items@);
        }
    }
}


} // verus!
