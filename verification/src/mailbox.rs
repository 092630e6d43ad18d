//! Mailbox names and LIST/LSUB patterns.

use vstd::prelude::*;

use crate::encode::{EncodeContext, Encoder};
use crate::imapstr::{AString, IString, ListCharString};
use crate::kw::{kb, Keyword, KwA, KwB, KwC, KwD, KwE, KwF};

verus! {

broadcast use {
    crate::seqext::lemma_concat_assoc,
    crate::seqext::lemma_concat_empty_right,
    crate::seqext::lemma_concat_empty_left,
    crate::frag_rules::lemma_frags_extended_trans,
    crate::frag_rules::lemma_frags_extended_refl,
};

/// Whether the bytes spell `INBOX`, in any mix of case.
pub open spec fn spells_inbox(s: Seq<u8>) -> bool {
    &&& s.len() == 5
    &&& (s[0] == 73u8 || s[0] == 105u8)
    &&& (s[1] == 78u8 || s[1] == 110u8)
    &&& (s[2] == 66u8 || s[2] == 98u8)
    &&& (s[3] == 79u8 || s[3] == 111u8)
    &&& (s[4] == 88u8 || s[4] == 120u8)
}

fn bytes_spell_inbox(b: &[u8]) -> (r: bool)
    ensures
        r == spells_inbox(b@),
{
    if b.len() != 5 {
        return false;
    }
    let b0: u8 = *vstd::slice::slice_index_get(b, 0);
    let b1: u8 = *vstd::slice::slice_index_get(b, 1);
    let b2: u8 = *vstd::slice::slice_index_get(b, 2);
    let b3: u8 = *vstd::slice::slice_index_get(b, 3);
    let b4: u8 = *vstd::slice::slice_index_get(b, 4);
    (b0 == 73 || b0 == 105) && (b1 == 78 || b1 == 110) && (b2 == 66 || b2 == 98) && (b3 == 79
        || b3 == 111) && (b4 == 88 || b4 == 120)
}

/// A mailbox name that is not `INBOX`, kept in its string form.
#[derive(Clone, Debug, PartialEq, Eq)]
pub struct MailboxOther(pub AString);

impl Encoder for MailboxOther {
    closed spec fn wire(&self) -> Seq<u8> {
        self.0.wire()
    }

    fn encode_ctx(&self, ctx: &mut EncodeContext) {
        self.0.encode_ctx(ctx);
    }
}

/// A mailbox: `INBOX` (case-insensitively) or any other name.
#[derive(Clone, Debug, PartialEq, Eq)]
pub enum Mailbox {
    Inbox,
    Other(MailboxOther),
}

impl Mailbox {
    /// Sort an atom-form name: any spelling of `INBOX` collapses to the
    /// `Inbox` variant, preserving the case-insensitive equivalence.
    pub fn from_astring(a: AString) -> (r: Mailbox)
        ensures
            r == Mailbox::Inbox <==> (a matches AString::Atom(x) && spells_inbox(x@)),
            !(a matches AString::Atom(x) && spells_inbox(x@)) ==> r == Mailbox::Other(
                MailboxOther(a),
            ),
    {
        let inbox: bool = match &a {
            AString::Atom(x) => bytes_spell_inbox(x.as_bytes()),
            AString::String(_) => false,
        };
        if inbox {
            Mailbox::Inbox
        } else {
            Mailbox::Other(MailboxOther(a))
        }
    }
}

impl Encoder for Mailbox {
    closed spec fn wire(&self) -> Seq<u8> {
        match self {
            Mailbox::Inbox => kb(Keyword::KwC(KwC::Inbox)),
            Mailbox::Other(other) => other.wire(),
        }
    }

    fn encode_ctx(&self, ctx: &mut EncodeContext) {
        match self {
            Mailbox::Inbox => ctx.write_kw(Keyword::KwC(KwC::Inbox)),
            Mailbox::Other(other) => other.encode_ctx(ctx),
        }
    }
}

/// The mailbox argument of LIST/LSUB: a wildcard token or a string.
#[derive(Clone, Debug, PartialEq, Eq)]
pub enum ListMailbox {
    Token(ListCharString),
    String(IString),
}

impl Encoder for ListMailbox {
    closed spec fn wire(&self) -> Seq<u8> {
        match self {
            ListMailbox::Token(t) => t.wire(),
            ListMailbox::String(s) => s.wire(),
        }
    }

    fn encode_ctx(&self, ctx: &mut EncodeContext) {
        match self {
            ListMailbox::Token(t) => t.encode_ctx(ctx),
            ListMailbox::String(s) => s.encode_ctx(ctx),
        }
    }
}

} // verus!
