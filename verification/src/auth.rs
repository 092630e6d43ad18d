//! Authentication: SASL mechanism names and continuation data.

use vstd::prelude::*;

use crate::encode::{base64_bytes, base64_encode, crlf, EncodeContext, Encoder};
use crate::imapstr::Atom;
use crate::kw::{kb, Keyword, KwA, KwB, KwC, KwD, KwE, KwF};
use crate::secret::Secret;

verus! {

broadcast use {
    crate::seqext::lemma_concat_assoc,
    crate::seqext::lemma_concat_empty_right,
    crate::seqext::lemma_concat_empty_left,
    crate::frag_rules::lemma_frags_extended_trans,
    crate::frag_rules::lemma_frags_extended_refl,
};

/// A SASL mechanism name.
#[derive(Clone, Debug, PartialEq, Eq)]
pub enum AuthMechanism {
    Plain,
    Login,
    Other(Atom),
}

impl Encoder for AuthMechanism {
    closed spec fn wire(&self) -> Seq<u8> {
        match self {
            AuthMechanism::Plain => kb(Keyword::KwF(KwF::Plain)),
            AuthMechanism::Login => kb(Keyword::KwA(KwA::Login)),
            AuthMechanism::Other(atom) => atom.wire(),
        }
    }

    fn encode_ctx(&self, ctx: &mut EncodeContext) {
        match self {
            AuthMechanism::Plain => ctx.write_kw(Keyword::KwF(KwF::Plain)),
            AuthMechanism::Login => ctx.write_kw(Keyword::KwA(KwA::Login)),
            AuthMechanism::Other(atom) => atom.encode_ctx(ctx),
        }
    }
}

/// One client answer in an AUTHENTICATE exchange: the bytes go out
/// base64-encoded on a line of their own.
#[derive(Clone)]
pub struct AuthenticateData(pub Secret<Vec<u8>>);

impl Encoder for AuthenticateData {
    closed spec fn wire(&self) -> Seq<u8> {
        base64_bytes(self.0.value()@) + crlf()
    }

    fn encode_ctx(&self, ctx: &mut EncodeContext) {
        let encoded = base64_encode(self.0.expose_secret().as_slice());
        ctx.write_bytes(encoded.as_slice());
        ctx.write_crlf();
    }
}

} // verus!
