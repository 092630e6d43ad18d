//! FETCH data item names, sections and macros, as a client requests them.

use vstd::prelude::*;

use crate::encode::{join_serializable, joined_wire, EncodeContext, Encoder};
use crate::imapstr::AString;
use crate::kw::{kb, kw_vec, Keyword, KwA, KwB, KwC, KwD, KwE, KwF};
use crate::numfmt::dec_digits;

verus! {

broadcast use {
    crate::seqext::lemma_concat_assoc,
    crate::seqext::lemma_concat_empty_right,
    crate::seqext::lemma_concat_empty_left,
    crate::frag_rules::lemma_frags_extended_trans,
    crate::frag_rules::lemma_frags_extended_refl,
};

/// Why a part locator was rejected at construction.
#[derive(Clone, Copy, Debug, PartialEq, Eq)]
pub enum PartError {
    /// The locator was empty; at least one number is required.
    Empty,
    /// A number was zero; part numbers are positive.
    Zero,
}

/// A MIME part locator: dot-joined positive numbers.  Construction
/// validates, so every value has a defined encoding.
#[derive(Clone, Debug, PartialEq, Eq)]
pub struct Part {
    numbers: Vec<u32>,
}

/// A well-formed part: at least one number, all of them positive.
pub open spec fn part_wf(s: Seq<u32>) -> bool {
    s.len() > 0 && forall|i: int| 0 <= i < s.len() ==> #[trigger] s[i] > 0
}

impl View for Part {
    type V = Seq<u32>;

    closed spec fn view(&self) -> Seq<u32> {
        self.numbers@
    }
}

impl Part {
    pub fn new(numbers: Vec<u32>) -> (r: Result<Part, PartError>)
        ensures
            r is Ok <==> part_wf(numbers@),
            r matches Ok(p) ==> p@ == numbers@,
            r == Err::<Part, PartError>(PartError::Empty) <==> numbers@.len() == 0,
    {
        if numbers.len() == 0 {
            return Err(PartError::Empty);
        }
        let n: usize = numbers.len();
        let mut i: usize = 0;
        while i < n
            invariant
                n == numbers@.len(),
                0 <= i <= n,
                forall|j: int| 0 <= j < i ==> #[trigger] numbers@[j] > 0,
            decreases n - i,
        {
            if numbers[i] == 0 {
                return Err(PartError::Zero);
            }
            i = i + 1;
        }
        Ok(Part { numbers })
    }

    pub fn numbers(&self) -> (r: &Vec<u32>)
        ensures
            r@ == self@,
    {
        &self.numbers
    }
}

impl Encoder for Part {
    closed spec fn wire(&self) -> Seq<u8> {
        joined_wire(self@, kb(Keyword::KwA(KwA::Dot)))
    }

    fn encode_ctx(&self, ctx: &mut EncodeContext) {
        let sep = kw_vec(Keyword::KwA(KwA::Dot));
        join_serializable(self.numbers.as_slice(), sep.as_slice(), ctx);
    }
}

/// A section of a message body to fetch.
#[derive(Clone, Debug, PartialEq, Eq)]
pub enum Section {
    Part(Part),
    Header(Option<Part>),
    HeaderFields(Option<Part>, Vec<AString>),
    HeaderFieldsNot(Option<Part>, Vec<AString>),
    Text(Option<Part>),
    Mime(Part),
}

impl Encoder for Section {
    closed spec fn wire(&self) -> Seq<u8> {
        match self {
            Section::Part(p) => p.wire(),
            Section::Header(maybe) => match maybe {
                Some(p) => p.wire() + kb(Keyword::KwE(KwE::DotHeader)),
                None => kb(Keyword::KwD(KwD::Header)),
            },
            Section::HeaderFields(maybe, fields) => (match maybe {
                Some(p) => p.wire() + kb(Keyword::KwE(KwE::DotHeaderFieldsSp)),
                None => kb(Keyword::KwE(KwE::HeaderFieldsSp)),
            } + joined_wire(fields@, kb(Keyword::KwA(KwA::Sp)))) + kb(Keyword::KwA(KwA::RParen)),
            Section::HeaderFieldsNot(maybe, fields) => (match maybe {
                Some(p) => p.wire() + kb(Keyword::KwE(KwE::DotHeaderFieldsNotSp)),
                None => kb(Keyword::KwE(KwE::HeaderFieldsNotSp)),
            } + joined_wire(fields@, kb(Keyword::KwA(KwA::Sp)))) + kb(Keyword::KwA(KwA::RParen)),
            Section::Text(maybe) => match maybe {
                Some(p) => p.wire() + kb(Keyword::KwE(KwE::DotText)),
                None => kb(Keyword::KwD(KwD::TextTok)),
            },
            Section::Mime(p) => p.wire() + kb(Keyword::KwE(KwE::DotMime)),
        }
    }

    fn encode_ctx(&self, ctx: &mut EncodeContext) {
        match self {
            Section::Part(p) => p.encode_ctx(ctx),
            Section::Header(maybe) => match maybe {
                Some(p) => {
                    p.encode_ctx(ctx);
                    ctx.write_kw(Keyword::KwE(KwE::DotHeader));
                },
                None => ctx.write_kw(Keyword::KwD(KwD::Header)),
            },
            Section::HeaderFields(maybe, fields) => {
                match maybe {
                    Some(p) => {
                        p.encode_ctx(ctx);
                        ctx.write_kw(Keyword::KwE(KwE::DotHeaderFieldsSp));
                    },
                    None => ctx.write_kw(Keyword::KwE(KwE::HeaderFieldsSp)),
                }
                let sep = kw_vec(Keyword::KwA(KwA::Sp));
                join_serializable(fields.as_slice(), sep.as_slice(), ctx);
                ctx.write_kw(Keyword::KwA(KwA::RParen));
            },
            Section::HeaderFieldsNot(maybe, fields) => {
                match maybe {
                    Some(p) => {
                        p.encode_ctx(ctx);
                        ctx.write_kw(Keyword::KwE(KwE::DotHeaderFieldsNotSp));
                    },
                    None => ctx.write_kw(Keyword::KwE(KwE::HeaderFieldsNotSp)),
                }
                let sep = kw_vec(Keyword::KwA(KwA::Sp));
                join_serializable(fields.as_slice(), sep.as_slice(), ctx);
                ctx.write_kw(Keyword::KwA(KwA::RParen));
            },
            Section::Text(maybe) => match maybe {
                Some(p) => {
                    p.encode_ctx(ctx);
                    ctx.write_kw(Keyword::KwE(KwE::DotText));
                },
                None => ctx.write_kw(Keyword::KwD(KwD::TextTok)),
            },
            Section::Mime(p) => {
                p.encode_ctx(ctx);
                ctx.write_kw(Keyword::KwE(KwE::DotMime));
            },
        }
    }
}

/// A FETCH shorthand for a fixed set of items.
#[derive(Clone, Copy, Debug, PartialEq, Eq)]
pub enum Macro {
    All,
    Fast,
    Full,
}

impl Encoder for Macro {
    closed spec fn wire(&self) -> Seq<u8> {
        match self {
            Macro::All => kb(Keyword::KwC(KwC::All)),
            Macro::Fast => kb(Keyword::KwE(KwE::Fast)),
            Macro::Full => kb(Keyword::KwE(KwE::Full)),
        }
    }

    fn encode_ctx(&self, ctx: &mut EncodeContext) {
        match self {
            Macro::All => ctx.write_kw(Keyword::KwC(KwC::All)),
            Macro::Fast => ctx.write_kw(Keyword::KwE(KwE::Fast)),
            Macro::Full => ctx.write_kw(Keyword::KwE(KwE::Full)),
        }
    }
}

/// The name of one FETCH data item.
#[derive(Clone, Debug, PartialEq, Eq)]
pub enum MessageDataItemName {
    Body,
    BodyExt { section: Option<Section>, partial: Option<(u32, u32)>, peek: bool },
    BodyStructure,
    Envelope,
    Flags,
    InternalDate,
    Rfc822,
    Rfc822Header,
    Rfc822Size,
    Rfc822Text,
    Uid,
}

/// The `<a.b>` partial-range suffix of a BODY[...] item.
pub open spec fn partial_bytes(partial: Option<(u32, u32)>) -> Seq<u8> {
    match partial {
        Some((a, b)) => (((kb(Keyword::KwA(KwA::Lt)) + dec_digits(a as nat)) + kb(
            Keyword::KwA(KwA::Dot),
        )) + dec_digits(b as nat)) + kb(Keyword::KwA(KwA::Gt)),
        None => Seq::empty(),
    }
}

/// The section between the brackets, empty when absent.
pub open spec fn section_opt_bytes(section: Option<Section>) -> Seq<u8> {
    match section {
        Some(s) => s.wire(),
        None => Seq::empty(),
    }
}

impl Encoder for MessageDataItemName {
    closed spec fn wire(&self) -> Seq<u8> {
        match self {
            MessageDataItemName::Body => kb(Keyword::KwC(KwC::Body)),
            MessageDataItemName::BodyExt { section, partial, peek } => ((if *peek {
                kb(Keyword::KwE(KwE::BodyPeekLBracket))
            } else {
                kb(Keyword::KwE(KwE::BodyLBracket))
            } + section_opt_bytes(*section)) + kb(Keyword::KwA(KwA::RBracket))) + partial_bytes(
                *partial,
            ),
            MessageDataItemName::BodyStructure => kb(Keyword::KwD(KwD::Bodystructure)),
            MessageDataItemName::Envelope => kb(Keyword::KwE(KwE::EnvelopeTok)),
            MessageDataItemName::Flags => kb(Keyword::KwC(KwC::Flags)),
            MessageDataItemName::InternalDate => kb(Keyword::KwE(KwE::Internaldate)),
            MessageDataItemName::Rfc822 => kb(Keyword::KwE(KwE::Rfc822)),
            MessageDataItemName::Rfc822Header => kb(Keyword::KwE(KwE::Rfc822Header)),
            MessageDataItemName::Rfc822Size => kb(Keyword::KwE(KwE::Rfc822Size)),
            MessageDataItemName::Rfc822Text => kb(Keyword::KwE(KwE::Rfc822Text)),
            MessageDataItemName::Uid => kb(Keyword::KwD(KwD::Uid)),
        }
    }

    fn encode_ctx(&self, ctx: &mut EncodeContext) {
        match self {
            MessageDataItemName::Body => ctx.write_kw(Keyword::KwC(KwC::Body)),
            MessageDataItemName::BodyExt { section, partial, peek } => {
                if *peek {
                    ctx.write_kw(Keyword::KwE(KwE::BodyPeekLBracket));
                } else {
                    ctx.write_kw(Keyword::KwE(KwE::BodyLBracket));
                }
                match section {
                    Some(s) => s.encode_ctx(ctx),
                    None => (),
                }
                ctx.write_kw(Keyword::KwA(KwA::RBracket));
                match partial {
                    Some((a, b)) => {
                        ctx.write_kw(Keyword::KwA(KwA::Lt));
                        ctx.write_u32(*a);
                        ctx.write_kw(Keyword::KwA(KwA::Dot));
                        ctx.write_u32(*b);
                        ctx.write_kw(Keyword::KwA(KwA::Gt));
                    },
                    None => (),
                }
            },
            MessageDataItemName::BodyStructure => ctx.write_kw(Keyword::KwD(KwD::Bodystructure)),
            MessageDataItemName::Envelope => ctx.write_kw(Keyword::KwE(KwE::EnvelopeTok)),
            MessageDataItemName::Flags => ctx.write_kw(Keyword::KwC(KwC::Flags)),
            MessageDataItemName::InternalDate => ctx.write_kw(Keyword::KwE(KwE::Internaldate)),
            MessageDataItemName::Rfc822 => ctx.write_kw(Keyword::KwE(KwE::Rfc822)),
            MessageDataItemName::Rfc822Header => ctx.write_kw(Keyword::KwE(KwE::Rfc822Header)),
            MessageDataItemName::Rfc822Size => ctx.write_kw(Keyword::KwE(KwE::Rfc822Size)),
            MessageDataItemName::Rfc822Text => ctx.write_kw(Keyword::KwE(KwE::Rfc822Text)),
            MessageDataItemName::Uid => ctx.write_kw(Keyword::KwD(KwD::Uid)),
        }
    }
}

/// The FETCH argument: a macro, or an explicit item list, parenthesised
/// only when it holds more than one item.
#[derive(Clone, Debug, PartialEq, Eq)]
pub enum MacroOrMessageDataItemNames {
    Macro(Macro),
    MessageDataItemNames(Vec<MessageDataItemName>),
}

impl Encoder for MacroOrMessageDataItemNames {
    closed spec fn wire(&self) -> Seq<u8> {
        match self {
            MacroOrMessageDataItemNames::Macro(m) => m.wire(),
            MacroOrMessageDataItemNames::MessageDataItemNames(names) => if names@.len() == 1 {
                names@[0].wire()
            } else {
                (kb(Keyword::KwA(KwA::LParen)) + joined_wire(names@, kb(Keyword::KwA(KwA::Sp))))
                    + kb(Keyword::KwA(KwA::RParen))
            },
        }
    }

    fn encode_ctx(&self, ctx: &mut EncodeContext) {
        match self {
            MacroOrMessageDataItemNames::Macro(m) => m.encode_ctx(ctx),
            MacroOrMessageDataItemNames::MessageDataItemNames(names) => {
                if names.len() == 1 {
                    let only = &names[0];
                    only.encode_ctx(ctx);
                } else {
                    ctx.write_kw(Keyword::KwA(KwA::LParen));
                    let sep = kw_vec(Keyword::KwA(KwA::Sp));
                    join_serializable(names.as_slice(), sep.as_slice(), ctx);
                    ctx.write_kw(Keyword::KwA(KwA::RParen));
                }
            },
        }
    }
}

} // verus!
