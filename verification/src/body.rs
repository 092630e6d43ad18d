//! Body structures: the recursive MIME description a FETCH answers with
//! `BODY` or `BODYSTRUCTURE`, and the extension-data chain that may
//! follow each part.

use vstd::prelude::*;

use crate::encode::{join_serializable, joined_wire, EncodeContext, Encoder};
use crate::imapstr::{IString, NString};
use crate::kw::{kb, kw_vec, Keyword, KwA, KwB, KwC, KwD, KwE, KwF};
use crate::numfmt::dec_digits;
use crate::envelope::Envelope;

verus! {

broadcast use {
    crate::seqext::lemma_concat_assoc,
    crate::seqext::lemma_concat_empty_right,
    crate::seqext::lemma_concat_empty_left,
    crate::frag_rules::lemma_frags_extended_trans,
    crate::frag_rules::lemma_frags_extended_refl,
};

/// The fields every body part carries: parameters, id, description,
/// transfer encoding and size.
#[derive(Clone, Debug, PartialEq, Eq)]
pub struct BasicFields {
    pub parameter_list: Vec<(IString, IString)>,
    pub id: NString,
    pub description: NString,
    pub content_transfer_encoding: IString,
    pub size: u32,
}

/// What distinguishes the three body kinds; the original grammar's
/// `media-basic`, `media-message` and `media-text` rules.  The media type
/// of the basic kind is spelled `media_type` (`type` is reserved).
#[derive(Debug, PartialEq, Eq)]
pub enum SpecificFields {
    Basic { media_type: IString, subtype: IString },
    Message { envelope: Envelope, body_structure: Box<BodyStructure>, number_of_lines: u32 },
    Text { subtype: IString, number_of_lines: u32 },
}

/// One body part: the common fields plus its kind.
#[derive(Debug, PartialEq, Eq)]
pub struct Body {
    pub basic: BasicFields,
    pub specific: SpecificFields,
}

/// A whole body: a single part, or a multipart with children.
#[derive(Debug, PartialEq, Eq)]
pub enum BodyStructure {
    Single { body: Body, extension_data: Option<SinglePartExtensionData> },
    Multi { bodies: Vec<BodyStructure>, subtype: IString, extension_data: Option<MultiPartExtensionData> },
}

/// Extension data of a single part: md5, then optionally disposition,
/// language and location in a chain.
#[derive(Debug, PartialEq, Eq)]
pub struct SinglePartExtensionData {
    pub md5: NString,
    pub tail: Option<Disposition>,
}

/// Extension data of a multipart: parameters, then the same chain.
#[derive(Debug, PartialEq, Eq)]
pub struct MultiPartExtensionData {
    pub parameter_list: Vec<(IString, IString)>,
    pub tail: Option<Disposition>,
}

/// `(name (attrs))` or `NIL`, then optionally a language.
#[derive(Debug, PartialEq, Eq)]
pub struct Disposition {
    pub disposition: Option<(IString, Vec<(IString, IString)>)>,
    pub tail: Option<Language>,
}

/// A language list, then optionally a location.
#[derive(Debug, PartialEq, Eq)]
pub struct Language {
    pub language: Vec<NString>,
    pub tail: Option<Location>,
}

/// A location with any further body extensions.
#[derive(Debug, PartialEq, Eq)]
pub struct Location {
    pub location: NString,
    pub extensions: Vec<BodyExtension>,
}

/// A future-proof body extension value: a string, a number, or a list.
#[derive(Debug, PartialEq, Eq)]
pub enum BodyExtension {
    NString(NString),
    Number(u32),
    List(Vec<BodyExtension>),
}

// ---- Wire forms ---------------------------------------------------------

/// `k0 SP v0 SP k1 SP v1 ...` for attribute/value pairs.
pub closed spec fn pairs_list_wire(s: Seq<(IString, IString)>) -> Seq<u8>
    decreases s,
{
    if s.len() == 0 {
        Seq::empty()
    } else if s.len() == 1 {
        (s[0].0.wire() + kb(Keyword::KwA(KwA::Sp))) + s[0].1.wire()
    } else {
        (((s[0].0.wire() + kb(Keyword::KwA(KwA::Sp))) + s[0].1.wire()) + kb(
            Keyword::KwA(KwA::Sp),
        )) + pairs_list_wire(s.drop_first())
    }
}

/// `(k v k v ...)`, or `NIL` for an empty parameter list.
pub open spec fn param_list_bytes(s: Seq<(IString, IString)>) -> Seq<u8> {
    if s.len() == 0 {
        kb(Keyword::KwA(KwA::Nil))
    } else {
        (kb(Keyword::KwA(KwA::LParen)) + pairs_list_wire(s)) + kb(Keyword::KwA(KwA::RParen))
    }
}

/// `(l0 l1 ...)`, or `NIL` for an empty language list.
pub open spec fn language_list_bytes(s: Seq<NString>) -> Seq<u8> {
    if s.len() == 0 {
        kb(Keyword::KwA(KwA::Nil))
    } else {
        (kb(Keyword::KwA(KwA::LParen)) + joined_wire(s, kb(Keyword::KwA(KwA::Sp)))) + kb(
            Keyword::KwA(KwA::RParen),
        )
    }
}

/// The wire bytes of one body extension value.
pub closed spec fn body_extension_wire(e: BodyExtension) -> Seq<u8>
    decreases e,
{
    match e {
        BodyExtension::NString(ns) => ns.wire(),
        BodyExtension::Number(n) => dec_digits(n as nat),
        BodyExtension::List(list) => (kb(Keyword::KwA(KwA::LParen)) + body_extensions_wire(
            list@,
        )) + kb(Keyword::KwA(KwA::RParen)),
    }
}

/// Space-joined body extension values.
pub closed spec fn body_extensions_wire(s: Seq<BodyExtension>) -> Seq<u8>
    decreases s,
{
    if s.len() == 0 {
        Seq::empty()
    } else if s.len() == 1 {
        body_extension_wire(s[0])
    } else {
        (body_extension_wire(s[0]) + kb(Keyword::KwA(KwA::Sp))) + body_extensions_wire(
            s.drop_first(),
        )
    }
}

/// ` e0 e1 ...`: each extension after the location gets a leading space.
pub closed spec fn extensions_prefixed_wire(s: Seq<BodyExtension>) -> Seq<u8>
    decreases s,
{
    if s.len() == 0 {
        Seq::empty()
    } else {
        (kb(Keyword::KwA(KwA::Sp)) + body_extension_wire(s[0])) + extensions_prefixed_wire(
            s.drop_first(),
        )
    }
}

/// The wire bytes of a location and its extensions.
pub closed spec fn location_wire(l: Location) -> Seq<u8> {
    l.location.wire() + extensions_prefixed_wire(l.extensions@)
}

/// The wire bytes of a language list and its optional location.
pub closed spec fn language_wire(l: Language) -> Seq<u8> {
    language_list_bytes(l.language@) + match l.tail {
        Some(loc) => kb(Keyword::KwA(KwA::Sp)) + location_wire(loc),
        None => Seq::empty(),
    }
}

/// The wire bytes of a disposition and its optional language.
pub closed spec fn disposition_wire(d: Disposition) -> Seq<u8> {
    (match d.disposition {
        Some((name, params)) => (((kb(Keyword::KwA(KwA::LParen)) + name.wire()) + kb(
            Keyword::KwA(KwA::Sp),
        )) + param_list_bytes(params@)) + kb(Keyword::KwA(KwA::RParen)),
        None => kb(Keyword::KwA(KwA::Nil)),
    }) + match d.tail {
        Some(lang) => kb(Keyword::KwA(KwA::Sp)) + language_wire(lang),
        None => Seq::empty(),
    }
}

/// The wire bytes of single-part extension data.
pub closed spec fn single_ext_wire(e: SinglePartExtensionData) -> Seq<u8> {
    e.md5.wire() + match e.tail {
        Some(d) => kb(Keyword::KwA(KwA::Sp)) + disposition_wire(d),
        None => Seq::empty(),
    }
}

/// The wire bytes of multipart extension data.
pub closed spec fn multi_ext_wire(e: MultiPartExtensionData) -> Seq<u8> {
    param_list_bytes(e.parameter_list@) + match e.tail {
        Some(d) => kb(Keyword::KwA(KwA::Sp)) + disposition_wire(d),
        None => Seq::empty(),
    }
}

/// `"MESSAGE" "RFC822" `, the fixed media type of a message part.
pub closed spec fn message_rfc822_prefix() -> Seq<u8> {
    seq![
        34u8,
        77u8,
        69u8,
        83u8,
        83u8,
        65u8,
        71u8,
        69u8,
        34u8,
        32u8,
        34u8,
        82u8,
        70u8,
        67u8,
        56u8,
        50u8,
        50u8,
        34u8,
        32u8,
    ]
}

/// `"TEXT" `, the fixed media type of a text part.
pub closed spec fn text_prefix() -> Seq<u8> {
    seq![34u8, 84u8, 69u8, 88u8, 84u8, 34u8, 32u8]
}

/// The wire bytes of the common fields.
pub closed spec fn basic_fields_wire(b: BasicFields) -> Seq<u8> {
    ((((((((param_list_bytes(b.parameter_list@) + kb(Keyword::KwA(KwA::Sp))) + b.id.wire()) + kb(
        Keyword::KwA(KwA::Sp),
    )) + b.description.wire()) + kb(Keyword::KwA(KwA::Sp))) + b.content_transfer_encoding.wire())
        + kb(Keyword::KwA(KwA::Sp))) + dec_digits(b.size as nat))
}

/// The wire bytes of a basic part's kind: media type, subtype, fields.
pub closed spec fn basic_kind_wire(media_type: IString, subtype: IString, basic: BasicFields) -> Seq<u8> {
    (((media_type.wire() + kb(Keyword::KwA(KwA::Sp))) + subtype.wire()) + kb(
        Keyword::KwA(KwA::Sp),
    )) + basic_fields_wire(basic)
}

/// The wire bytes of a message part's kind: the fixed media type, the
/// fields, the inner envelope and body, and the line count.
pub closed spec fn message_kind_wire(
    basic: BasicFields,
    envelope: Envelope,
    body_structure: BodyStructure,
    number_of_lines: u32,
) -> Seq<u8>
    decreases body_structure, 1int,
{
    ((((((message_rfc822_prefix() + basic_fields_wire(basic)) + kb(Keyword::KwA(KwA::Sp)))
        + envelope.wire()) + kb(Keyword::KwA(KwA::Sp))) + body_structure_wire(body_structure))
        + kb(Keyword::KwA(KwA::Sp))) + dec_digits(number_of_lines as nat)
}

/// The wire bytes of a text part's kind.
pub closed spec fn text_kind_wire(subtype: IString, basic: BasicFields, number_of_lines: u32) -> Seq<u8> {
    ((((text_prefix() + subtype.wire()) + kb(Keyword::KwA(KwA::Sp))) + basic_fields_wire(basic))
        + kb(Keyword::KwA(KwA::Sp))) + dec_digits(number_of_lines as nat)
}

/// The wire bytes of one body part.
pub closed spec fn body_wire(b: Body) -> Seq<u8>
    decreases b, 2int,
{
    match b.specific {
        SpecificFields::Basic { media_type, subtype } => basic_kind_wire(
            media_type,
            subtype,
            b.basic,
        ),
        SpecificFields::Message { envelope, body_structure, number_of_lines } => message_kind_wire(
            b.basic,
            envelope,
            *body_structure,
            number_of_lines,
        ),
        SpecificFields::Text { subtype, number_of_lines } => text_kind_wire(
            subtype,
            b.basic,
            number_of_lines,
        ),
    }
}

/// What stands between the parentheses of a single-part structure.
pub closed spec fn single_inner_wire(body: Body, extension_data: Option<SinglePartExtensionData>) -> Seq<u8>
    decreases body, 3int,
{
    body_wire(body) + match extension_data {
        Some(e) => kb(Keyword::KwA(KwA::Sp)) + single_ext_wire(e),
        None => Seq::empty(),
    }
}

/// What stands between the parentheses of a multipart structure.
pub closed spec fn multi_inner_wire(
    bodies: Seq<BodyStructure>,
    subtype: IString,
    extension_data: Option<MultiPartExtensionData>,
) -> Seq<u8>
    decreases bodies, 3int,
{
    ((bodies_wire(bodies) + kb(Keyword::KwA(KwA::Sp))) + subtype.wire()) + match extension_data {
        Some(e) => kb(Keyword::KwA(KwA::Sp)) + multi_ext_wire(e),
        None => Seq::empty(),
    }
}

/// The wire bytes of a whole body structure, parenthesised.
pub closed spec fn body_structure_wire(b: BodyStructure) -> Seq<u8>
    decreases b, 0int,
{
    match b {
        BodyStructure::Single { body, extension_data } => (kb(Keyword::KwA(KwA::LParen))
            + single_inner_wire(body, extension_data)) + kb(Keyword::KwA(KwA::RParen)),
        BodyStructure::Multi { bodies, subtype, extension_data } => (kb(Keyword::KwA(KwA::LParen))
            + multi_inner_wire(bodies@, subtype, extension_data)) + kb(Keyword::KwA(KwA::RParen)),
    }
}

/// Child bodies back to back, with no separator.
pub closed spec fn bodies_wire(s: Seq<BodyStructure>) -> Seq<u8>
    decreases s, 0int,
{
    if s.len() == 0 {
        Seq::empty()
    } else {
        body_structure_wire(s[0]) + bodies_wire(s.drop_first())
    }
}

// ---- Writers ------------------------------------------------------------

/// Write attribute/value pairs, space-separated.
fn write_pairs(pairs: &[(IString, IString)], ctx: &mut EncodeContext)
    ensures
        final(ctx).wire() == old(ctx).wire() + pairs_list_wire(pairs@),
        crate::frag_rules::frags_extended(old(ctx).items@, final(ctx).items@),
    decreases pairs@.len(),
{
    if pairs.len() == 0 {
        proof {
            crate::frag_rules::lemma_frags_extended_refl(ctx.items@);
        }
    } else {
        let first = vstd::slice::slice_index_get(pairs, 0);
        first.0.encode_ctx(ctx);
        let ghost m1 = ctx.items@;
        ctx.write_kw(Keyword::KwA(KwA::Sp));
        first.1.encode_ctx(ctx);
        if pairs.len() > 1 {
            let ghost m2 = ctx.items@;
            ctx.write_kw(Keyword::KwA(KwA::Sp));
            let rest = vstd::slice::slice_subrange(pairs, 1, pairs.len());
            write_pairs(rest, ctx);
            proof {
                assert(rest@ =~= pairs@.drop_first());
                crate::frag_rules::lemma_frags_extended_trans(m1, m2, ctx.items@);
                crate::frag_rules::lemma_frags_extended_trans(old(ctx).items@, m1, ctx.items@);
            }
        } else {
            proof {
                crate::frag_rules::lemma_frags_extended_trans(old(ctx).items@, m1, ctx.items@);
            }
        }
    }
}

/// Write `(k v ...)`, or `NIL` when the list is empty.
fn write_param_list(pairs: &Vec<(IString, IString)>, ctx: &mut EncodeContext)
    ensures
        final(ctx).wire() == old(ctx).wire() + param_list_bytes(pairs@),
        crate::frag_rules::frags_extended(old(ctx).items@, final(ctx).items@),
{
    if pairs.is_empty() {
        ctx.write_kw(Keyword::KwA(KwA::Nil));
    } else {
        ctx.write_kw(Keyword::KwA(KwA::LParen));
        write_pairs(pairs.as_slice(), ctx);
        ctx.write_kw(Keyword::KwA(KwA::RParen));
    }
}

impl BodyExtension {
    /// Write one extension value; recursive on its structure.
    fn write_ctx(&self, ctx: &mut EncodeContext)
        ensures
            final(ctx).wire() == old(ctx).wire() + body_extension_wire(*self),
            crate::frag_rules::frags_extended(old(ctx).items@, final(ctx).items@),
        decreases *self,
    {
        match self {
            BodyExtension::NString(ns) => ns.encode_ctx(ctx),
            BodyExtension::Number(n) => ctx.write_u32(*n),
            BodyExtension::List(list) => {
                ctx.write_kw(Keyword::KwA(KwA::LParen));
                Self::write_list(list.as_slice(), ctx);
                ctx.write_kw(Keyword::KwA(KwA::RParen));
            },
        }
    }

    /// Write space-joined extension values.
    fn write_list(exts: &[BodyExtension], ctx: &mut EncodeContext)
        ensures
            final(ctx).wire() == old(ctx).wire() + body_extensions_wire(exts@),
            crate::frag_rules::frags_extended(old(ctx).items@, final(ctx).items@),
        decreases exts@,
    {
        if exts.len() == 0 {
            proof {
                crate::frag_rules::lemma_frags_extended_refl(ctx.items@);
            }
        } else {
            let first = vstd::slice::slice_index_get(exts, 0);
            first.write_ctx(ctx);
            if exts.len() > 1 {
                let ghost mid = ctx.items@;
                ctx.write_kw(Keyword::KwA(KwA::Sp));
                let rest = vstd::slice::slice_subrange(exts, 1, exts.len());
                Self::write_list(rest, ctx);
                proof {
                    assert(rest@ =~= exts@.drop_first());
                    crate::frag_rules::lemma_frags_extended_trans(
                        old(ctx).items@,
                        mid,
                        ctx.items@,
                    );
                }
            }
        }
    }

    /// Write ` e0 e1 ...`: every value with a leading space.
    fn write_prefixed(exts: &[BodyExtension], ctx: &mut EncodeContext)
        ensures
            final(ctx).wire() == old(ctx).wire() + extensions_prefixed_wire(exts@),
            crate::frag_rules::frags_extended(old(ctx).items@, final(ctx).items@),
        decreases exts@,
    {
        if exts.len() == 0 {
            proof {
                crate::frag_rules::lemma_frags_extended_refl(ctx.items@);
            }
        } else {
            ctx.write_kw(Keyword::KwA(KwA::Sp));
            let first = vstd::slice::slice_index_get(exts, 0);
            first.write_ctx(ctx);
            let ghost mid = ctx.items@;
            let rest = vstd::slice::slice_subrange(exts, 1, exts.len());
            Self::write_prefixed(rest, ctx);
            proof {
                assert(rest@ =~= exts@.drop_first());
                crate::frag_rules::lemma_frags_extended_trans(old(ctx).items@, mid, ctx.items@);
            }
        }
    }
}

impl Encoder for BodyExtension {
    closed spec fn wire(&self) -> Seq<u8> {
        body_extension_wire(*self)
    }

    fn encode_ctx(&self, ctx: &mut EncodeContext) {
        self.write_ctx(ctx);
    }
}

impl Location {
    /// Write this value; the real work of the trait impl.
    fn write_ctx(&self, ctx: &mut EncodeContext)
        ensures
            final(ctx).wire() == old(ctx).wire() + location_wire(*self),
            crate::frag_rules::frags_extended(old(ctx).items@, final(ctx).items@),
    {
        self.location.encode_ctx(ctx);
        let ghost mid = ctx.items@;
        BodyExtension::write_prefixed(self.extensions.as_slice(), ctx);
        proof {
            crate::frag_rules::lemma_frags_extended_trans(old(ctx).items@, mid, ctx.items@);
        }
    }
}

impl Encoder for Location {
    closed spec fn wire(&self) -> Seq<u8> {
        location_wire(*self)
    }

    fn encode_ctx(&self, ctx: &mut EncodeContext) {
        self.write_ctx(ctx);
        proof {
            assert(self.wire() == location_wire(*self));
        }
    }
}

impl Language {
    /// Write this value; the real work of the trait impl.
    fn write_ctx(&self, ctx: &mut EncodeContext)
        ensures
            final(ctx).wire() == old(ctx).wire() + language_wire(*self),
            crate::frag_rules::frags_extended(old(ctx).items@, final(ctx).items@),
    {
        if self.language.is_empty() {
            ctx.write_kw(Keyword::KwA(KwA::Nil));
        } else {
            ctx.write_kw(Keyword::KwA(KwA::LParen));
            let sep = kw_vec(Keyword::KwA(KwA::Sp));
            join_serializable(self.language.as_slice(), sep.as_slice(), ctx);
            ctx.write_kw(Keyword::KwA(KwA::RParen));
        }
        let ghost mid = ctx.items@;
        match &self.tail {
            Some(loc) => {
                ctx.write_kw(Keyword::KwA(KwA::Sp));
                loc.encode_ctx(ctx);
            },
            None => (),
        }
        proof {
            crate::frag_rules::lemma_frags_extended_refl(mid);
            crate::frag_rules::lemma_frags_extended_trans(old(ctx).items@, mid, ctx.items@);
        }
    }
}

impl Encoder for Language {
    closed spec fn wire(&self) -> Seq<u8> {
        language_wire(*self)
    }

    fn encode_ctx(&self, ctx: &mut EncodeContext) {
        self.write_ctx(ctx);
        proof {
            assert(self.wire() == language_wire(*self));
        }
    }
}

impl Disposition {
    /// Write this value; the real work of the trait impl.
    fn write_ctx(&self, ctx: &mut EncodeContext)
        ensures
            final(ctx).wire() == old(ctx).wire() + disposition_wire(*self),
            crate::frag_rules::frags_extended(old(ctx).items@, final(ctx).items@),
    {
        match &self.disposition {
            Some((name, params)) => {
                ctx.write_kw(Keyword::KwA(KwA::LParen));
                name.encode_ctx(ctx);
                let ghost m1 = ctx.items@;
                ctx.write_kw(Keyword::KwA(KwA::Sp));
                write_param_list(params, ctx);
                ctx.write_kw(Keyword::KwA(KwA::RParen));
                proof {
                    crate::frag_rules::lemma_frags_extended_trans(
                        old(ctx).items@,
                        m1,
                        ctx.items@,
                    );
                }
            },
            None => ctx.write_kw(Keyword::KwA(KwA::Nil)),
        }
        let ghost mid = ctx.items@;
        match &self.tail {
            Some(lang) => {
                ctx.write_kw(Keyword::KwA(KwA::Sp));
                lang.encode_ctx(ctx);
            },
            None => (),
        }
        proof {
            crate::frag_rules::lemma_frags_extended_refl(mid);
            crate::frag_rules::lemma_frags_extended_trans(old(ctx).items@, mid, ctx.items@);
        }
    }
}

impl Encoder for Disposition {
    closed spec fn wire(&self) -> Seq<u8> {
        disposition_wire(*self)
    }

    fn encode_ctx(&self, ctx: &mut EncodeContext) {
        self.write_ctx(ctx);
        proof {
            assert(self.wire() == disposition_wire(*self));
        }
    }
}

impl SinglePartExtensionData {
    /// Write this value; the real work of the trait impl.
    fn write_ctx(&self, ctx: &mut EncodeContext)
        ensures
            final(ctx).wire() == old(ctx).wire() + single_ext_wire(*self),
            crate::frag_rules::frags_extended(old(ctx).items@, final(ctx).items@),
    {
        self.md5.encode_ctx(ctx);
        let ghost mid = ctx.items@;
        match &self.tail {
            Some(d) => {
                ctx.write_kw(Keyword::KwA(KwA::Sp));
                d.encode_ctx(ctx);
            },
            None => (),
        }
        proof {
            crate::frag_rules::lemma_frags_extended_refl(mid);
            crate::frag_rules::lemma_frags_extended_trans(old(ctx).items@, mid, ctx.items@);
        }
    }
}

impl Encoder for SinglePartExtensionData {
    closed spec fn wire(&self) -> Seq<u8> {
        single_ext_wire(*self)
    }

    fn encode_ctx(&self, ctx: &mut EncodeContext) {
        self.write_ctx(ctx);
        proof {
            assert(self.wire() == single_ext_wire(*self));
        }
    }
}

impl MultiPartExtensionData {
    /// Write this value; the real work of the trait impl.
    fn write_ctx(&self, ctx: &mut EncodeContext)
        ensures
            final(ctx).wire() == old(ctx).wire() + multi_ext_wire(*self),
            crate::frag_rules::frags_extended(old(ctx).items@, final(ctx).items@),
    {
        write_param_list(&self.parameter_list, ctx);
        let ghost mid = ctx.items@;
        match &self.tail {
            Some(d) => {
                ctx.write_kw(Keyword::KwA(KwA::Sp));
                d.encode_ctx(ctx);
            },
            None => (),
        }
        proof {
            crate::frag_rules::lemma_frags_extended_refl(mid);
            crate::frag_rules::lemma_frags_extended_trans(old(ctx).items@, mid, ctx.items@);
        }
    }
}

impl Encoder for MultiPartExtensionData {
    closed spec fn wire(&self) -> Seq<u8> {
        multi_ext_wire(*self)
    }

    fn encode_ctx(&self, ctx: &mut EncodeContext) {
        self.write_ctx(ctx);
        proof {
            assert(self.wire() == multi_ext_wire(*self));
        }
    }
}

impl BasicFields {
    /// Write this value; the real work of the trait impl.
    fn write_ctx(&self, ctx: &mut EncodeContext)
        ensures
            final(ctx).wire() == old(ctx).wire() + basic_fields_wire(*self),
            crate::frag_rules::frags_extended(old(ctx).items@, final(ctx).items@),
    {
        write_param_list(&self.parameter_list, ctx);
        let ghost m1 = ctx.items@;
        ctx.write_kw(Keyword::KwA(KwA::Sp));
        self.id.encode_ctx(ctx);
        let ghost m2 = ctx.items@;
        ctx.write_kw(Keyword::KwA(KwA::Sp));
        self.description.encode_ctx(ctx);
        let ghost m3 = ctx.items@;
        ctx.write_kw(Keyword::KwA(KwA::Sp));
        self.content_transfer_encoding.encode_ctx(ctx);
        ctx.write_kw(Keyword::KwA(KwA::Sp));
        ctx.write_u32(self.size);
        proof {
            crate::frag_rules::lemma_frags_extended_trans(m2, m3, ctx.items@);
            crate::frag_rules::lemma_frags_extended_trans(m1, m2, ctx.items@);
            crate::frag_rules::lemma_frags_extended_trans(old(ctx).items@, m1, ctx.items@);
        }
    }
}

impl Encoder for BasicFields {
    closed spec fn wire(&self) -> Seq<u8> {
        basic_fields_wire(*self)
    }

    fn encode_ctx(&self, ctx: &mut EncodeContext) {
        self.write_ctx(ctx);
        proof {
            assert(self.wire() == basic_fields_wire(*self));
        }
    }
}

impl Body {
    /// Write the kind-specific prefix of a basic part with the fields.
    fn write_basic_kind(
        media_type: &IString,
        subtype: &IString,
        basic: &BasicFields,
        ctx: &mut EncodeContext,
    )
        ensures
            final(ctx).wire() == old(ctx).wire() + basic_kind_wire(*media_type, *subtype, *basic),
            crate::frag_rules::frags_extended(old(ctx).items@, final(ctx).items@),
    {
        media_type.encode_ctx(ctx);
        let ghost m1 = ctx.items@;
        ctx.write_kw(Keyword::KwA(KwA::Sp));
        subtype.encode_ctx(ctx);
        let ghost m2 = ctx.items@;
        ctx.write_kw(Keyword::KwA(KwA::Sp));
        basic.encode_ctx(ctx);
        proof {
            assert(basic.wire() == basic_fields_wire(*basic));
            crate::frag_rules::lemma_frags_extended_trans(m1, m2, ctx.items@);
            crate::frag_rules::lemma_frags_extended_trans(old(ctx).items@, m1, ctx.items@);
        }
    }

    /// Write a message part's kind; recursive through the inner body.
    #[verifier::spinoff_prover]
    #[verifier::rlimit(100)]
    fn write_message_kind(
        basic: &BasicFields,
        envelope: &Envelope,
        body_structure: &BodyStructure,
        number_of_lines: u32,
        ctx: &mut EncodeContext,
    )
        ensures
            final(ctx).wire() == old(ctx).wire() + message_kind_wire(
                *basic,
                *envelope,
                *body_structure,
                number_of_lines,
            ),
            crate::frag_rules::frags_extended(old(ctx).items@, final(ctx).items@),
        decreases *body_structure, 1int,
    {
        let prefix: [u8; 19] = [
            34,
            77,
            69,
            83,
            83,
            65,
            71,
            69,
            34,
            32,
            34,
            82,
            70,
            67,
            56,
            50,
            50,
            34,
            32,
        ];
        proof {
            assert(prefix@ =~= message_rfc822_prefix());
        }
        ctx.write_bytes(prefix.as_slice());
        basic.encode_ctx(ctx);
        let ghost m1 = ctx.items@;
        ctx.write_kw(Keyword::KwA(KwA::Sp));
        envelope.encode_ctx(ctx);
        let ghost m2 = ctx.items@;
        ctx.write_kw(Keyword::KwA(KwA::Sp));
        body_structure.write_ctx(ctx);
        ctx.write_kw(Keyword::KwA(KwA::Sp));
        ctx.write_u32(number_of_lines);
        proof {
            assert(basic.wire() == basic_fields_wire(*basic));
            crate::frag_rules::lemma_frags_extended_trans(m1, m2, ctx.items@);
            crate::frag_rules::lemma_frags_extended_trans(old(ctx).items@, m1, ctx.items@);
        }
    }

    /// Write a text part's kind with the fields and line count.
    fn write_text_kind(
        subtype: &IString,
        basic: &BasicFields,
        number_of_lines: u32,
        ctx: &mut EncodeContext,
    )
        ensures
            final(ctx).wire() == old(ctx).wire() + text_kind_wire(
                *subtype,
                *basic,
                number_of_lines,
            ),
            crate::frag_rules::frags_extended(old(ctx).items@, final(ctx).items@),
    {
        let prefix: [u8; 7] = [34, 84, 69, 88, 84, 34, 32];
        proof {
            assert(prefix@ =~= text_prefix());
        }
        ctx.write_bytes(prefix.as_slice());
        subtype.encode_ctx(ctx);
        let ghost m1 = ctx.items@;
        ctx.write_kw(Keyword::KwA(KwA::Sp));
        basic.encode_ctx(ctx);
        ctx.write_kw(Keyword::KwA(KwA::Sp));
        ctx.write_u32(number_of_lines);
        proof {
            assert(basic.wire() == basic_fields_wire(*basic));
            crate::frag_rules::lemma_frags_extended_trans(old(ctx).items@, m1, ctx.items@);
        }
    }

    /// Write one body part; mutually recursive with the whole structure.
    #[verifier::spinoff_prover]
    #[verifier::rlimit(100)]
    fn write_ctx(&self, ctx: &mut EncodeContext)
        ensures
            final(ctx).wire() == old(ctx).wire() + body_wire(*self),
            crate::frag_rules::frags_extended(old(ctx).items@, final(ctx).items@),
        decreases *self, 2int,
    {
        match &self.specific {
            SpecificFields::Basic { media_type, subtype } => {
                Self::write_basic_kind(media_type, subtype, &self.basic, ctx);
            },
            SpecificFields::Message { envelope, body_structure, number_of_lines } => {
                Self::write_message_kind(
                    &self.basic,
                    envelope,
                    body_structure,
                    *number_of_lines,
                    ctx,
                );
            },
            SpecificFields::Text { subtype, number_of_lines } => {
                Self::write_text_kind(subtype, &self.basic, *number_of_lines, ctx);
            },
        }
    }
}

impl Encoder for Body {
    closed spec fn wire(&self) -> Seq<u8> {
        body_wire(*self)
    }

    fn encode_ctx(&self, ctx: &mut EncodeContext) {
        self.write_ctx(ctx);
    }
}

impl BodyStructure {
    /// Write the inside of a single-part structure.
    fn write_single_inner(
        body: &Body,
        extension_data: &Option<SinglePartExtensionData>,
        ctx: &mut EncodeContext,
    )
        ensures
            final(ctx).wire() == old(ctx).wire() + single_inner_wire(*body, *extension_data),
            crate::frag_rules::frags_extended(old(ctx).items@, final(ctx).items@),
        decreases *body, 3int,
    {
        body.write_ctx(ctx);
        let ghost mid = ctx.items@;
        match extension_data {
            Some(e) => {
                ctx.write_kw(Keyword::KwA(KwA::Sp));
                e.write_ctx(ctx);
            },
            None => (),
        }
        proof {
            crate::frag_rules::lemma_frags_extended_refl(mid);
            crate::frag_rules::lemma_frags_extended_trans(old(ctx).items@, mid, ctx.items@);
        }
    }

    /// Write the inside of a multipart structure.
    fn write_multi_inner(
        bodies: &Vec<BodyStructure>,
        subtype: &IString,
        extension_data: &Option<MultiPartExtensionData>,
        ctx: &mut EncodeContext,
    )
        ensures
            final(ctx).wire() == old(ctx).wire() + multi_inner_wire(
                bodies@,
                *subtype,
                *extension_data,
            ),
            crate::frag_rules::frags_extended(old(ctx).items@, final(ctx).items@),
        decreases bodies@, 3int,
    {
        Self::write_bodies(bodies.as_slice(), ctx);
        let ghost m1 = ctx.items@;
        ctx.write_kw(Keyword::KwA(KwA::Sp));
        subtype.encode_ctx(ctx);
        let ghost m2 = ctx.items@;
        match extension_data {
            Some(e) => {
                ctx.write_kw(Keyword::KwA(KwA::Sp));
                e.write_ctx(ctx);
            },
            None => (),
        }
        proof {
            crate::frag_rules::lemma_frags_extended_refl(m2);
            crate::frag_rules::lemma_frags_extended_trans(m1, m2, ctx.items@);
            crate::frag_rules::lemma_frags_extended_trans(old(ctx).items@, m1, ctx.items@);
        }
    }

    /// Write a whole body structure; recursive on its parts.
    fn write_ctx(&self, ctx: &mut EncodeContext)
        ensures
            final(ctx).wire() == old(ctx).wire() + body_structure_wire(*self),
            crate::frag_rules::frags_extended(old(ctx).items@, final(ctx).items@),
        decreases *self, 0int,
    {
        ctx.write_kw(Keyword::KwA(KwA::LParen));
        match self {
            BodyStructure::Single { body, extension_data } => {
                Self::write_single_inner(body, extension_data, ctx);
            },
            BodyStructure::Multi { bodies, subtype, extension_data } => {
                Self::write_multi_inner(bodies, subtype, extension_data, ctx);
            },
        }
        ctx.write_kw(Keyword::KwA(KwA::RParen));
    }

    /// Write child bodies back to back.
    fn write_bodies(bodies: &[BodyStructure], ctx: &mut EncodeContext)
        ensures
            final(ctx).wire() == old(ctx).wire() + bodies_wire(bodies@),
            crate::frag_rules::frags_extended(old(ctx).items@, final(ctx).items@),
        decreases bodies@, 0int,
    {
        if bodies.len() == 0 {
            proof {
                crate::frag_rules::lemma_frags_extended_refl(ctx.items@);
            }
        } else {
            let first = vstd::slice::slice_index_get(bodies, 0);
            first.write_ctx(ctx);
            let ghost mid = ctx.items@;
            let rest = vstd::slice::slice_subrange(bodies, 1, bodies.len());
            Self::write_bodies(rest, ctx);
            proof {
                assert(rest@ =~= bodies@.drop_first());
                crate::frag_rules::lemma_frags_extended_trans(old(ctx).items@, mid, ctx.items@);
            }
        }
    }
}

impl Encoder for BodyStructure {
    closed spec fn wire(&self) -> Seq<u8> {
        body_structure_wire(*self)
    }

    fn encode_ctx(&self, ctx: &mut EncodeContext) {
        self.write_ctx(ctx);
    }
}

} // verus!
