//! Server responses: greetings, status lines, data responses and
//! continuation requests.

use vstd::prelude::*;

use crate::body::BodyStructure;
use crate::envelope::{Address, Envelope};
use crate::datetime::DateTime;
use crate::encode::{base64_bytes, base64_encode, crlf, join_serializable, joined_wire, EncodeContext, Encoder};
use crate::extensions::{Capability, QuotaGet, QuotaRoot};
use crate::fetch::{section_opt_bytes, Section};
use crate::flag::{Flag, FlagFetch, FlagNameAttribute, FlagPerm};
use crate::imapstr::{Charset, NString, QuotedChar, Tag, Text};
use crate::kw::{kb, kw_vec, Keyword, KwA, KwB, KwC, KwD, KwE, KwF};
use crate::mailbox::Mailbox;
use crate::numfmt::dec_digits;
use crate::status_items::StatusDataItem;

verus! {

broadcast use {
    crate::seqext::lemma_concat_assoc,
    crate::seqext::lemma_concat_empty_right,
    crate::seqext::lemma_concat_empty_left,
    crate::frag_rules::lemma_frags_extended_trans,
    crate::frag_rules::lemma_frags_extended_refl,
};

/// How a greeting opens the session.
#[derive(Clone, Copy, Debug, PartialEq, Eq)]
pub enum GreetingKind {
    Okay,
    PreAuth,
    Bye,
}

impl Encoder for GreetingKind {
    closed spec fn wire(&self) -> Seq<u8> {
        match self {
            GreetingKind::Okay => kb(Keyword::KwE(KwE::StatusOk)),
            GreetingKind::PreAuth => kb(Keyword::KwE(KwE::Preauth)),
            GreetingKind::Bye => kb(Keyword::KwE(KwE::Bye)),
        }
    }

    fn encode_ctx(&self, ctx: &mut EncodeContext) {
        match self {
            GreetingKind::Okay => ctx.write_kw(Keyword::KwE(KwE::StatusOk)),
            GreetingKind::PreAuth => ctx.write_kw(Keyword::KwE(KwE::Preauth)),
            GreetingKind::Bye => ctx.write_kw(Keyword::KwE(KwE::Bye)),
        }
    }
}

/// A bracketed response code inside a status line or greeting.
#[derive(Clone, Debug, PartialEq, Eq)]
pub enum Code {
    Alert,
    BadCharset { allowed: Vec<Charset> },
    Capability(Vec<Capability>),
    Parse,
    PermanentFlags(Vec<FlagPerm>),
    ReadOnly,
    ReadWrite,
    TryCreate,
    UidNext(u32),
    UidValidity(u32),
    Unseen(u32),
    Referral(Text),
    CompressionActive,
    OverQuota,
    TooBig,
    Other(CodeOther),
}

/// An unrecognised response code, carried as raw text.
#[derive(Clone, Debug, PartialEq, Eq)]
pub struct CodeOther(pub Text);

impl Encoder for CodeOther {
    closed spec fn wire(&self) -> Seq<u8> {
        self.0.wire()
    }

    fn encode_ctx(&self, ctx: &mut EncodeContext) {
        self.0.encode_ctx(ctx);
    }
}

impl Encoder for Code {
    closed spec fn wire(&self) -> Seq<u8> {
        match self {
            Code::Alert => kb(Keyword::KwE(KwE::Alert)),
            Code::BadCharset { allowed } => if allowed@.len() == 0 {
                kb(Keyword::KwE(KwE::Badcharset))
            } else {
                (((kb(Keyword::KwE(KwE::Badcharset)) + kb(Keyword::KwA(KwA::Sp))) + kb(
                    Keyword::KwA(KwA::LParen),
                )) + joined_wire(allowed@, kb(Keyword::KwA(KwA::Sp)))) + kb(
                    Keyword::KwA(KwA::RParen),
                )
            },
            Code::Capability(caps) => (kb(Keyword::KwA(KwA::Capability)) + kb(
                Keyword::KwA(KwA::Sp),
            )) + joined_wire(caps@, kb(Keyword::KwA(KwA::Sp))),
            Code::Parse => kb(Keyword::KwE(KwE::ParseTok)),
            Code::PermanentFlags(flags) => (kb(Keyword::KwE(KwE::Permanentflags)) + joined_wire(
                flags@,
                kb(Keyword::KwA(KwA::Sp)),
            )) + kb(Keyword::KwA(KwA::RParen)),
            Code::ReadOnly => kb(Keyword::KwE(KwE::ReadOnly)),
            Code::ReadWrite => kb(Keyword::KwF(KwF::ReadWrite)),
            Code::TryCreate => kb(Keyword::KwF(KwF::Trycreate)),
            Code::UidNext(n) => (kb(Keyword::KwC(KwC::Uidnext)) + kb(Keyword::KwA(KwA::Sp)))
                + dec_digits(*n as nat),
            Code::UidValidity(n) => (kb(Keyword::KwC(KwC::Uidvalidity)) + kb(
                Keyword::KwA(KwA::Sp),
            )) + dec_digits(*n as nat),
            Code::Unseen(n) => (kb(Keyword::KwC(KwC::Unseen)) + kb(Keyword::KwA(KwA::Sp)))
                + dec_digits(*n as nat),
            Code::Referral(url) => kb(Keyword::KwF(KwF::ReferralSp)) + url.wire(),
            Code::CompressionActive => kb(Keyword::KwF(KwF::Compressionactive)),
            Code::OverQuota => kb(Keyword::KwF(KwF::Overquota)),
            Code::TooBig => kb(Keyword::KwF(KwF::Toobig)),
            Code::Other(other) => other.wire(),
        }
    }

    fn encode_ctx(&self, ctx: &mut EncodeContext) {
        match self {
            Code::Alert => ctx.write_kw(Keyword::KwE(KwE::Alert)),
            Code::BadCharset { allowed } => {
                if allowed.is_empty() {
                    ctx.write_kw(Keyword::KwE(KwE::Badcharset));
                } else {
                    ctx.write_kw(Keyword::KwE(KwE::Badcharset));
                    ctx.write_kw(Keyword::KwA(KwA::Sp));
                    ctx.write_kw(Keyword::KwA(KwA::LParen));
                    let sep = kw_vec(Keyword::KwA(KwA::Sp));
                    join_serializable(allowed.as_slice(), sep.as_slice(), ctx);
                    ctx.write_kw(Keyword::KwA(KwA::RParen));
                }
            },
            Code::Capability(caps) => {
                ctx.write_kw(Keyword::KwA(KwA::Capability));
                ctx.write_kw(Keyword::KwA(KwA::Sp));
                let sep = kw_vec(Keyword::KwA(KwA::Sp));
                join_serializable(caps.as_slice(), sep.as_slice(), ctx);
            },
            Code::Parse => ctx.write_kw(Keyword::KwE(KwE::ParseTok)),
            Code::PermanentFlags(flags) => {
                ctx.write_kw(Keyword::KwE(KwE::Permanentflags));
                let sep = kw_vec(Keyword::KwA(KwA::Sp));
                join_serializable(flags.as_slice(), sep.as_slice(), ctx);
                ctx.write_kw(Keyword::KwA(KwA::RParen));
            },
            Code::ReadOnly => ctx.write_kw(Keyword::KwE(KwE::ReadOnly)),
            Code::ReadWrite => ctx.write_kw(Keyword::KwF(KwF::ReadWrite)),
            Code::TryCreate => ctx.write_kw(Keyword::KwF(KwF::Trycreate)),
            Code::UidNext(n) => {
                ctx.write_kw(Keyword::KwC(KwC::Uidnext));
                ctx.write_kw(Keyword::KwA(KwA::Sp));
                ctx.write_u32(*n);
            },
            Code::UidValidity(n) => {
                ctx.write_kw(Keyword::KwC(KwC::Uidvalidity));
                ctx.write_kw(Keyword::KwA(KwA::Sp));
                ctx.write_u32(*n);
            },
            Code::Unseen(n) => {
                ctx.write_kw(Keyword::KwC(KwC::Unseen));
                ctx.write_kw(Keyword::KwA(KwA::Sp));
                ctx.write_u32(*n);
            },
            Code::Referral(url) => {
                ctx.write_kw(Keyword::KwF(KwF::ReferralSp));
                url.encode_ctx(ctx);
            },
            Code::CompressionActive => ctx.write_kw(Keyword::KwF(KwF::Compressionactive)),
            Code::OverQuota => ctx.write_kw(Keyword::KwF(KwF::Overquota)),
            Code::TooBig => ctx.write_kw(Keyword::KwF(KwF::Toobig)),
            Code::Other(other) => other.encode_ctx(ctx),
        }
    }
}

/// `[code] ` when a code is present, nothing otherwise.
pub open spec fn code_bytes(code: Option<Code>) -> Seq<u8> {
    match code {
        Some(c) => ((kb(Keyword::KwA(KwA::LBracket)) + c.wire()) + kb(
            Keyword::KwA(KwA::RBracket),
        )) + kb(Keyword::KwA(KwA::Sp)),
        None => Seq::empty(),
    }
}

fn write_code(code: &Option<Code>, ctx: &mut EncodeContext)
    ensures
        final(ctx).wire() == old(ctx).wire() + code_bytes(*code),
        crate::frag_rules::frags_extended(old(ctx).items@, final(ctx).items@),
{
    match code {
        Some(c) => {
            ctx.write_kw(Keyword::KwA(KwA::LBracket));
            c.encode_ctx(ctx);
            ctx.write_kw(Keyword::KwA(KwA::RBracket));
            ctx.write_kw(Keyword::KwA(KwA::Sp));
        },
        None => {
            proof {
                crate::frag_rules::lemma_frags_extended_refl(ctx.items@);
            }
        },
    }
}

/// The server's first line of a session.
#[derive(Clone, Debug, PartialEq, Eq)]
pub struct Greeting {
    pub kind: GreetingKind,
    pub code: Option<Code>,
    pub text: Text,
}

impl Encoder for Greeting {
    closed spec fn wire(&self) -> Seq<u8> {
        ((((kb(Keyword::KwA(KwA::StarSp)) + self.kind.wire()) + kb(Keyword::KwA(KwA::Sp)))
            + code_bytes(self.code)) + self.text.wire()) + crlf()
    }

    fn encode_ctx(&self, ctx: &mut EncodeContext) {
        ctx.write_kw(Keyword::KwA(KwA::StarSp));
        self.kind.encode_ctx(ctx);
        let ghost mid = ctx.items@;
        ctx.write_kw(Keyword::KwA(KwA::Sp));
        write_code(&self.code, ctx);
        let ghost mid2 = ctx.items@;
        self.text.encode_ctx(ctx);
        ctx.write_crlf();
        proof {
            crate::frag_rules::lemma_frags_extended_trans(mid, mid2, ctx.items@);
            crate::frag_rules::lemma_frags_extended_trans(old(ctx).items@, mid, ctx.items@);
        }
    }
}

/// A tagged or untagged status response.
#[derive(Clone, Debug, PartialEq, Eq)]
pub enum Status {
    Okay { tag: Option<Tag>, code: Option<Code>, text: Text },
    No { tag: Option<Tag>, code: Option<Code>, text: Text },
    Bad { tag: Option<Tag>, code: Option<Code>, text: Text },
    Bye { code: Option<Code>, text: Text },
}

/// The tag, or `*` for an untagged status.
pub open spec fn tag_bytes(tag: Option<Tag>) -> Seq<u8> {
    match tag {
        Some(t) => t.wire(),
        None => kb(Keyword::KwA(KwA::Star)),
    }
}

/// `TAG|* KIND [CODE] text CRLF`.
pub open spec fn status_line(tag: Option<Tag>, kind: Seq<u8>, code: Option<Code>, text: Text) -> Seq<u8> {
    (((((tag_bytes(tag) + kb(Keyword::KwA(KwA::Sp))) + kind) + kb(Keyword::KwA(KwA::Sp)))
        + code_bytes(code)) + text.wire()) + crlf()
}

fn write_status_line(
    tag: &Option<Tag>,
    kind: Keyword,
    code: &Option<Code>,
    text: &Text,
    ctx: &mut EncodeContext,
)
    ensures
        final(ctx).wire() == old(ctx).wire() + status_line(*tag, kb(kind), *code, *text),
        crate::frag_rules::frags_extended(old(ctx).items@, final(ctx).items@),
{
    match tag {
        Some(t) => t.encode_ctx(ctx),
        None => ctx.write_kw(Keyword::KwA(KwA::Star)),
    }
    let ghost mid = ctx.items@;
    ctx.write_kw(Keyword::KwA(KwA::Sp));
    ctx.write_kw(kind);
    ctx.write_kw(Keyword::KwA(KwA::Sp));
    write_code(code, ctx);
    let ghost mid2 = ctx.items@;
    text.encode_ctx(ctx);
    ctx.write_crlf();
    proof {
        crate::frag_rules::lemma_frags_extended_trans(mid, mid2, ctx.items@);
        crate::frag_rules::lemma_frags_extended_trans(old(ctx).items@, mid, ctx.items@);
    }
}

impl Encoder for Status {
    closed spec fn wire(&self) -> Seq<u8> {
        match self {
            Status::Okay { tag, code, text } => status_line(
                *tag,
                kb(Keyword::KwE(KwE::StatusOk)),
                *code,
                *text,
            ),
            Status::No { tag, code, text } => status_line(
                *tag,
                kb(Keyword::KwE(KwE::No)),
                *code,
                *text,
            ),
            Status::Bad { tag, code, text } => status_line(
                *tag,
                kb(Keyword::KwE(KwE::Bad)),
                *code,
                *text,
            ),
            Status::Bye { code, text } => status_line(
                None,
                kb(Keyword::KwE(KwE::Bye)),
                *code,
                *text,
            ),
        }
    }

    fn encode_ctx(&self, ctx: &mut EncodeContext) {
        match self {
            Status::Okay { tag, code, text } => write_status_line(
                tag,
                Keyword::KwE(KwE::StatusOk),
                code,
                text,
                ctx,
            ),
            Status::No { tag, code, text } => write_status_line(
                tag,
                Keyword::KwE(KwE::No),
                code,
                text,
                ctx,
            ),
            Status::Bad { tag, code, text } => write_status_line(
                tag,
                Keyword::KwE(KwE::Bad),
                code,
                text,
                ctx,
            ),
            Status::Bye { code, text } => write_status_line(
                &None,
                Keyword::KwE(KwE::Bye),
                code,
                text,
                ctx,
            ),
        }
    }
}

/// One answered FETCH data item.  `Body` and `BodyStructure` share the
/// body-structure rule: the caller supplies the variant whose extension
/// data matches what it fetched.
#[derive(Debug, PartialEq, Eq)]
pub enum MessageDataItem {
    BodyExt { section: Option<Section>, origin: Option<u32>, data: NString },
    Body(BodyStructure),
    BodyStructure(BodyStructure),
    Envelope(Envelope),
    Flags(Vec<FlagFetch>),
    InternalDate(DateTime),
    Rfc822(NString),
    Rfc822Header(NString),
    Rfc822Size(u32),
    Rfc822Text(NString),
    Uid(u32),
}

/// `<o>` when an origin octet is present, nothing otherwise.
pub open spec fn origin_bytes(origin: Option<u32>) -> Seq<u8> {
    match origin {
        Some(o) => (kb(Keyword::KwA(KwA::Lt)) + dec_digits(o as nat)) + kb(Keyword::KwA(KwA::Gt)),
        None => Seq::empty(),
    }
}

impl Encoder for MessageDataItem {
    closed spec fn wire(&self) -> Seq<u8> {
        match self {
            MessageDataItem::BodyExt { section, origin, data } => ((((kb(
                Keyword::KwE(KwE::BodyLBracket),
            ) + section_opt_bytes(*section)) + kb(Keyword::KwA(KwA::RBracket))) + origin_bytes(
                *origin,
            )) + kb(Keyword::KwA(KwA::Sp))) + data.wire(),
            MessageDataItem::Body(b) => (kb(Keyword::KwC(KwC::Body)) + kb(
                Keyword::KwA(KwA::Sp),
            )) + b.wire(),
            MessageDataItem::BodyStructure(b) => (kb(Keyword::KwD(KwD::Bodystructure)) + kb(
                Keyword::KwA(KwA::Sp),
            )) + b.wire(),
            MessageDataItem::Envelope(env) => (kb(Keyword::KwE(KwE::EnvelopeTok)) + kb(
                Keyword::KwA(KwA::Sp),
            )) + env.wire(),
            MessageDataItem::Flags(flags) => ((kb(Keyword::KwC(KwC::Flags)) + (kb(
                Keyword::KwA(KwA::Sp),
            ) + kb(Keyword::KwA(KwA::LParen)))) + joined_wire(flags@, kb(Keyword::KwA(KwA::Sp))))
                + kb(Keyword::KwA(KwA::RParen)),
            MessageDataItem::InternalDate(dt) => (kb(Keyword::KwE(KwE::Internaldate)) + kb(
                Keyword::KwA(KwA::Sp),
            )) + dt.wire(),
            MessageDataItem::Rfc822(ns) => (kb(Keyword::KwE(KwE::Rfc822)) + kb(
                Keyword::KwA(KwA::Sp),
            )) + ns.wire(),
            MessageDataItem::Rfc822Header(ns) => (kb(Keyword::KwE(KwE::Rfc822Header)) + kb(
                Keyword::KwA(KwA::Sp),
            )) + ns.wire(),
            MessageDataItem::Rfc822Size(n) => (kb(Keyword::KwE(KwE::Rfc822Size)) + kb(
                Keyword::KwA(KwA::Sp),
            )) + dec_digits(*n as nat),
            MessageDataItem::Rfc822Text(ns) => (kb(Keyword::KwE(KwE::Rfc822Text)) + kb(
                Keyword::KwA(KwA::Sp),
            )) + ns.wire(),
            MessageDataItem::Uid(n) => (kb(Keyword::KwD(KwD::Uid)) + kb(Keyword::KwA(KwA::Sp)))
                + dec_digits(*n as nat),
        }
    }

    fn encode_ctx(&self, ctx: &mut EncodeContext) {
        match self {
            MessageDataItem::BodyExt { section, origin, data } => {
                ctx.write_kw(Keyword::KwE(KwE::BodyLBracket));
                match section {
                    Some(s) => s.encode_ctx(ctx),
                    None => (),
                }
                ctx.write_kw(Keyword::KwA(KwA::RBracket));
                match origin {
                    Some(o) => {
                        ctx.write_kw(Keyword::KwA(KwA::Lt));
                        ctx.write_u32(*o);
                        ctx.write_kw(Keyword::KwA(KwA::Gt));
                    },
                    None => (),
                }
                let ghost mid = ctx.items@;
                ctx.write_kw(Keyword::KwA(KwA::Sp));
                data.encode_ctx(ctx);
                proof {
                    crate::frag_rules::lemma_frags_extended_refl(old(ctx).items@);
                    crate::frag_rules::lemma_frags_extended_trans(
                        old(ctx).items@,
                        mid,
                        ctx.items@,
                    );
                }
            },
            MessageDataItem::Body(b) => {
                ctx.write_kw(Keyword::KwC(KwC::Body));
                ctx.write_kw(Keyword::KwA(KwA::Sp));
                b.encode_ctx(ctx);
            },
            MessageDataItem::BodyStructure(b) => {
                ctx.write_kw(Keyword::KwD(KwD::Bodystructure));
                ctx.write_kw(Keyword::KwA(KwA::Sp));
                b.encode_ctx(ctx);
            },
            MessageDataItem::Envelope(env) => {
                ctx.write_kw(Keyword::KwE(KwE::EnvelopeTok));
                ctx.write_kw(Keyword::KwA(KwA::Sp));
                env.encode_ctx(ctx);
            },
            MessageDataItem::Flags(flags) => {
                ctx.write_kw(Keyword::KwC(KwC::Flags));
                ctx.write_kw(Keyword::KwA(KwA::Sp));
                ctx.write_kw(Keyword::KwA(KwA::LParen));
                let sep = kw_vec(Keyword::KwA(KwA::Sp));
                join_serializable(flags.as_slice(), sep.as_slice(), ctx);
                ctx.write_kw(Keyword::KwA(KwA::RParen));
            },
            MessageDataItem::InternalDate(dt) => {
                ctx.write_kw(Keyword::KwE(KwE::Internaldate));
                ctx.write_kw(Keyword::KwA(KwA::Sp));
                dt.encode_ctx(ctx);
            },
            MessageDataItem::Rfc822(ns) => {
                ctx.write_kw(Keyword::KwE(KwE::Rfc822));
                ctx.write_kw(Keyword::KwA(KwA::Sp));
                ns.encode_ctx(ctx);
            },
            MessageDataItem::Rfc822Header(ns) => {
                ctx.write_kw(Keyword::KwE(KwE::Rfc822Header));
                ctx.write_kw(Keyword::KwA(KwA::Sp));
                ns.encode_ctx(ctx);
            },
            MessageDataItem::Rfc822Size(n) => {
                ctx.write_kw(Keyword::KwE(KwE::Rfc822Size));
                ctx.write_kw(Keyword::KwA(KwA::Sp));
                ctx.write_u32(*n);
            },
            MessageDataItem::Rfc822Text(ns) => {
                ctx.write_kw(Keyword::KwE(KwE::Rfc822Text));
                ctx.write_kw(Keyword::KwA(KwA::Sp));
                ns.encode_ctx(ctx);
            },
            MessageDataItem::Uid(n) => {
                ctx.write_kw(Keyword::KwD(KwD::Uid));
                ctx.write_kw(Keyword::KwA(KwA::Sp));
                ctx.write_u32(*n);
            },
        }
    }
}

/// An untagged data response.
#[derive(Debug, PartialEq, Eq)]
pub enum Data {
    Capability(Vec<Capability>),
    List { items: Vec<FlagNameAttribute>, delimiter: Option<QuotedChar>, mailbox: Mailbox },
    Lsub { items: Vec<FlagNameAttribute>, delimiter: Option<QuotedChar>, mailbox: Mailbox },
    Status { mailbox: Mailbox, items: Vec<StatusDataItem> },
    Search(Vec<u32>),
    Flags(Vec<Flag>),
    Exists(u32),
    Recent(u32),
    Expunge(u32),
    Fetch { seq: u32, items: Vec<MessageDataItem> },
    Enabled { capabilities: Vec<Capability> },
    Quota { root: QuotaRoot, quotas: Vec<QuotaGet> },
    QuotaRoot { mailbox: Mailbox, roots: Vec<QuotaRoot> },
}

/// ` r0 r1 ...`: every quota root with a leading space.
pub closed spec fn roots_prefixed_wire(s: Seq<QuotaRoot>) -> Seq<u8>
    decreases s,
{
    if s.len() == 0 {
        Seq::empty()
    } else {
        (kb(Keyword::KwA(KwA::Sp)) + s[0].wire()) + roots_prefixed_wire(s.drop_first())
    }
}

/// Write quota roots, each with a leading space.
fn write_roots_prefixed(roots: &[QuotaRoot], ctx: &mut EncodeContext)
    ensures
        final(ctx).wire() == old(ctx).wire() + roots_prefixed_wire(roots@),
        crate::frag_rules::frags_extended(old(ctx).items@, final(ctx).items@),
    decreases roots@,
{
    if roots.len() == 0 {
        proof {
            crate::frag_rules::lemma_frags_extended_refl(ctx.items@);
        }
    } else {
        ctx.write_kw(Keyword::KwA(KwA::Sp));
        let first = vstd::slice::slice_index_get(roots, 0);
        first.encode_ctx(ctx);
        let ghost mid = ctx.items@;
        let rest = vstd::slice::slice_subrange(roots, 1, roots.len());
        write_roots_prefixed(rest, ctx);
        proof {
            assert(rest@ =~= roots@.drop_first());
            crate::frag_rules::lemma_frags_extended_trans(old(ctx).items@, mid, ctx.items@);
        }
    }
}

/// The delimiter field of LIST/LSUB: a quoted character or `NIL`.
pub open spec fn delimiter_bytes(delimiter: Option<QuotedChar>) -> Seq<u8> {
    match delimiter {
        Some(q) => (kb(Keyword::KwA(KwA::DQuote)) + q.wire()) + kb(Keyword::KwA(KwA::DQuote)),
        None => kb(Keyword::KwA(KwA::Nil)),
    }
}

/// `* LIST|LSUB (attrs) delim mailbox`, without the closing CRLF.
pub open spec fn list_lsub_bytes(
    verb: Seq<u8>,
    items: Seq<FlagNameAttribute>,
    delimiter: Option<QuotedChar>,
    mailbox: Mailbox,
) -> Seq<u8> {
    ((((((kb(Keyword::KwA(KwA::StarSp)) + verb) + (kb(Keyword::KwA(KwA::Sp)) + kb(
        Keyword::KwA(KwA::LParen),
    ))) + joined_wire(items, kb(Keyword::KwA(KwA::Sp)))) + (kb(Keyword::KwA(KwA::RParen)) + kb(
        Keyword::KwA(KwA::Sp),
    ))) + delimiter_bytes(delimiter)) + kb(Keyword::KwA(KwA::Sp))) + mailbox.wire()
}

fn write_list_lsub(
    verb: Keyword,
    items: &Vec<FlagNameAttribute>,
    delimiter: &Option<QuotedChar>,
    mailbox: &Mailbox,
    ctx: &mut EncodeContext,
)
    ensures
        final(ctx).wire() == old(ctx).wire() + list_lsub_bytes(kb(verb), items@, *delimiter, *mailbox),
        crate::frag_rules::frags_extended(old(ctx).items@, final(ctx).items@),
{
    ctx.write_kw(Keyword::KwA(KwA::StarSp));
    ctx.write_kw(verb);
    ctx.write_kw(Keyword::KwA(KwA::Sp));
    ctx.write_kw(Keyword::KwA(KwA::LParen));
    let sep = kw_vec(Keyword::KwA(KwA::Sp));
    join_serializable(items.as_slice(), sep.as_slice(), ctx);
    ctx.write_kw(Keyword::KwA(KwA::RParen));
    ctx.write_kw(Keyword::KwA(KwA::Sp));
    let ghost mid = ctx.items@;
    match delimiter {
        Some(q) => {
            ctx.write_kw(Keyword::KwA(KwA::DQuote));
            q.encode_ctx(ctx);
            ctx.write_kw(Keyword::KwA(KwA::DQuote));
        },
        None => ctx.write_kw(Keyword::KwA(KwA::Nil)),
    }
    let ghost mid2 = ctx.items@;
    ctx.write_kw(Keyword::KwA(KwA::Sp));
    mailbox.encode_ctx(ctx);
    proof {
        crate::frag_rules::lemma_frags_extended_trans(mid, mid2, ctx.items@);
        crate::frag_rules::lemma_frags_extended_trans(old(ctx).items@, mid, ctx.items@);
    }
}

/// `* SEARCH` with the hits, the trailing space omitted when none.
pub open spec fn search_data_bytes(seqs: Seq<u32>) -> Seq<u8> {
    if seqs.len() == 0 {
        kb(Keyword::KwA(KwA::StarSp)) + kb(Keyword::KwB(KwB::Search))
    } else {
        ((kb(Keyword::KwA(KwA::StarSp)) + kb(Keyword::KwB(KwB::Search))) + kb(
            Keyword::KwA(KwA::Sp),
        )) + joined_wire(seqs, kb(Keyword::KwA(KwA::Sp)))
    }
}

impl Encoder for Data {
    closed spec fn wire(&self) -> Seq<u8> {
        match self {
            Data::Capability(caps) => ((kb(Keyword::KwA(KwA::StarSp)) + (kb(
                Keyword::KwA(KwA::Capability),
            ) + kb(Keyword::KwA(KwA::Sp)))) + joined_wire(caps@, kb(Keyword::KwA(KwA::Sp))))
                + crlf(),
            Data::List { items, delimiter, mailbox } => list_lsub_bytes(
                kb(Keyword::KwB(KwB::List)),
                items@,
                *delimiter,
                *mailbox,
            ) + crlf(),
            Data::Lsub { items, delimiter, mailbox } => list_lsub_bytes(
                kb(Keyword::KwB(KwB::Lsub)),
                items@,
                *delimiter,
                *mailbox,
            ) + crlf(),
            Data::Status { mailbox, items } => ((((((kb(Keyword::KwA(KwA::StarSp)) + (kb(
                Keyword::KwB(KwB::Status),
            ) + kb(Keyword::KwA(KwA::Sp)))) + mailbox.wire()) + (kb(Keyword::KwA(KwA::Sp)) + kb(
                Keyword::KwA(KwA::LParen),
            ))) + joined_wire(items@, kb(Keyword::KwA(KwA::Sp)))) + kb(Keyword::KwA(KwA::RParen)))
                + crlf()),
            Data::Search(seqs) => search_data_bytes(seqs@) + crlf(),
            Data::Flags(flags) => (((kb(Keyword::KwA(KwA::StarSp)) + (kb(Keyword::KwC(KwC::Flags))
                + (kb(Keyword::KwA(KwA::Sp)) + kb(Keyword::KwA(KwA::LParen))))) + joined_wire(
                flags@,
                kb(Keyword::KwA(KwA::Sp)),
            )) + kb(Keyword::KwA(KwA::RParen))) + crlf(),
            Data::Exists(n) => (((kb(Keyword::KwA(KwA::StarSp)) + dec_digits(*n as nat)) + kb(
                Keyword::KwA(KwA::Sp),
            )) + kb(Keyword::KwF(KwF::Exists))) + crlf(),
            Data::Recent(n) => (((kb(Keyword::KwA(KwA::StarSp)) + dec_digits(*n as nat)) + kb(
                Keyword::KwA(KwA::Sp),
            )) + kb(Keyword::KwC(KwC::Recent))) + crlf(),
            Data::Expunge(n) => (((kb(Keyword::KwA(KwA::StarSp)) + dec_digits(*n as nat)) + kb(
                Keyword::KwA(KwA::Sp),
            )) + kb(Keyword::KwB(KwB::Expunge))) + crlf(),
            Data::Fetch { seq, items } => ((((kb(Keyword::KwA(KwA::StarSp)) + dec_digits(
                *seq as nat,
            )) + (kb(Keyword::KwA(KwA::Sp)) + (kb(Keyword::KwB(KwB::Fetch)) + (kb(
                Keyword::KwA(KwA::Sp),
            ) + kb(Keyword::KwA(KwA::LParen)))))) + joined_wire(items@, kb(Keyword::KwA(KwA::Sp))))
                + kb(Keyword::KwA(KwA::RParen))) + crlf(),
            Data::Enabled { capabilities } => ((kb(Keyword::KwA(KwA::StarSp)) + (kb(
                Keyword::KwF(KwF::Enabled),
            ) + kb(Keyword::KwA(KwA::Sp)))) + joined_wire(
                capabilities@,
                kb(Keyword::KwA(KwA::Sp)),
            )) + crlf(),
            Data::QuotaRoot { mailbox, roots } => (((kb(Keyword::KwA(KwA::StarSp)) + (kb(
                Keyword::KwF(KwF::Quotaroot),
            ) + kb(Keyword::KwA(KwA::Sp)))) + mailbox.wire()) + roots_prefixed_wire(roots@))
                + crlf(),
            Data::Quota { root, quotas } => (((((kb(Keyword::KwA(KwA::StarSp)) + (kb(
                Keyword::KwF(KwF::Quota),
            ) + kb(Keyword::KwA(KwA::Sp)))) + root.wire()) + (kb(Keyword::KwA(KwA::Sp)) + kb(
                Keyword::KwA(KwA::LParen),
            ))) + joined_wire(quotas@, kb(Keyword::KwA(KwA::Sp)))) + kb(Keyword::KwA(KwA::RParen)))
                + crlf(),
        }
    }

    fn encode_ctx(&self, ctx: &mut EncodeContext) {
        match self {
            Data::Capability(caps) => {
                ctx.write_kw(Keyword::KwA(KwA::StarSp));
                ctx.write_kw(Keyword::KwA(KwA::Capability));
                ctx.write_kw(Keyword::KwA(KwA::Sp));
                let sep = kw_vec(Keyword::KwA(KwA::Sp));
                join_serializable(caps.as_slice(), sep.as_slice(), ctx);
                ctx.write_crlf();
            },
            Data::List { items, delimiter, mailbox } => {
                write_list_lsub(Keyword::KwB(KwB::List), items, delimiter, mailbox, ctx);
                ctx.write_crlf();
            },
            Data::Lsub { items, delimiter, mailbox } => {
                write_list_lsub(Keyword::KwB(KwB::Lsub), items, delimiter, mailbox, ctx);
                ctx.write_crlf();
            },
            Data::Status { mailbox, items } => {
                ctx.write_kw(Keyword::KwA(KwA::StarSp));
                ctx.write_kw(Keyword::KwB(KwB::Status));
                ctx.write_kw(Keyword::KwA(KwA::Sp));
                mailbox.encode_ctx(ctx);
                let ghost mid = ctx.items@;
                ctx.write_kw(Keyword::KwA(KwA::Sp));
                ctx.write_kw(Keyword::KwA(KwA::LParen));
                let sep = kw_vec(Keyword::KwA(KwA::Sp));
                join_serializable(items.as_slice(), sep.as_slice(), ctx);
                ctx.write_kw(Keyword::KwA(KwA::RParen));
                ctx.write_crlf();
                proof {
                    crate::frag_rules::lemma_frags_extended_trans(
                        old(ctx).items@,
                        mid,
                        ctx.items@,
                    );
                }
            },
            Data::Search(seqs) => {
                ctx.write_kw(Keyword::KwA(KwA::StarSp));
                ctx.write_kw(Keyword::KwB(KwB::Search));
                if !seqs.is_empty() {
                    ctx.write_kw(Keyword::KwA(KwA::Sp));
                    let sep = kw_vec(Keyword::KwA(KwA::Sp));
                    join_serializable(seqs.as_slice(), sep.as_slice(), ctx);
                }
                ctx.write_crlf();
            },
            Data::Flags(flags) => {
                ctx.write_kw(Keyword::KwA(KwA::StarSp));
                ctx.write_kw(Keyword::KwC(KwC::Flags));
                ctx.write_kw(Keyword::KwA(KwA::Sp));
                ctx.write_kw(Keyword::KwA(KwA::LParen));
                let sep = kw_vec(Keyword::KwA(KwA::Sp));
                join_serializable(flags.as_slice(), sep.as_slice(), ctx);
                ctx.write_kw(Keyword::KwA(KwA::RParen));
                ctx.write_crlf();
            },
            Data::Exists(n) => {
                ctx.write_kw(Keyword::KwA(KwA::StarSp));
                ctx.write_u32(*n);
                ctx.write_kw(Keyword::KwA(KwA::Sp));
                ctx.write_kw(Keyword::KwF(KwF::Exists));
                ctx.write_crlf();
            },
            Data::Recent(n) => {
                ctx.write_kw(Keyword::KwA(KwA::StarSp));
                ctx.write_u32(*n);
                ctx.write_kw(Keyword::KwA(KwA::Sp));
                ctx.write_kw(Keyword::KwC(KwC::Recent));
                ctx.write_crlf();
            },
            Data::Expunge(n) => {
                ctx.write_kw(Keyword::KwA(KwA::StarSp));
                ctx.write_u32(*n);
                ctx.write_kw(Keyword::KwA(KwA::Sp));
                ctx.write_kw(Keyword::KwB(KwB::Expunge));
                ctx.write_crlf();
            },
            Data::Fetch { seq, items } => {
                ctx.write_kw(Keyword::KwA(KwA::StarSp));
                ctx.write_u32(*seq);
                ctx.write_kw(Keyword::KwA(KwA::Sp));
                ctx.write_kw(Keyword::KwB(KwB::Fetch));
                ctx.write_kw(Keyword::KwA(KwA::Sp));
                ctx.write_kw(Keyword::KwA(KwA::LParen));
                let sep = kw_vec(Keyword::KwA(KwA::Sp));
                join_serializable(items.as_slice(), sep.as_slice(), ctx);
                ctx.write_kw(Keyword::KwA(KwA::RParen));
                ctx.write_crlf();
            },
            Data::Enabled { capabilities } => {
                ctx.write_kw(Keyword::KwA(KwA::StarSp));
                ctx.write_kw(Keyword::KwF(KwF::Enabled));
                ctx.write_kw(Keyword::KwA(KwA::Sp));
                let sep = kw_vec(Keyword::KwA(KwA::Sp));
                join_serializable(capabilities.as_slice(), sep.as_slice(), ctx);
                ctx.write_crlf();
            },
            Data::QuotaRoot { mailbox, roots } => {
                ctx.write_kw(Keyword::KwA(KwA::StarSp));
                ctx.write_kw(Keyword::KwF(KwF::Quotaroot));
                ctx.write_kw(Keyword::KwA(KwA::Sp));
                mailbox.encode_ctx(ctx);
                let ghost mid = ctx.items@;
                write_roots_prefixed(roots.as_slice(), ctx);
                ctx.write_crlf();
                proof {
                    crate::frag_rules::lemma_frags_extended_trans(
                        old(ctx).items@,
                        mid,
                        ctx.items@,
                    );
                }
            },
            Data::Quota { root, quotas } => {
                ctx.write_kw(Keyword::KwA(KwA::StarSp));
                ctx.write_kw(Keyword::KwF(KwF::Quota));
                ctx.write_kw(Keyword::KwA(KwA::Sp));
                root.encode_ctx(ctx);
                let ghost mid = ctx.items@;
                ctx.write_kw(Keyword::KwA(KwA::Sp));
                ctx.write_kw(Keyword::KwA(KwA::LParen));
                let sep = kw_vec(Keyword::KwA(KwA::Sp));
                join_serializable(quotas.as_slice(), sep.as_slice(), ctx);
                ctx.write_kw(Keyword::KwA(KwA::RParen));
                ctx.write_crlf();
                proof {
                    crate::frag_rules::lemma_frags_extended_trans(
                        old(ctx).items@,
                        mid,
                        ctx.items@,
                    );
                }
            },
        }
    }
}

/// A continuation request: `+ `, an optional code or text, CRLF; or the
/// base64 form used during AUTHENTICATE.
#[derive(Clone, Debug, PartialEq, Eq)]
pub enum Continue {
    Basic { code: Option<Code>, text: Text },
    Base64(Vec<u8>),
}

impl Encoder for Continue {
    closed spec fn wire(&self) -> Seq<u8> {
        match self {
            Continue::Basic { code, text } => ((kb(Keyword::KwA(KwA::PlusSp)) + code_bytes(*code))
                + text.wire()) + crlf(),
            Continue::Base64(data) => (kb(Keyword::KwA(KwA::PlusSp)) + base64_bytes(data@))
                + crlf(),
        }
    }

    fn encode_ctx(&self, ctx: &mut EncodeContext) {
        match self {
            Continue::Basic { code, text } => {
                ctx.write_kw(Keyword::KwA(KwA::PlusSp));
                write_code(code, ctx);
                let ghost mid = ctx.items@;
                text.encode_ctx(ctx);
                ctx.write_crlf();
                proof {
                    crate::frag_rules::lemma_frags_extended_trans(
                        old(ctx).items@,
                        mid,
                        ctx.items@,
                    );
                }
            },
            Continue::Base64(data) => {
                ctx.write_kw(Keyword::KwA(KwA::PlusSp));
                let encoded = base64_encode(data.as_slice());
                ctx.write_bytes(encoded.as_slice());
                ctx.write_crlf();
            },
        }
    }
}

/// Any server-to-client message: a status, a data response, or a
/// continuation request.
#[derive(Debug, PartialEq, Eq)]
pub enum Response {
    Status(Status),
    Data(Data),
    Continue(Continue),
}

impl Encoder for Response {
    closed spec fn wire(&self) -> Seq<u8> {
        match self {
            Response::Status(status) => status.wire(),
            Response::Data(data) => data.wire(),
            Response::Continue(cont) => cont.wire(),
        }
    }

    fn encode_ctx(&self, ctx: &mut EncodeContext) {
        match self {
            Response::Status(status) => status.encode_ctx(ctx),
            Response::Data(data) => data.encode_ctx(ctx),
            Response::Continue(cont) => cont.encode_ctx(ctx),
        }
    }
}

} // verus!
