//! Client commands: a tag and one of the protocol's verbs.

use vstd::prelude::*;

use crate::auth::AuthMechanism;
use crate::datetime::DateTime;
use crate::encode::{base64_bytes, base64_encode, crlf, join_serializable, joined_wire, EncodeContext, Encoder};
use crate::extensions::{Capability, CompressionAlgorithm, QuotaRoot, QuotaSet};
use crate::fetch::MacroOrMessageDataItemNames;
use crate::flag::{Flag, StoreResponse, StoreType};
use crate::imapstr::{AString, Charset, Literal, Tag};
use crate::kw::{kb, kw_vec, Keyword, KwA, KwB, KwC, KwD, KwE, KwF};
use crate::mailbox::{ListMailbox, Mailbox};
use crate::search::SearchKey;
use crate::secret::Secret;
use crate::sequence::SequenceSet;

verus! {

broadcast use {
    crate::seqext::lemma_concat_assoc,
    crate::seqext::lemma_concat_empty_right,
    crate::seqext::lemma_concat_empty_left,
    crate::frag_rules::lemma_frags_extended_trans,
    crate::frag_rules::lemma_frags_extended_refl,
};

/// The body of a client command: one verb with its operands.  There is no
/// `Debug` form: the authentication variants hold secrets.
pub enum CommandBody {
    Capability,
    Noop,
    Logout,
    StartTls,
    Authenticate { mechanism: AuthMechanism, initial_response: Option<Secret<Vec<u8>>> },
    Login { username: AString, password: Secret<AString> },
    Select { mailbox: Mailbox },
    Unselect,
    Examine { mailbox: Mailbox },
    Create { mailbox: Mailbox },
    Delete { mailbox: Mailbox },
    Rename { from: Mailbox, to: Mailbox },
    Subscribe { mailbox: Mailbox },
    Unsubscribe { mailbox: Mailbox },
    List { reference: Mailbox, mailbox_wildcard: ListMailbox },
    Lsub { reference: Mailbox, mailbox_wildcard: ListMailbox },
    Status { mailbox: Mailbox, item_names: Vec<crate::status_items::StatusDataItemName> },
    Append { mailbox: Mailbox, flags: Vec<Flag>, date: Option<DateTime>, message: Literal },
    Check,
    Close,
    Expunge,
    Search { charset: Option<Charset>, criteria: SearchKey, uid: bool },
    Fetch { sequence_set: SequenceSet, macro_or_item_names: MacroOrMessageDataItemNames, uid: bool },
    Store {
        sequence_set: SequenceSet,
        kind: StoreType,
        response: StoreResponse,
        flags: Vec<Flag>,
        uid: bool,
    },
    Copy { sequence_set: SequenceSet, mailbox: Mailbox, uid: bool },
    Move { sequence_set: SequenceSet, mailbox: Mailbox, uid: bool },
    Idle,
    Enable { capabilities: Vec<Capability> },
    Compress { algorithm: CompressionAlgorithm },
    GetQuota { root: QuotaRoot },
    GetQuotaRoot { mailbox: Mailbox },
    SetQuota { root: QuotaRoot, quotas: Vec<QuotaSet> },
}

/// The space-separated SASL initial response: `=` for an empty payload,
/// otherwise the base64 of the secret bytes; nothing when absent.
pub open spec fn initial_response_bytes(ir: Option<Secret<Vec<u8>>>) -> Seq<u8> {
    match ir {
        Some(s) => kb(Keyword::KwA(KwA::Sp)) + if s.value()@.len() == 0 {
            kb(Keyword::KwA(KwA::EqSign))
        } else {
            base64_bytes(s.value()@)
        },
        None => Seq::empty(),
    }
}

/// ` (flag flag ...)` when any flags are given, nothing otherwise.
pub open spec fn append_flags_bytes(flags: Seq<Flag>) -> Seq<u8> {
    if flags.len() == 0 {
        Seq::empty()
    } else {
        ((kb(Keyword::KwA(KwA::Sp)) + kb(Keyword::KwA(KwA::LParen))) + joined_wire(
            flags,
            kb(Keyword::KwA(KwA::Sp)),
        )) + kb(Keyword::KwA(KwA::RParen))
    }
}

/// ` <datetime>` when a date is given, nothing otherwise.
pub open spec fn append_date_bytes(date: Option<DateTime>) -> Seq<u8> {
    match date {
        Some(d) => kb(Keyword::KwA(KwA::Sp)) + d.wire(),
        None => Seq::empty(),
    }
}

/// ` CHARSET <cs>` when a charset is given, nothing otherwise.
pub open spec fn charset_bytes(charset: Option<Charset>) -> Seq<u8> {
    match charset {
        Some(c) => (kb(Keyword::KwA(KwA::Sp)) + kb(Keyword::KwB(KwB::CharsetSp))) + c.wire(),
        None => Seq::empty(),
    }
}

/// `UID ` when the UID form of the verb is used, nothing otherwise.
pub open spec fn uid_bytes(uid: bool) -> Seq<u8> {
    if uid {
        kb(Keyword::KwB(KwB::UidSp))
    } else {
        Seq::empty()
    }
}

/// `+`, `-` or nothing before `FLAGS` in STORE.
pub open spec fn store_type_bytes(kind: StoreType) -> Seq<u8> {
    match kind {
        StoreType::Add => kb(Keyword::KwA(KwA::Plus)),
        StoreType::Remove => kb(Keyword::KwA(KwA::Dash)),
        StoreType::Replace => Seq::empty(),
    }
}

/// `.SILENT` or nothing after `FLAGS` in STORE.
pub open spec fn store_response_bytes(response: StoreResponse) -> Seq<u8> {
    match response {
        StoreResponse::Silent => kb(Keyword::KwC(KwC::DotSilent)),
        StoreResponse::Answer => Seq::empty(),
    }
}

/// `<verb> <mailbox>`.
spec fn verb_mailbox(verb: Keyword, mailbox: Mailbox) -> Seq<u8> {
    (kb(verb) + kb(Keyword::KwA(KwA::Sp))) + mailbox.wire()
}

impl CommandBody {
    fn write_verb_mailbox(verb: Keyword, mailbox: &Mailbox, ctx: &mut EncodeContext)
        ensures
            final(ctx).wire() == old(ctx).wire() + verb_mailbox(verb, *mailbox),
            crate::frag_rules::frags_extended(old(ctx).items@, final(ctx).items@),
    {
        ctx.write_kw(verb);
        ctx.write_kw(Keyword::KwA(KwA::Sp));
        mailbox.encode_ctx(ctx);
    }
}

impl Encoder for CommandBody {
    closed spec fn wire(&self) -> Seq<u8> {
        match self {
            CommandBody::Capability => kb(Keyword::KwA(KwA::Capability)),
            CommandBody::Noop => kb(Keyword::KwA(KwA::Noop)),
            CommandBody::Logout => kb(Keyword::KwA(KwA::Logout)),
            CommandBody::StartTls => kb(Keyword::KwA(KwA::Starttls)),
            CommandBody::Authenticate { mechanism, initial_response } => ((kb(
                Keyword::KwA(KwA::Authenticate),
            ) + kb(Keyword::KwA(KwA::Sp))) + mechanism.wire()) + initial_response_bytes(
                *initial_response,
            ),
            CommandBody::Login { username, password } => (((kb(Keyword::KwA(KwA::Login)) + kb(
                Keyword::KwA(KwA::Sp),
            )) + username.wire()) + kb(Keyword::KwA(KwA::Sp))) + password.value().wire(),
            CommandBody::Select { mailbox } => verb_mailbox(Keyword::KwB(KwB::Select), *mailbox),
            CommandBody::Unselect => kb(Keyword::KwB(KwB::Unselect)),
            CommandBody::Examine { mailbox } => verb_mailbox(Keyword::KwB(KwB::Examine), *mailbox),
            CommandBody::Create { mailbox } => verb_mailbox(Keyword::KwB(KwB::Create), *mailbox),
            CommandBody::Delete { mailbox } => verb_mailbox(Keyword::KwB(KwB::Delete), *mailbox),
            CommandBody::Rename { from, to } => (verb_mailbox(Keyword::KwB(KwB::Rename), *from)
                + kb(Keyword::KwA(KwA::Sp))) + to.wire(),
            CommandBody::Subscribe { mailbox } => verb_mailbox(
                Keyword::KwB(KwB::Subscribe),
                *mailbox,
            ),
            CommandBody::Unsubscribe { mailbox } => verb_mailbox(
                Keyword::KwB(KwB::Unsubscribe),
                *mailbox,
            ),
            CommandBody::List { reference, mailbox_wildcard } => (verb_mailbox(
                Keyword::KwB(KwB::List),
                *reference,
            ) + kb(Keyword::KwA(KwA::Sp))) + mailbox_wildcard.wire(),
            CommandBody::Lsub { reference, mailbox_wildcard } => (verb_mailbox(
                Keyword::KwB(KwB::Lsub),
                *reference,
            ) + kb(Keyword::KwA(KwA::Sp))) + mailbox_wildcard.wire(),
            CommandBody::Status { mailbox, item_names } => (((verb_mailbox(
                Keyword::KwB(KwB::Status),
                *mailbox,
            ) + kb(Keyword::KwA(KwA::Sp))) + kb(Keyword::KwA(KwA::LParen))) + joined_wire(
                item_names@,
                kb(Keyword::KwA(KwA::Sp)),
            )) + kb(Keyword::KwA(KwA::RParen)),
            CommandBody::Append { mailbox, flags, date, message } => (((verb_mailbox(
                Keyword::KwB(KwB::Append),
                *mailbox,
            ) + append_flags_bytes(flags@)) + append_date_bytes(*date)) + kb(
                Keyword::KwA(KwA::Sp),
            )) + message.wire(),
            CommandBody::Check => kb(Keyword::KwB(KwB::Check)),
            CommandBody::Close => kb(Keyword::KwB(KwB::Close)),
            CommandBody::Expunge => kb(Keyword::KwB(KwB::Expunge)),
            CommandBody::Search { charset, criteria, uid } => (((uid_bytes(*uid) + kb(
                Keyword::KwB(KwB::Search),
            )) + charset_bytes(*charset)) + kb(Keyword::KwA(KwA::Sp))) + criteria.wire(),
            CommandBody::Fetch { sequence_set, macro_or_item_names, uid } => ((((uid_bytes(*uid)
                + kb(Keyword::KwB(KwB::Fetch))) + kb(Keyword::KwA(KwA::Sp))) + sequence_set.wire())
                + kb(Keyword::KwA(KwA::Sp))) + macro_or_item_names.wire(),
            CommandBody::Store { sequence_set, kind, response, flags, uid } => (((((((((uid_bytes(
                *uid,
            ) + kb(Keyword::KwB(KwB::Store))) + kb(Keyword::KwA(KwA::Sp))) + sequence_set.wire())
                + kb(Keyword::KwA(KwA::Sp))) + store_type_bytes(*kind)) + kb(
                Keyword::KwC(KwC::Flags),
            )) + store_response_bytes(*response)) + (kb(Keyword::KwA(KwA::Sp)) + kb(
                Keyword::KwA(KwA::LParen),
            ))) + joined_wire(flags@, kb(Keyword::KwA(KwA::Sp)))) + kb(Keyword::KwA(KwA::RParen)),
            CommandBody::Copy { sequence_set, mailbox, uid } => ((((uid_bytes(*uid) + kb(
                Keyword::KwB(KwB::Copy),
            )) + kb(Keyword::KwA(KwA::Sp))) + sequence_set.wire()) + kb(Keyword::KwA(KwA::Sp)))
                + mailbox.wire(),
            CommandBody::Move { sequence_set, mailbox, uid } => ((((uid_bytes(*uid) + kb(
                Keyword::KwB(KwB::Move),
            )) + kb(Keyword::KwA(KwA::Sp))) + sequence_set.wire()) + kb(Keyword::KwA(KwA::Sp)))
                + mailbox.wire(),
            CommandBody::Idle => kb(Keyword::KwB(KwB::Idle)),
            CommandBody::Enable { capabilities } => (kb(Keyword::KwB(KwB::Enable)) + kb(
                Keyword::KwA(KwA::Sp),
            )) + joined_wire(capabilities@, kb(Keyword::KwA(KwA::Sp))),
            CommandBody::Compress { algorithm } => (kb(Keyword::KwB(KwB::Compress)) + kb(
                Keyword::KwA(KwA::Sp),
            )) + algorithm.wire(),
            CommandBody::GetQuota { root } => (kb(Keyword::KwB(KwB::Getquota)) + kb(
                Keyword::KwA(KwA::Sp),
            )) + root.wire(),
            CommandBody::GetQuotaRoot { mailbox } => verb_mailbox(
                Keyword::KwB(KwB::Getquotaroot),
                *mailbox,
            ),
            CommandBody::SetQuota { root, quotas } => ((((((kb(Keyword::KwB(KwB::Setquota)) + kb(
                Keyword::KwA(KwA::Sp),
            )) + root.wire()) + kb(Keyword::KwA(KwA::Sp))) + kb(Keyword::KwA(KwA::LParen)))
                + joined_wire(quotas@, kb(Keyword::KwA(KwA::Sp)))) + kb(
                Keyword::KwA(KwA::RParen),
            )),
        }
    }

    #[verifier::spinoff_prover]
    #[verifier::rlimit(100)]
    fn encode_ctx(&self, ctx: &mut EncodeContext) {
        match self {
            CommandBody::Capability => ctx.write_kw(Keyword::KwA(KwA::Capability)),
            CommandBody::Noop => ctx.write_kw(Keyword::KwA(KwA::Noop)),
            CommandBody::Logout => ctx.write_kw(Keyword::KwA(KwA::Logout)),
            CommandBody::StartTls => ctx.write_kw(Keyword::KwA(KwA::Starttls)),
            CommandBody::Authenticate { mechanism, initial_response } => {
                ctx.write_kw(Keyword::KwA(KwA::Authenticate));
                ctx.write_kw(Keyword::KwA(KwA::Sp));
                mechanism.encode_ctx(ctx);
                match initial_response {
                    Some(ir) => {
                        ctx.write_kw(Keyword::KwA(KwA::Sp));
                        if ir.expose_secret().is_empty() {
                            ctx.write_kw(Keyword::KwA(KwA::EqSign));
                        } else {
                            let encoded = base64_encode(ir.expose_secret().as_slice());
                            ctx.write_bytes(encoded.as_slice());
                        }
                    },
                    None => (),
                }
            },
            CommandBody::Login { username, password } => {
                ctx.write_kw(Keyword::KwA(KwA::Login));
                ctx.write_kw(Keyword::KwA(KwA::Sp));
                username.encode_ctx(ctx);
                let ghost mid = ctx.items@;
                ctx.write_kw(Keyword::KwA(KwA::Sp));
                password.expose_secret().encode_ctx(ctx);
                proof {
                    crate::frag_rules::lemma_frags_extended_trans(
                        old(ctx).items@,
                        mid,
                        ctx.items@,
                    );
                }
            },
            CommandBody::Select { mailbox } => Self::write_verb_mailbox(
                Keyword::KwB(KwB::Select),
                mailbox,
                ctx,
            ),
            CommandBody::Unselect => ctx.write_kw(Keyword::KwB(KwB::Unselect)),
            CommandBody::Examine { mailbox } => Self::write_verb_mailbox(
                Keyword::KwB(KwB::Examine),
                mailbox,
                ctx,
            ),
            CommandBody::Create { mailbox } => Self::write_verb_mailbox(
                Keyword::KwB(KwB::Create),
                mailbox,
                ctx,
            ),
            CommandBody::Delete { mailbox } => Self::write_verb_mailbox(
                Keyword::KwB(KwB::Delete),
                mailbox,
                ctx,
            ),
            CommandBody::Rename { from, to } => {
                Self::write_verb_mailbox(Keyword::KwB(KwB::Rename), from, ctx);
                let ghost mid = ctx.items@;
                ctx.write_kw(Keyword::KwA(KwA::Sp));
                to.encode_ctx(ctx);
                proof {
                    crate::frag_rules::lemma_frags_extended_trans(
                        old(ctx).items@,
                        mid,
                        ctx.items@,
                    );
                }
            },
            CommandBody::Subscribe { mailbox } => Self::write_verb_mailbox(
                Keyword::KwB(KwB::Subscribe),
                mailbox,
                ctx,
            ),
            CommandBody::Unsubscribe { mailbox } => Self::write_verb_mailbox(
                Keyword::KwB(KwB::Unsubscribe),
                mailbox,
                ctx,
            ),
            CommandBody::List { reference, mailbox_wildcard } => {
                Self::write_verb_mailbox(Keyword::KwB(KwB::List), reference, ctx);
                let ghost mid = ctx.items@;
                ctx.write_kw(Keyword::KwA(KwA::Sp));
                mailbox_wildcard.encode_ctx(ctx);
                proof {
                    crate::frag_rules::lemma_frags_extended_trans(
                        old(ctx).items@,
                        mid,
                        ctx.items@,
                    );
                }
            },
            CommandBody::Lsub { reference, mailbox_wildcard } => {
                Self::write_verb_mailbox(Keyword::KwB(KwB::Lsub), reference, ctx);
                let ghost mid = ctx.items@;
                ctx.write_kw(Keyword::KwA(KwA::Sp));
                mailbox_wildcard.encode_ctx(ctx);
                proof {
                    crate::frag_rules::lemma_frags_extended_trans(
                        old(ctx).items@,
                        mid,
                        ctx.items@,
                    );
                }
            },
            CommandBody::Status { mailbox, item_names } => {
                Self::write_verb_mailbox(Keyword::KwB(KwB::Status), mailbox, ctx);
                let ghost mid = ctx.items@;
                ctx.write_kw(Keyword::KwA(KwA::Sp));
                ctx.write_kw(Keyword::KwA(KwA::LParen));
                let sep = kw_vec(Keyword::KwA(KwA::Sp));
                join_serializable(item_names.as_slice(), sep.as_slice(), ctx);
                ctx.write_kw(Keyword::KwA(KwA::RParen));
                proof {
                    crate::frag_rules::lemma_frags_extended_trans(
                        old(ctx).items@,
                        mid,
                        ctx.items@,
                    );
                }
            },
            CommandBody::Append { mailbox, flags, date, message } => {
                Self::write_verb_mailbox(Keyword::KwB(KwB::Append), mailbox, ctx);
                let ghost mid1 = ctx.items@;
                if !flags.is_empty() {
                    ctx.write_kw(Keyword::KwA(KwA::Sp));
                    ctx.write_kw(Keyword::KwA(KwA::LParen));
                    let sep = kw_vec(Keyword::KwA(KwA::Sp));
                    join_serializable(flags.as_slice(), sep.as_slice(), ctx);
                    ctx.write_kw(Keyword::KwA(KwA::RParen));
                }
                let ghost mid2 = ctx.items@;
                match date {
                    Some(d) => {
                        ctx.write_kw(Keyword::KwA(KwA::Sp));
                        d.encode_ctx(ctx);
                    },
                    None => (),
                }
                let ghost mid3 = ctx.items@;
                ctx.write_kw(Keyword::KwA(KwA::Sp));
                message.encode_ctx(ctx);
                proof {
                    crate::frag_rules::lemma_frags_extended_refl(mid1);
                    crate::frag_rules::lemma_frags_extended_refl(mid2);
                    crate::frag_rules::lemma_frags_extended_trans(mid1, mid2, mid3);
                    crate::frag_rules::lemma_frags_extended_trans(mid1, mid3, ctx.items@);
                    crate::frag_rules::lemma_frags_extended_trans(
                        old(ctx).items@,
                        mid1,
                        ctx.items@,
                    );
                }
            },
            CommandBody::Check => ctx.write_kw(Keyword::KwB(KwB::Check)),
            CommandBody::Close => ctx.write_kw(Keyword::KwB(KwB::Close)),
            CommandBody::Expunge => ctx.write_kw(Keyword::KwB(KwB::Expunge)),
            CommandBody::Search { charset, criteria, uid } => {
                if *uid {
                    ctx.write_kw(Keyword::KwB(KwB::UidSp));
                }
                ctx.write_kw(Keyword::KwB(KwB::Search));
                match charset {
                    Some(c) => {
                        ctx.write_kw(Keyword::KwA(KwA::Sp));
                        ctx.write_kw(Keyword::KwB(KwB::CharsetSp));
                        c.encode_ctx(ctx);
                    },
                    None => (),
                }
                let ghost mid = ctx.items@;
                ctx.write_kw(Keyword::KwA(KwA::Sp));
                criteria.encode_ctx(ctx);
                proof {
                    crate::frag_rules::lemma_frags_extended_refl(old(ctx).items@);
                    crate::frag_rules::lemma_frags_extended_trans(
                        old(ctx).items@,
                        mid,
                        ctx.items@,
                    );
                }
            },
            CommandBody::Fetch { sequence_set, macro_or_item_names, uid } => {
                if *uid {
                    ctx.write_kw(Keyword::KwB(KwB::UidSp));
                }
                ctx.write_kw(Keyword::KwB(KwB::Fetch));
                ctx.write_kw(Keyword::KwA(KwA::Sp));
                sequence_set.encode_ctx(ctx);
                let ghost mid = ctx.items@;
                ctx.write_kw(Keyword::KwA(KwA::Sp));
                macro_or_item_names.encode_ctx(ctx);
                proof {
                    crate::frag_rules::lemma_frags_extended_trans(
                        old(ctx).items@,
                        mid,
                        ctx.items@,
                    );
                }
            },
            CommandBody::Store { sequence_set, kind, response, flags, uid } => {
                if *uid {
                    ctx.write_kw(Keyword::KwB(KwB::UidSp));
                }
                ctx.write_kw(Keyword::KwB(KwB::Store));
                ctx.write_kw(Keyword::KwA(KwA::Sp));
                sequence_set.encode_ctx(ctx);
                ctx.write_kw(Keyword::KwA(KwA::Sp));
                match kind {
                    StoreType::Add => ctx.write_kw(Keyword::KwA(KwA::Plus)),
                    StoreType::Remove => ctx.write_kw(Keyword::KwA(KwA::Dash)),
                    StoreType::Replace => (),
                }
                ctx.write_kw(Keyword::KwC(KwC::Flags));
                match response {
                    StoreResponse::Silent => ctx.write_kw(Keyword::KwC(KwC::DotSilent)),
                    StoreResponse::Answer => (),
                }
                let ghost mid = ctx.items@;
                ctx.write_kw(Keyword::KwA(KwA::Sp));
                ctx.write_kw(Keyword::KwA(KwA::LParen));
                let sep = kw_vec(Keyword::KwA(KwA::Sp));
                join_serializable(flags.as_slice(), sep.as_slice(), ctx);
                ctx.write_kw(Keyword::KwA(KwA::RParen));
                proof {
                    crate::frag_rules::lemma_frags_extended_trans(
                        old(ctx).items@,
                        mid,
                        ctx.items@,
                    );
                }
            },
            CommandBody::Copy { sequence_set, mailbox, uid } => {
                if *uid {
                    ctx.write_kw(Keyword::KwB(KwB::UidSp));
                }
                ctx.write_kw(Keyword::KwB(KwB::Copy));
                ctx.write_kw(Keyword::KwA(KwA::Sp));
                sequence_set.encode_ctx(ctx);
                let ghost mid = ctx.items@;
                ctx.write_kw(Keyword::KwA(KwA::Sp));
                mailbox.encode_ctx(ctx);
                proof {
                    crate::frag_rules::lemma_frags_extended_trans(
                        old(ctx).items@,
                        mid,
                        ctx.items@,
                    );
                }
            },
            CommandBody::Move { sequence_set, mailbox, uid } => {
                if *uid {
                    ctx.write_kw(Keyword::KwB(KwB::UidSp));
                }
                ctx.write_kw(Keyword::KwB(KwB::Move));
                ctx.write_kw(Keyword::KwA(KwA::Sp));
                sequence_set.encode_ctx(ctx);
                let ghost mid = ctx.items@;
                ctx.write_kw(Keyword::KwA(KwA::Sp));
                mailbox.encode_ctx(ctx);
                proof {
                    crate::frag_rules::lemma_frags_extended_trans(
                        old(ctx).items@,
                        mid,
                        ctx.items@,
                    );
                }
            },
            CommandBody::Idle => ctx.write_kw(Keyword::KwB(KwB::Idle)),
            CommandBody::Enable { capabilities } => {
                ctx.write_kw(Keyword::KwB(KwB::Enable));
                ctx.write_kw(Keyword::KwA(KwA::Sp));
                let sep = kw_vec(Keyword::KwA(KwA::Sp));
                join_serializable(capabilities.as_slice(), sep.as_slice(), ctx);
            },
            CommandBody::Compress { algorithm } => {
                ctx.write_kw(Keyword::KwB(KwB::Compress));
                ctx.write_kw(Keyword::KwA(KwA::Sp));
                algorithm.encode_ctx(ctx);
            },
            CommandBody::GetQuota { root } => {
                ctx.write_kw(Keyword::KwB(KwB::Getquota));
                ctx.write_kw(Keyword::KwA(KwA::Sp));
                root.encode_ctx(ctx);
            },
            CommandBody::GetQuotaRoot { mailbox } => Self::write_verb_mailbox(
                Keyword::KwB(KwB::Getquotaroot),
                mailbox,
                ctx,
            ),
            CommandBody::SetQuota { root, quotas } => {
                ctx.write_kw(Keyword::KwB(KwB::Setquota));
                ctx.write_kw(Keyword::KwA(KwA::Sp));
                root.encode_ctx(ctx);
                let ghost mid = ctx.items@;
                ctx.write_kw(Keyword::KwA(KwA::Sp));
                ctx.write_kw(Keyword::KwA(KwA::LParen));
                let sep = kw_vec(Keyword::KwA(KwA::Sp));
                join_serializable(quotas.as_slice(), sep.as_slice(), ctx);
                ctx.write_kw(Keyword::KwA(KwA::RParen));
                proof {
                    crate::frag_rules::lemma_frags_extended_trans(
                        old(ctx).items@,
                        mid,
                        ctx.items@,
                    );
                }
            },
        }
    }
}

/// A full client command: the tag, the body, and the closing CRLF.
pub struct Command {
    pub tag: Tag,
    pub body: CommandBody,
}

impl Command {
    pub fn new(tag: Tag, body: CommandBody) -> (r: Command)
        ensures
            r.tag == tag,
            r.body == body,
    {
        Command { tag, body }
    }
}

impl Encoder for Command {
    closed spec fn wire(&self) -> Seq<u8> {
        ((self.tag.wire() + kb(Keyword::KwA(KwA::Sp))) + self.body.wire()) + crlf()
    }

    fn encode_ctx(&self, ctx: &mut EncodeContext) {
        self.tag.encode_ctx(ctx);
        let ghost mid = ctx.items@;
        ctx.write_kw(Keyword::KwA(KwA::Sp));
        self.body.encode_ctx(ctx);
        ctx.write_crlf();
        proof {
            crate::frag_rules::lemma_frags_extended_trans(old(ctx).items@, mid, ctx.items@);
        }
    }
}

} // verus!
