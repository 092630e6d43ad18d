//! The fixed tokens of the wire grammar, as byte sequences.
//!
//! Each token is written with [`EncodeContext::write_kw`] and appears in
//! wire specifications through [`kb`].  The tokens are grouped into a few
//! sub-enums to keep every definition small.

use vstd::prelude::*;

use crate::encode::EncodeContext;

verus! {


/// One group of fixed tokens.
#[derive(Clone, Copy, Debug, PartialEq, Eq)]
pub enum KwA {
    /// ` `
    Sp,
    /// `(`
    LParen,
    /// `)`
    RParen,
    /// `NIL`
    Nil,
    /// `,`
    Comma,
    /// `:`
    Colon,
    /// `*`
    Star,
    /// `.`
    Dot,
    /// `<`
    Lt,
    /// `>`
    Gt,
    /// `[`
    LBracket,
    /// `]`
    RBracket,
    /// `{`
    LBrace,
    /// `}`
    RBrace,
    /// `+`
    Plus,
    /// `-`
    Dash,
    /// `=`
    EqSign,
    /// `\"`
    DQuote,
    /// `\\`
    Backslash,
    /// `* `
    StarSp,
    /// `+ `
    PlusSp,
    /// `CAPABILITY`
    Capability,
    /// `NOOP`
    Noop,
    /// `LOGOUT`
    Logout,
    /// `STARTTLS`
    Starttls,
    /// `AUTHENTICATE`
    Authenticate,
    /// `LOGIN`
    Login,
}

/// The bytes of a token of this group.
pub closed spec fn kwa_bytes(k: KwA) -> Seq<u8> {
    match k {
        KwA::Sp => seq![32u8],
        KwA::LParen => seq![40u8],
        KwA::RParen => seq![41u8],
        KwA::Nil => seq![78u8, 73u8, 76u8],
        KwA::Comma => seq![44u8],
        KwA::Colon => seq![58u8],
        KwA::Star => seq![42u8],
        KwA::Dot => seq![46u8],
        KwA::Lt => seq![60u8],
        KwA::Gt => seq![62u8],
        KwA::LBracket => seq![91u8],
        KwA::RBracket => seq![93u8],
        KwA::LBrace => seq![123u8],
        KwA::RBrace => seq![125u8],
        KwA::Plus => seq![43u8],
        KwA::Dash => seq![45u8],
        KwA::EqSign => seq![61u8],
        KwA::DQuote => seq![34u8],
        KwA::Backslash => seq![92u8],
        KwA::StarSp => seq![42u8, 32u8],
        KwA::PlusSp => seq![43u8, 32u8],
        KwA::Capability => seq![67u8, 65u8, 80u8, 65u8, 66u8, 73u8, 76u8, 73u8, 84u8, 89u8],
        KwA::Noop => seq![78u8, 79u8, 79u8, 80u8],
        KwA::Logout => seq![76u8, 79u8, 71u8, 79u8, 85u8, 84u8],
        KwA::Starttls => seq![83u8, 84u8, 65u8, 82u8, 84u8, 84u8, 76u8, 83u8],
        KwA::Authenticate => seq![65u8, 85u8, 84u8, 72u8, 69u8, 78u8, 84u8, 73u8, 67u8, 65u8, 84u8, 69u8],
        KwA::Login => seq![76u8, 79u8, 71u8, 73u8, 78u8],
    }
}

fn kwa_vec(k: KwA) -> (r: Vec<u8>)
    ensures
        r@ == kwa_bytes(k),
{
    let r: Vec<u8> = match k {
        KwA::Sp => vec![32u8],
        KwA::LParen => vec![40u8],
        KwA::RParen => vec![41u8],
        KwA::Nil => vec![78u8, 73u8, 76u8],
        KwA::Comma => vec![44u8],
        KwA::Colon => vec![58u8],
        KwA::Star => vec![42u8],
        KwA::Dot => vec![46u8],
        KwA::Lt => vec![60u8],
        KwA::Gt => vec![62u8],
        KwA::LBracket => vec![91u8],
        KwA::RBracket => vec![93u8],
        KwA::LBrace => vec![123u8],
        KwA::RBrace => vec![125u8],
        KwA::Plus => vec![43u8],
        KwA::Dash => vec![45u8],
        KwA::EqSign => vec![61u8],
        KwA::DQuote => vec![34u8],
        KwA::Backslash => vec![92u8],
        KwA::StarSp => vec![42u8, 32u8],
        KwA::PlusSp => vec![43u8, 32u8],
        KwA::Capability => vec![67u8, 65u8, 80u8, 65u8, 66u8, 73u8, 76u8, 73u8, 84u8, 89u8],
        KwA::Noop => vec![78u8, 79u8, 79u8, 80u8],
        KwA::Logout => vec![76u8, 79u8, 71u8, 79u8, 85u8, 84u8],
        KwA::Starttls => vec![83u8, 84u8, 65u8, 82u8, 84u8, 84u8, 76u8, 83u8],
        KwA::Authenticate => vec![65u8, 85u8, 84u8, 72u8, 69u8, 78u8, 84u8, 73u8, 67u8, 65u8, 84u8, 69u8],
        KwA::Login => vec![76u8, 79u8, 71u8, 73u8, 78u8],
    };
    proof {
        assert(r@ =~= kwa_bytes(k));
    }
    r
}

/// One group of fixed tokens.
#[derive(Clone, Copy, Debug, PartialEq, Eq)]
pub enum KwB {
    /// `SELECT`
    Select,
    /// `UNSELECT`
    Unselect,
    /// `EXAMINE`
    Examine,
    /// `CREATE`
    Create,
    /// `DELETE`
    Delete,
    /// `RENAME`
    Rename,
    /// `SUBSCRIBE`
    Subscribe,
    /// `UNSUBSCRIBE`
    Unsubscribe,
    /// `LIST`
    List,
    /// `LSUB`
    Lsub,
    /// `STATUS`
    Status,
    /// `APPEND`
    Append,
    /// `CHECK`
    Check,
    /// `CLOSE`
    Close,
    /// `EXPUNGE`
    Expunge,
    /// `SEARCH`
    Search,
    /// `FETCH`
    Fetch,
    /// `STORE`
    Store,
    /// `COPY`
    Copy,
    /// `MOVE`
    Move,
    /// `IDLE`
    Idle,
    /// `ENABLE`
    Enable,
    /// `COMPRESS`
    Compress,
    /// `GETQUOTA`
    Getquota,
    /// `GETQUOTAROOT`
    Getquotaroot,
    /// `SETQUOTA`
    Setquota,
    /// `UID `
    UidSp,
    /// `CHARSET `
    CharsetSp,
}

/// The bytes of a token of this group.
pub closed spec fn kwb_bytes(k: KwB) -> Seq<u8> {
    match k {
        KwB::Select => seq![83u8, 69u8, 76u8, 69u8, 67u8, 84u8],
        KwB::Unselect => seq![85u8, 78u8, 83u8, 69u8, 76u8, 69u8, 67u8, 84u8],
        KwB::Examine => seq![69u8, 88u8, 65u8, 77u8, 73u8, 78u8, 69u8],
        KwB::Create => seq![67u8, 82u8, 69u8, 65u8, 84u8, 69u8],
        KwB::Delete => seq![68u8, 69u8, 76u8, 69u8, 84u8, 69u8],
        KwB::Rename => seq![82u8, 69u8, 78u8, 65u8, 77u8, 69u8],
        KwB::Subscribe => seq![83u8, 85u8, 66u8, 83u8, 67u8, 82u8, 73u8, 66u8, 69u8],
        KwB::Unsubscribe => seq![85u8, 78u8, 83u8, 85u8, 66u8, 83u8, 67u8, 82u8, 73u8, 66u8, 69u8],
        KwB::List => seq![76u8, 73u8, 83u8, 84u8],
        KwB::Lsub => seq![76u8, 83u8, 85u8, 66u8],
        KwB::Status => seq![83u8, 84u8, 65u8, 84u8, 85u8, 83u8],
        KwB::Append => seq![65u8, 80u8, 80u8, 69u8, 78u8, 68u8],
        KwB::Check => seq![67u8, 72u8, 69u8, 67u8, 75u8],
        KwB::Close => seq![67u8, 76u8, 79u8, 83u8, 69u8],
        KwB::Expunge => seq![69u8, 88u8, 80u8, 85u8, 78u8, 71u8, 69u8],
        KwB::Search => seq![83u8, 69u8, 65u8, 82u8, 67u8, 72u8],
        KwB::Fetch => seq![70u8, 69u8, 84u8, 67u8, 72u8],
        KwB::Store => seq![83u8, 84u8, 79u8, 82u8, 69u8],
        KwB::Copy => seq![67u8, 79u8, 80u8, 89u8],
        KwB::Move => seq![77u8, 79u8, 86u8, 69u8],
        KwB::Idle => seq![73u8, 68u8, 76u8, 69u8],
        KwB::Enable => seq![69u8, 78u8, 65u8, 66u8, 76u8, 69u8],
        KwB::Compress => seq![67u8, 79u8, 77u8, 80u8, 82u8, 69u8, 83u8, 83u8],
        KwB::Getquota => seq![71u8, 69u8, 84u8, 81u8, 85u8, 79u8, 84u8, 65u8],
        KwB::Getquotaroot => seq![71u8, 69u8, 84u8, 81u8, 85u8, 79u8, 84u8, 65u8, 82u8, 79u8, 79u8, 84u8],
        KwB::Setquota => seq![83u8, 69u8, 84u8, 81u8, 85u8, 79u8, 84u8, 65u8],
        KwB::UidSp => seq![85u8, 73u8, 68u8, 32u8],
        KwB::CharsetSp => seq![67u8, 72u8, 65u8, 82u8, 83u8, 69u8, 84u8, 32u8],
    }
}

fn kwb_vec(k: KwB) -> (r: Vec<u8>)
    ensures
        r@ == kwb_bytes(k),
{
    let r: Vec<u8> = match k {
        KwB::Select => vec![83u8, 69u8, 76u8, 69u8, 67u8, 84u8],
        KwB::Unselect => vec![85u8, 78u8, 83u8, 69u8, 76u8, 69u8, 67u8, 84u8],
        KwB::Examine => vec![69u8, 88u8, 65u8, 77u8, 73u8, 78u8, 69u8],
        KwB::Create => vec![67u8, 82u8, 69u8, 65u8, 84u8, 69u8],
        KwB::Delete => vec![68u8, 69u8, 76u8, 69u8, 84u8, 69u8],
        KwB::Rename => vec![82u8, 69u8, 78u8, 65u8, 77u8, 69u8],
        KwB::Subscribe => vec![83u8, 85u8, 66u8, 83u8, 67u8, 82u8, 73u8, 66u8, 69u8],
        KwB::Unsubscribe => vec![85u8, 78u8, 83u8, 85u8, 66u8, 83u8, 67u8, 82u8, 73u8, 66u8, 69u8],
        KwB::List => vec![76u8, 73u8, 83u8, 84u8],
        KwB::Lsub => vec![76u8, 83u8, 85u8, 66u8],
        KwB::Status => vec![83u8, 84u8, 65u8, 84u8, 85u8, 83u8],
        KwB::Append => vec![65u8, 80u8, 80u8, 69u8, 78u8, 68u8],
        KwB::Check => vec![67u8, 72u8, 69u8, 67u8, 75u8],
        KwB::Close => vec![67u8, 76u8, 79u8, 83u8, 69u8],
        KwB::Expunge => vec![69u8, 88u8, 80u8, 85u8, 78u8, 71u8, 69u8],
        KwB::Search => vec![83u8, 69u8, 65u8, 82u8, 67u8, 72u8],
        KwB::Fetch => vec![70u8, 69u8, 84u8, 67u8, 72u8],
        KwB::Store => vec![83u8, 84u8, 79u8, 82u8, 69u8],
        KwB::Copy => vec![67u8, 79u8, 80u8, 89u8],
        KwB::Move => vec![77u8, 79u8, 86u8, 69u8],
        KwB::Idle => vec![73u8, 68u8, 76u8, 69u8],
        KwB::Enable => vec![69u8, 78u8, 65u8, 66u8, 76u8, 69u8],
        KwB::Compress => vec![67u8, 79u8, 77u8, 80u8, 82u8, 69u8, 83u8, 83u8],
        KwB::Getquota => vec![71u8, 69u8, 84u8, 81u8, 85u8, 79u8, 84u8, 65u8],
        KwB::Getquotaroot => vec![71u8, 69u8, 84u8, 81u8, 85u8, 79u8, 84u8, 65u8, 82u8, 79u8, 79u8, 84u8],
        KwB::Setquota => vec![83u8, 69u8, 84u8, 81u8, 85u8, 79u8, 84u8, 65u8],
        KwB::UidSp => vec![85u8, 73u8, 68u8, 32u8],
        KwB::CharsetSp => vec![67u8, 72u8, 65u8, 82u8, 83u8, 69u8, 84u8, 32u8],
    };
    proof {
        assert(r@ =~= kwb_bytes(k));
    }
    r
}

/// One group of fixed tokens.
#[derive(Clone, Copy, Debug, PartialEq, Eq)]
pub enum KwC {
    /// `FLAGS`
    Flags,
    /// `.SILENT`
    DotSilent,
    /// `INBOX`
    Inbox,
    /// `MESSAGES`
    Messages,
    /// `RECENT`
    Recent,
    /// `UIDNEXT`
    Uidnext,
    /// `UIDVALIDITY`
    Uidvalidity,
    /// `UNSEEN`
    Unseen,
    /// `DELETED`
    Deleted,
    /// `DELETED-STORAGE`
    DeletedStorage,
    /// `HIGHESTMODSEQ`
    Highestmodseq,
    /// `\\Seen`
    FlagSeen,
    /// `\\Answered`
    FlagAnswered,
    /// `\\Flagged`
    FlagFlagged,
    /// `\\Deleted`
    FlagDeleted,
    /// `\\Draft`
    FlagDraft,
    /// `\\Recent`
    FlagRecent,
    /// `\\*`
    FlagStar,
    /// `\\Noinferiors`
    AttrNoinferiors,
    /// `\\Noselect`
    AttrNoselect,
    /// `\\Marked`
    AttrMarked,
    /// `\\Unmarked`
    AttrUnmarked,
    /// `ALL`
    All,
    /// `ANSWERED`
    Answered,
    /// `BCC`
    Bcc,
    /// `BEFORE`
    Before,
    /// `BODY`
    Body,
}

/// The bytes of a token of this group.
pub closed spec fn kwc_bytes(k: KwC) -> Seq<u8> {
    match k {
        KwC::Flags => seq![70u8, 76u8, 65u8, 71u8, 83u8],
        KwC::DotSilent => seq![46u8, 83u8, 73u8, 76u8, 69u8, 78u8, 84u8],
        KwC::Inbox => seq![73u8, 78u8, 66u8, 79u8, 88u8],
        KwC::Messages => seq![77u8, 69u8, 83u8, 83u8, 65u8, 71u8, 69u8, 83u8],
        KwC::Recent => seq![82u8, 69u8, 67u8, 69u8, 78u8, 84u8],
        KwC::Uidnext => seq![85u8, 73u8, 68u8, 78u8, 69u8, 88u8, 84u8],
        KwC::Uidvalidity => seq![85u8, 73u8, 68u8, 86u8, 65u8, 76u8, 73u8, 68u8, 73u8, 84u8, 89u8],
        KwC::Unseen => seq![85u8, 78u8, 83u8, 69u8, 69u8, 78u8],
        KwC::Deleted => seq![68u8, 69u8, 76u8, 69u8, 84u8, 69u8, 68u8],
        KwC::DeletedStorage => seq![68u8, 69u8, 76u8, 69u8, 84u8, 69u8, 68u8, 45u8, 83u8, 84u8, 79u8, 82u8, 65u8, 71u8, 69u8],
        KwC::Highestmodseq => seq![72u8, 73u8, 71u8, 72u8, 69u8, 83u8, 84u8, 77u8, 79u8, 68u8, 83u8, 69u8, 81u8],
        KwC::FlagSeen => seq![92u8, 83u8, 101u8, 101u8, 110u8],
        KwC::FlagAnswered => seq![92u8, 65u8, 110u8, 115u8, 119u8, 101u8, 114u8, 101u8, 100u8],
        KwC::FlagFlagged => seq![92u8, 70u8, 108u8, 97u8, 103u8, 103u8, 101u8, 100u8],
        KwC::FlagDeleted => seq![92u8, 68u8, 101u8, 108u8, 101u8, 116u8, 101u8, 100u8],
        KwC::FlagDraft => seq![92u8, 68u8, 114u8, 97u8, 102u8, 116u8],
        KwC::FlagRecent => seq![92u8, 82u8, 101u8, 99u8, 101u8, 110u8, 116u8],
        KwC::FlagStar => seq![92u8, 42u8],
        KwC::AttrNoinferiors => seq![92u8, 78u8, 111u8, 105u8, 110u8, 102u8, 101u8, 114u8, 105u8, 111u8, 114u8, 115u8],
        KwC::AttrNoselect => seq![92u8, 78u8, 111u8, 115u8, 101u8, 108u8, 101u8, 99u8, 116u8],
        KwC::AttrMarked => seq![92u8, 77u8, 97u8, 114u8, 107u8, 101u8, 100u8],
        KwC::AttrUnmarked => seq![92u8, 85u8, 110u8, 109u8, 97u8, 114u8, 107u8, 101u8, 100u8],
        KwC::All => seq![65u8, 76u8, 76u8],
        KwC::Answered => seq![65u8, 78u8, 83u8, 87u8, 69u8, 82u8, 69u8, 68u8],
        KwC::Bcc => seq![66u8, 67u8, 67u8],
        KwC::Before => seq![66u8, 69u8, 70u8, 79u8, 82u8, 69u8],
        KwC::Body => seq![66u8, 79u8, 68u8, 89u8],
    }
}

fn kwc_vec(k: KwC) -> (r: Vec<u8>)
    ensures
        r@ == kwc_bytes(k),
{
    let r: Vec<u8> = match k {
        KwC::Flags => vec![70u8, 76u8, 65u8, 71u8, 83u8],
        KwC::DotSilent => vec![46u8, 83u8, 73u8, 76u8, 69u8, 78u8, 84u8],
        KwC::Inbox => vec![73u8, 78u8, 66u8, 79u8, 88u8],
        KwC::Messages => vec![77u8, 69u8, 83u8, 83u8, 65u8, 71u8, 69u8, 83u8],
        KwC::Recent => vec![82u8, 69u8, 67u8, 69u8, 78u8, 84u8],
        KwC::Uidnext => vec![85u8, 73u8, 68u8, 78u8, 69u8, 88u8, 84u8],
        KwC::Uidvalidity => vec![85u8, 73u8, 68u8, 86u8, 65u8, 76u8, 73u8, 68u8, 73u8, 84u8, 89u8],
        KwC::Unseen => vec![85u8, 78u8, 83u8, 69u8, 69u8, 78u8],
        KwC::Deleted => vec![68u8, 69u8, 76u8, 69u8, 84u8, 69u8, 68u8],
        KwC::DeletedStorage => vec![68u8, 69u8, 76u8, 69u8, 84u8, 69u8, 68u8, 45u8, 83u8, 84u8, 79u8, 82u8, 65u8, 71u8, 69u8],
        KwC::Highestmodseq => vec![72u8, 73u8, 71u8, 72u8, 69u8, 83u8, 84u8, 77u8, 79u8, 68u8, 83u8, 69u8, 81u8],
        KwC::FlagSeen => vec![92u8, 83u8, 101u8, 101u8, 110u8],
        KwC::FlagAnswered => vec![92u8, 65u8, 110u8, 115u8, 119u8, 101u8, 114u8, 101u8, 100u8],
        KwC::FlagFlagged => vec![92u8, 70u8, 108u8, 97u8, 103u8, 103u8, 101u8, 100u8],
        KwC::FlagDeleted => vec![92u8, 68u8, 101u8, 108u8, 101u8, 116u8, 101u8, 100u8],
        KwC::FlagDraft => vec![92u8, 68u8, 114u8, 97u8, 102u8, 116u8],
        KwC::FlagRecent => vec![92u8, 82u8, 101u8, 99u8, 101u8, 110u8, 116u8],
        KwC::FlagStar => vec![92u8, 42u8],
        KwC::AttrNoinferiors => vec![92u8, 78u8, 111u8, 105u8, 110u8, 102u8, 101u8, 114u8, 105u8, 111u8, 114u8, 115u8],
        KwC::AttrNoselect => vec![92u8, 78u8, 111u8, 115u8, 101u8, 108u8, 101u8, 99u8, 116u8],
        KwC::AttrMarked => vec![92u8, 77u8, 97u8, 114u8, 107u8, 101u8, 100u8],
        KwC::AttrUnmarked => vec![92u8, 85u8, 110u8, 109u8, 97u8, 114u8, 107u8, 101u8, 100u8],
        KwC::All => vec![65u8, 76u8, 76u8],
        KwC::Answered => vec![65u8, 78u8, 83u8, 87u8, 69u8, 82u8, 69u8, 68u8],
        KwC::Bcc => vec![66u8, 67u8, 67u8],
        KwC::Before => vec![66u8, 69u8, 70u8, 79u8, 82u8, 69u8],
        KwC::Body => vec![66u8, 79u8, 68u8, 89u8],
    };
    proof {
        assert(r@ =~= kwc_bytes(k));
    }
    r
}

/// One group of fixed tokens.
#[derive(Clone, Copy, Debug, PartialEq, Eq)]
pub enum KwD {
    /// `CC`
    Cc,
    /// `FLAGGED`
    Flagged,
    /// `FROM`
    From,
    /// `KEYWORD`
    KeywordTok,
    /// `NEW`
    New,
    /// `OLD`
    Old,
    /// `ON`
    On,
    /// `SEEN`
    Seen,
    /// `SINCE`
    Since,
    /// `SUBJECT`
    Subject,
    /// `TEXT`
    TextTok,
    /// `TO`
    To,
    /// `UNANSWERED`
    Unanswered,
    /// `UNDELETED`
    Undeleted,
    /// `UNFLAGGED`
    Unflagged,
    /// `UNKEYWORD`
    Unkeyword,
    /// `DRAFT`
    Draft,
    /// `HEADER`
    Header,
    /// `LARGER`
    Larger,
    /// `NOT`
    Not,
    /// `OR`
    Or,
    /// `SENTBEFORE`
    Sentbefore,
    /// `SENTON`
    Senton,
    /// `SENTSINCE`
    Sentsince,
    /// `SMALLER`
    Smaller,
    /// `UID`
    Uid,
    /// `UNDRAFT`
    Undraft,
    /// `BODYSTRUCTURE`
    Bodystructure,
}

/// The bytes of a token of this group.
pub closed spec fn kwd_bytes(k: KwD) -> Seq<u8> {
    match k {
        KwD::Cc => seq![67u8, 67u8],
        KwD::Flagged => seq![70u8, 76u8, 65u8, 71u8, 71u8, 69u8, 68u8],
        KwD::From => seq![70u8, 82u8, 79u8, 77u8],
        KwD::KeywordTok => seq![75u8, 69u8, 89u8, 87u8, 79u8, 82u8, 68u8],
        KwD::New => seq![78u8, 69u8, 87u8],
        KwD::Old => seq![79u8, 76u8, 68u8],
        KwD::On => seq![79u8, 78u8],
        KwD::Seen => seq![83u8, 69u8, 69u8, 78u8],
        KwD::Since => seq![83u8, 73u8, 78u8, 67u8, 69u8],
        KwD::Subject => seq![83u8, 85u8, 66u8, 74u8, 69u8, 67u8, 84u8],
        KwD::TextTok => seq![84u8, 69u8, 88u8, 84u8],
        KwD::To => seq![84u8, 79u8],
        KwD::Unanswered => seq![85u8, 78u8, 65u8, 78u8, 83u8, 87u8, 69u8, 82u8, 69u8, 68u8],
        KwD::Undeleted => seq![85u8, 78u8, 68u8, 69u8, 76u8, 69u8, 84u8, 69u8, 68u8],
        KwD::Unflagged => seq![85u8, 78u8, 70u8, 76u8, 65u8, 71u8, 71u8, 69u8, 68u8],
        KwD::Unkeyword => seq![85u8, 78u8, 75u8, 69u8, 89u8, 87u8, 79u8, 82u8, 68u8],
        KwD::Draft => seq![68u8, 82u8, 65u8, 70u8, 84u8],
        KwD::Header => seq![72u8, 69u8, 65u8, 68u8, 69u8, 82u8],
        KwD::Larger => seq![76u8, 65u8, 82u8, 71u8, 69u8, 82u8],
        KwD::Not => seq![78u8, 79u8, 84u8],
        KwD::Or => seq![79u8, 82u8],
        KwD::Sentbefore => seq![83u8, 69u8, 78u8, 84u8, 66u8, 69u8, 70u8, 79u8, 82u8, 69u8],
        KwD::Senton => seq![83u8, 69u8, 78u8, 84u8, 79u8, 78u8],
        KwD::Sentsince => seq![83u8, 69u8, 78u8, 84u8, 83u8, 73u8, 78u8, 67u8, 69u8],
        KwD::Smaller => seq![83u8, 77u8, 65u8, 76u8, 76u8, 69u8, 82u8],
        KwD::Uid => seq![85u8, 73u8, 68u8],
        KwD::Undraft => seq![85u8, 78u8, 68u8, 82u8, 65u8, 70u8, 84u8],
        KwD::Bodystructure => seq![66u8, 79u8, 68u8, 89u8, 83u8, 84u8, 82u8, 85u8, 67u8, 84u8, 85u8, 82u8, 69u8],
    }
}

fn kwd_vec(k: KwD) -> (r: Vec<u8>)
    ensures
        r@ == kwd_bytes(k),
{
    let r: Vec<u8> = match k {
        KwD::Cc => vec![67u8, 67u8],
        KwD::Flagged => vec![70u8, 76u8, 65u8, 71u8, 71u8, 69u8, 68u8],
        KwD::From => vec![70u8, 82u8, 79u8, 77u8],
        KwD::KeywordTok => vec![75u8, 69u8, 89u8, 87u8, 79u8, 82u8, 68u8],
        KwD::New => vec![78u8, 69u8, 87u8],
        KwD::Old => vec![79u8, 76u8, 68u8],
        KwD::On => vec![79u8, 78u8],
        KwD::Seen => vec![83u8, 69u8, 69u8, 78u8],
        KwD::Since => vec![83u8, 73u8, 78u8, 67u8, 69u8],
        KwD::Subject => vec![83u8, 85u8, 66u8, 74u8, 69u8, 67u8, 84u8],
        KwD::TextTok => vec![84u8, 69u8, 88u8, 84u8],
        KwD::To => vec![84u8, 79u8],
        KwD::Unanswered => vec![85u8, 78u8, 65u8, 78u8, 83u8, 87u8, 69u8, 82u8, 69u8, 68u8],
        KwD::Undeleted => vec![85u8, 78u8, 68u8, 69u8, 76u8, 69u8, 84u8, 69u8, 68u8],
        KwD::Unflagged => vec![85u8, 78u8, 70u8, 76u8, 65u8, 71u8, 71u8, 69u8, 68u8],
        KwD::Unkeyword => vec![85u8, 78u8, 75u8, 69u8, 89u8, 87u8, 79u8, 82u8, 68u8],
        KwD::Draft => vec![68u8, 82u8, 65u8, 70u8, 84u8],
        KwD::Header => vec![72u8, 69u8, 65u8, 68u8, 69u8, 82u8],
        KwD::Larger => vec![76u8, 65u8, 82u8, 71u8, 69u8, 82u8],
        KwD::Not => vec![78u8, 79u8, 84u8],
        KwD::Or => vec![79u8, 82u8],
        KwD::Sentbefore => vec![83u8, 69u8, 78u8, 84u8, 66u8, 69u8, 70u8, 79u8, 82u8, 69u8],
        KwD::Senton => vec![83u8, 69u8, 78u8, 84u8, 79u8, 78u8],
        KwD::Sentsince => vec![83u8, 69u8, 78u8, 84u8, 83u8, 73u8, 78u8, 67u8, 69u8],
        KwD::Smaller => vec![83u8, 77u8, 65u8, 76u8, 76u8, 69u8, 82u8],
        KwD::Uid => vec![85u8, 73u8, 68u8],
        KwD::Undraft => vec![85u8, 78u8, 68u8, 82u8, 65u8, 70u8, 84u8],
        KwD::Bodystructure => vec![66u8, 79u8, 68u8, 89u8, 83u8, 84u8, 82u8, 85u8, 67u8, 84u8, 85u8, 82u8, 69u8],
    };
    proof {
        assert(r@ =~= kwd_bytes(k));
    }
    r
}

/// One group of fixed tokens.
#[derive(Clone, Copy, Debug, PartialEq, Eq)]
pub enum KwE {
    /// `ENVELOPE`
    EnvelopeTok,
    /// `INTERNALDATE`
    Internaldate,
    /// `RFC822`
    Rfc822,
    /// `RFC822.HEADER`
    Rfc822Header,
    /// `RFC822.SIZE`
    Rfc822Size,
    /// `RFC822.TEXT`
    Rfc822Text,
    /// `BODY[`
    BodyLBracket,
    /// `BODY.PEEK[`
    BodyPeekLBracket,
    /// `.HEADER`
    DotHeader,
    /// `.TEXT`
    DotText,
    /// `.MIME`
    DotMime,
    /// `HEADER.FIELDS (`
    HeaderFieldsSp,
    /// `HEADER.FIELDS.NOT (`
    HeaderFieldsNotSp,
    /// `.HEADER.FIELDS (`
    DotHeaderFieldsSp,
    /// `.HEADER.FIELDS.NOT (`
    DotHeaderFieldsNotSp,
    /// `FULL`
    Full,
    /// `FAST`
    Fast,
    /// `OK`
    StatusOk,
    /// `NO`
    No,
    /// `BAD`
    Bad,
    /// `BYE`
    Bye,
    /// `PREAUTH`
    Preauth,
    /// `ALERT`
    Alert,
    /// `BADCHARSET`
    Badcharset,
    /// `PARSE`
    ParseTok,
    /// `PERMANENTFLAGS (`
    Permanentflags,
    /// `READ-ONLY`
    ReadOnly,
}

/// The bytes of a token of this group.
pub closed spec fn kwe_bytes(k: KwE) -> Seq<u8> {
    match k {
        KwE::EnvelopeTok => seq![69u8, 78u8, 86u8, 69u8, 76u8, 79u8, 80u8, 69u8],
        KwE::Internaldate => seq![73u8, 78u8, 84u8, 69u8, 82u8, 78u8, 65u8, 76u8, 68u8, 65u8, 84u8, 69u8],
        KwE::Rfc822 => seq![82u8, 70u8, 67u8, 56u8, 50u8, 50u8],
        KwE::Rfc822Header => seq![82u8, 70u8, 67u8, 56u8, 50u8, 50u8, 46u8, 72u8, 69u8, 65u8, 68u8, 69u8, 82u8],
        KwE::Rfc822Size => seq![82u8, 70u8, 67u8, 56u8, 50u8, 50u8, 46u8, 83u8, 73u8, 90u8, 69u8],
        KwE::Rfc822Text => seq![82u8, 70u8, 67u8, 56u8, 50u8, 50u8, 46u8, 84u8, 69u8, 88u8, 84u8],
        KwE::BodyLBracket => seq![66u8, 79u8, 68u8, 89u8, 91u8],
        KwE::BodyPeekLBracket => seq![66u8, 79u8, 68u8, 89u8, 46u8, 80u8, 69u8, 69u8, 75u8, 91u8],
        KwE::DotHeader => seq![46u8, 72u8, 69u8, 65u8, 68u8, 69u8, 82u8],
        KwE::DotText => seq![46u8, 84u8, 69u8, 88u8, 84u8],
        KwE::DotMime => seq![46u8, 77u8, 73u8, 77u8, 69u8],
        KwE::HeaderFieldsSp => seq![72u8, 69u8, 65u8, 68u8, 69u8, 82u8, 46u8, 70u8, 73u8, 69u8, 76u8, 68u8, 83u8, 32u8, 40u8],
        KwE::HeaderFieldsNotSp => seq![72u8, 69u8, 65u8, 68u8, 69u8, 82u8, 46u8, 70u8, 73u8, 69u8, 76u8, 68u8, 83u8, 46u8, 78u8, 79u8, 84u8, 32u8, 40u8],
        KwE::DotHeaderFieldsSp => seq![46u8, 72u8, 69u8, 65u8, 68u8, 69u8, 82u8, 46u8, 70u8, 73u8, 69u8, 76u8, 68u8, 83u8, 32u8, 40u8],
        KwE::DotHeaderFieldsNotSp => seq![46u8, 72u8, 69u8, 65u8, 68u8, 69u8, 82u8, 46u8, 70u8, 73u8, 69u8, 76u8, 68u8, 83u8, 46u8, 78u8, 79u8, 84u8, 32u8, 40u8],
        KwE::Full => seq![70u8, 85u8, 76u8, 76u8],
        KwE::Fast => seq![70u8, 65u8, 83u8, 84u8],
        KwE::StatusOk => seq![79u8, 75u8],
        KwE::No => seq![78u8, 79u8],
        KwE::Bad => seq![66u8, 65u8, 68u8],
        KwE::Bye => seq![66u8, 89u8, 69u8],
        KwE::Preauth => seq![80u8, 82u8, 69u8, 65u8, 85u8, 84u8, 72u8],
        KwE::Alert => seq![65u8, 76u8, 69u8, 82u8, 84u8],
        KwE::Badcharset => seq![66u8, 65u8, 68u8, 67u8, 72u8, 65u8, 82u8, 83u8, 69u8, 84u8],
        KwE::ParseTok => seq![80u8, 65u8, 82u8, 83u8, 69u8],
        KwE::Permanentflags => seq![80u8, 69u8, 82u8, 77u8, 65u8, 78u8, 69u8, 78u8, 84u8, 70u8, 76u8, 65u8, 71u8, 83u8, 32u8, 40u8],
        KwE::ReadOnly => seq![82u8, 69u8, 65u8, 68u8, 45u8, 79u8, 78u8, 76u8, 89u8],
    }
}

fn kwe_vec(k: KwE) -> (r: Vec<u8>)
    ensures
        r@ == kwe_bytes(k),
{
    let r: Vec<u8> = match k {
        KwE::EnvelopeTok => vec![69u8, 78u8, 86u8, 69u8, 76u8, 79u8, 80u8, 69u8],
        KwE::Internaldate => vec![73u8, 78u8, 84u8, 69u8, 82u8, 78u8, 65u8, 76u8, 68u8, 65u8, 84u8, 69u8],
        KwE::Rfc822 => vec![82u8, 70u8, 67u8, 56u8, 50u8, 50u8],
        KwE::Rfc822Header => vec![82u8, 70u8, 67u8, 56u8, 50u8, 50u8, 46u8, 72u8, 69u8, 65u8, 68u8, 69u8, 82u8],
        KwE::Rfc822Size => vec![82u8, 70u8, 67u8, 56u8, 50u8, 50u8, 46u8, 83u8, 73u8, 90u8, 69u8],
        KwE::Rfc822Text => vec![82u8, 70u8, 67u8, 56u8, 50u8, 50u8, 46u8, 84u8, 69u8, 88u8, 84u8],
        KwE::BodyLBracket => vec![66u8, 79u8, 68u8, 89u8, 91u8],
        KwE::BodyPeekLBracket => vec![66u8, 79u8, 68u8, 89u8, 46u8, 80u8, 69u8, 69u8, 75u8, 91u8],
        KwE::DotHeader => vec![46u8, 72u8, 69u8, 65u8, 68u8, 69u8, 82u8],
        KwE::DotText => vec![46u8, 84u8, 69u8, 88u8, 84u8],
        KwE::DotMime => vec![46u8, 77u8, 73u8, 77u8, 69u8],
        KwE::HeaderFieldsSp => vec![72u8, 69u8, 65u8, 68u8, 69u8, 82u8, 46u8, 70u8, 73u8, 69u8, 76u8, 68u8, 83u8, 32u8, 40u8],
        KwE::HeaderFieldsNotSp => vec![72u8, 69u8, 65u8, 68u8, 69u8, 82u8, 46u8, 70u8, 73u8, 69u8, 76u8, 68u8, 83u8, 46u8, 78u8, 79u8, 84u8, 32u8, 40u8],
        KwE::DotHeaderFieldsSp => vec![46u8, 72u8, 69u8, 65u8, 68u8, 69u8, 82u8, 46u8, 70u8, 73u8, 69u8, 76u8, 68u8, 83u8, 32u8, 40u8],
        KwE::DotHeaderFieldsNotSp => vec![46u8, 72u8, 69u8, 65u8, 68u8, 69u8, 82u8, 46u8, 70u8, 73u8, 69u8, 76u8, 68u8, 83u8, 46u8, 78u8, 79u8, 84u8, 32u8, 40u8],
        KwE::Full => vec![70u8, 85u8, 76u8, 76u8],
        KwE::Fast => vec![70u8, 65u8, 83u8, 84u8],
        KwE::StatusOk => vec![79u8, 75u8],
        KwE::No => vec![78u8, 79u8],
        KwE::Bad => vec![66u8, 65u8, 68u8],
        KwE::Bye => vec![66u8, 89u8, 69u8],
        KwE::Preauth => vec![80u8, 82u8, 69u8, 65u8, 85u8, 84u8, 72u8],
        KwE::Alert => vec![65u8, 76u8, 69u8, 82u8, 84u8],
        KwE::Badcharset => vec![66u8, 65u8, 68u8, 67u8, 72u8, 65u8, 82u8, 83u8, 69u8, 84u8],
        KwE::ParseTok => vec![80u8, 65u8, 82u8, 83u8, 69u8],
        KwE::Permanentflags => vec![80u8, 69u8, 82u8, 77u8, 65u8, 78u8, 69u8, 78u8, 84u8, 70u8, 76u8, 65u8, 71u8, 83u8, 32u8, 40u8],
        KwE::ReadOnly => vec![82u8, 69u8, 65u8, 68u8, 45u8, 79u8, 78u8, 76u8, 89u8],
    };
    proof {
        assert(r@ =~= kwe_bytes(k));
    }
    r
}

/// One group of fixed tokens.
#[derive(Clone, Copy, Debug, PartialEq, Eq)]
pub enum KwF {
    /// `READ-WRITE`
    ReadWrite,
    /// `TRYCREATE`
    Trycreate,
    /// `REFERRAL `
    ReferralSp,
    /// `COMPRESSIONACTIVE`
    Compressionactive,
    /// `OVERQUOTA`
    Overquota,
    /// `TOOBIG`
    Toobig,
    /// `ENABLED`
    Enabled,
    /// `QUOTA`
    Quota,
    /// `QUOTAROOT`
    Quotaroot,
    /// `EXISTS`
    Exists,
    /// `Jan`
    Jan,
    /// `Feb`
    Feb,
    /// `Mar`
    Mar,
    /// `Apr`
    Apr,
    /// `May`
    May,
    /// `Jun`
    Jun,
    /// `Jul`
    Jul,
    /// `Aug`
    Aug,
    /// `Sep`
    Sep,
    /// `Oct`
    Oct,
    /// `Nov`
    Nov,
    /// `Dec`
    Dec,
    /// `PLAIN`
    Plain,
    /// `IMAP4REV1`
    Imap4rev1,
    /// `AUTH=`
    AuthEq,
    /// `COMPRESS=`
    CompressEq,
    /// `LITERAL+`
    LiteralPlus,
    /// `DEFLATE`
    Deflate,
}

/// The bytes of a token of this group.
pub closed spec fn kwf_bytes(k: KwF) -> Seq<u8> {
    match k {
        KwF::ReadWrite => seq![82u8, 69u8, 65u8, 68u8, 45u8, 87u8, 82u8, 73u8, 84u8, 69u8],
        KwF::Trycreate => seq![84u8, 82u8, 89u8, 67u8, 82u8, 69u8, 65u8, 84u8, 69u8],
        KwF::ReferralSp => seq![82u8, 69u8, 70u8, 69u8, 82u8, 82u8, 65u8, 76u8, 32u8],
        KwF::Compressionactive => seq![67u8, 79u8, 77u8, 80u8, 82u8, 69u8, 83u8, 83u8, 73u8, 79u8, 78u8, 65u8, 67u8, 84u8, 73u8, 86u8, 69u8],
        KwF::Overquota => seq![79u8, 86u8, 69u8, 82u8, 81u8, 85u8, 79u8, 84u8, 65u8],
        KwF::Toobig => seq![84u8, 79u8, 79u8, 66u8, 73u8, 71u8],
        KwF::Enabled => seq![69u8, 78u8, 65u8, 66u8, 76u8, 69u8, 68u8],
        KwF::Quota => seq![81u8, 85u8, 79u8, 84u8, 65u8],
        KwF::Quotaroot => seq![81u8, 85u8, 79u8, 84u8, 65u8, 82u8, 79u8, 79u8, 84u8],
        KwF::Exists => seq![69u8, 88u8, 73u8, 83u8, 84u8, 83u8],
        KwF::Jan => seq![74u8, 97u8, 110u8],
        KwF::Feb => seq![70u8, 101u8, 98u8],
        KwF::Mar => seq![77u8, 97u8, 114u8],
        KwF::Apr => seq![65u8, 112u8, 114u8],
        KwF::May => seq![77u8, 97u8, 121u8],
        KwF::Jun => seq![74u8, 117u8, 110u8],
        KwF::Jul => seq![74u8, 117u8, 108u8],
        KwF::Aug => seq![65u8, 117u8, 103u8],
        KwF::Sep => seq![83u8, 101u8, 112u8],
        KwF::Oct => seq![79u8, 99u8, 116u8],
        KwF::Nov => seq![78u8, 111u8, 118u8],
        KwF::Dec => seq![68u8, 101u8, 99u8],
        KwF::Plain => seq![80u8, 76u8, 65u8, 73u8, 78u8],
        KwF::Imap4rev1 => seq![73u8, 77u8, 65u8, 80u8, 52u8, 82u8, 69u8, 86u8, 49u8],
        KwF::AuthEq => seq![65u8, 85u8, 84u8, 72u8, 61u8],
        KwF::CompressEq => seq![67u8, 79u8, 77u8, 80u8, 82u8, 69u8, 83u8, 83u8, 61u8],
        KwF::LiteralPlus => seq![76u8, 73u8, 84u8, 69u8, 82u8, 65u8, 76u8, 43u8],
        KwF::Deflate => seq![68u8, 69u8, 70u8, 76u8, 65u8, 84u8, 69u8],
    }
}

fn kwf_vec(k: KwF) -> (r: Vec<u8>)
    ensures
        r@ == kwf_bytes(k),
{
    let r: Vec<u8> = match k {
        KwF::ReadWrite => vec![82u8, 69u8, 65u8, 68u8, 45u8, 87u8, 82u8, 73u8, 84u8, 69u8],
        KwF::Trycreate => vec![84u8, 82u8, 89u8, 67u8, 82u8, 69u8, 65u8, 84u8, 69u8],
        KwF::ReferralSp => vec![82u8, 69u8, 70u8, 69u8, 82u8, 82u8, 65u8, 76u8, 32u8],
        KwF::Compressionactive => vec![67u8, 79u8, 77u8, 80u8, 82u8, 69u8, 83u8, 83u8, 73u8, 79u8, 78u8, 65u8, 67u8, 84u8, 73u8, 86u8, 69u8],
        KwF::Overquota => vec![79u8, 86u8, 69u8, 82u8, 81u8, 85u8, 79u8, 84u8, 65u8],
        KwF::Toobig => vec![84u8, 79u8, 79u8, 66u8, 73u8, 71u8],
        KwF::Enabled => vec![69u8, 78u8, 65u8, 66u8, 76u8, 69u8, 68u8],
        KwF::Quota => vec![81u8, 85u8, 79u8, 84u8, 65u8],
        KwF::Quotaroot => vec![81u8, 85u8, 79u8, 84u8, 65u8, 82u8, 79u8, 79u8, 84u8],
        KwF::Exists => vec![69u8, 88u8, 73u8, 83u8, 84u8, 83u8],
        KwF::Jan => vec![74u8, 97u8, 110u8],
        KwF::Feb => vec![70u8, 101u8, 98u8],
        KwF::Mar => vec![77u8, 97u8, 114u8],
        KwF::Apr => vec![65u8, 112u8, 114u8],
        KwF::May => vec![77u8, 97u8, 121u8],
        KwF::Jun => vec![74u8, 117u8, 110u8],
        KwF::Jul => vec![74u8, 117u8, 108u8],
        KwF::Aug => vec![65u8, 117u8, 103u8],
        KwF::Sep => vec![83u8, 101u8, 112u8],
        KwF::Oct => vec![79u8, 99u8, 116u8],
        KwF::Nov => vec![78u8, 111u8, 118u8],
        KwF::Dec => vec![68u8, 101u8, 99u8],
        KwF::Plain => vec![80u8, 76u8, 65u8, 73u8, 78u8],
        KwF::Imap4rev1 => vec![73u8, 77u8, 65u8, 80u8, 52u8, 82u8, 69u8, 86u8, 49u8],
        KwF::AuthEq => vec![65u8, 85u8, 84u8, 72u8, 61u8],
        KwF::CompressEq => vec![67u8, 79u8, 77u8, 80u8, 82u8, 69u8, 83u8, 83u8, 61u8],
        KwF::LiteralPlus => vec![76u8, 73u8, 84u8, 69u8, 82u8, 65u8, 76u8, 43u8],
        KwF::Deflate => vec![68u8, 69u8, 70u8, 76u8, 65u8, 84u8, 69u8],
    };
    proof {
        assert(r@ =~= kwf_bytes(k));
    }
    r
}

/// A fixed token of the grammar: a verb, separator or punctuation mark.
#[derive(Clone, Copy, Debug, PartialEq, Eq)]
pub enum Keyword {
    KwA(KwA),
    KwB(KwB),
    KwC(KwC),
    KwD(KwD),
    KwE(KwE),
    KwF(KwF),
}

/// The bytes of a token.
pub closed spec fn kb(k: Keyword) -> Seq<u8> {
    match k {
        Keyword::KwA(x) => kwa_bytes(x),
        Keyword::KwB(x) => kwb_bytes(x),
        Keyword::KwC(x) => kwc_bytes(x),
        Keyword::KwD(x) => kwd_bytes(x),
        Keyword::KwE(x) => kwe_bytes(x),
        Keyword::KwF(x) => kwf_bytes(x),
    }
}

/// The bytes of a token, as a vector (for separators handed to joins).
pub fn kw_vec(k: Keyword) -> (r: Vec<u8>)
    ensures
        r@ == kb(k),
{
    match k {
        Keyword::KwA(x) => kwa_vec(x),
        Keyword::KwB(x) => kwb_vec(x),
        Keyword::KwC(x) => kwc_vec(x),
        Keyword::KwD(x) => kwd_vec(x),
        Keyword::KwE(x) => kwe_vec(x),
        Keyword::KwF(x) => kwf_vec(x),
    }
}

impl EncodeContext {
    /// Append a fixed token of the grammar.
    pub fn write_kw(&mut self, k: Keyword)
        ensures
            final(self).items@ == old(self).items@,
            final(self).accumulator@ == old(self).accumulator@ + kb(k),
            final(self).wire() == old(self).wire() + kb(k),
    {
        let v = kw_vec(k);
        self.write_bytes(v.as_slice());
    }
}

} // verus!
