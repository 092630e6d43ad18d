//! IMAP's core string types.
//!
//! Each type stores the raw bytes of its content and enforces its charset
//! at construction, so that every constructible value has a defined
//! encoding:
//!
//! ```text
//!        AString            NString (Option<IString>)
//!        /     \                |
//!    AtomExt   IString ---------+
//!              /    \
//!         Literal  Quoted
//! ```

use vstd::prelude::*;

use crate::encode::{EncodeContext, Encoder, Fragment, LiteralMode};
use crate::kw::{kb, Keyword, KwA, KwB, KwC, KwD, KwE, KwF};
use crate::numfmt::dec_digits;

verus! {

broadcast use {
    crate::seqext::lemma_concat_assoc,
    crate::seqext::lemma_concat_empty_right,
    crate::seqext::lemma_concat_empty_left,
    crate::frag_rules::lemma_frags_extended_trans,
    crate::frag_rules::lemma_frags_extended_refl,
};

// ---- Byte classes of the grammar ---------------------------------------

/// `ATOM-CHAR`: no control bytes, no space, none of the atom specials.
pub open spec fn is_atom_byte(b: u8) -> bool {
    &&& 0x20 < b < 0x7f
    &&& b != 40u8
    &&& b != 41u8
    &&& b != 123u8
    &&& b != 37u8
    &&& b != 42u8
    &&& b != 34u8
    &&& b != 92u8
    &&& b != 93u8
}

/// `ASTRING-CHAR`: an atom byte or `]`.
pub open spec fn is_astring_byte(b: u8) -> bool {
    is_atom_byte(b) || b == 93u8
}

/// A tag byte: an `ASTRING-CHAR` other than `+`.
pub open spec fn is_tag_byte(b: u8) -> bool {
    is_astring_byte(b) && b != 43u8
}

/// `TEXT-CHAR`: any 7-bit byte except NUL, CR and LF.
pub open spec fn is_text_byte(b: u8) -> bool {
    0x01 <= b <= 0x7f && b != 13u8 && b != 10u8
}

/// A byte that may appear (possibly escaped) inside a quoted string.
pub open spec fn is_quotable_byte(b: u8) -> bool {
    is_text_byte(b)
}

/// `list-char`: an atom byte, a list wildcard, or `]`.
pub open spec fn is_list_byte(b: u8) -> bool {
    is_atom_byte(b) || b == 37u8 || b == 42u8 || b == 93u8
}

/// The byte classes above, as a value, so one checker serves all types.
#[derive(Clone, Copy, Debug, PartialEq, Eq)]
pub enum ByteClass {
    Atom,
    Astring,
    TagLike,
    Text,
    Quotable,
    ListLike,
}

/// Which bytes the class admits.
pub open spec fn byte_in_class(k: ByteClass, b: u8) -> bool {
    match k {
        ByteClass::Atom => is_atom_byte(b),
        ByteClass::Astring => is_astring_byte(b),
        ByteClass::TagLike => is_tag_byte(b),
        ByteClass::Text => is_text_byte(b),
        ByteClass::Quotable => is_quotable_byte(b),
        ByteClass::ListLike => is_list_byte(b),
    }
}

pub(crate) fn byte_allowed(k: ByteClass, b: u8) -> (r: bool)
    ensures
        r == byte_in_class(k, b),
{
    let atom: bool = 0x20 < b && b < 0x7f && b != 40u8 && b != 41u8 && b != 123u8 && b != 37u8
        && b != 42u8 && b != 34u8 && b != 92u8 && b != 93u8;
    match k {
        ByteClass::Atom => atom,
        ByteClass::Astring => atom || b == 93u8,
        ByteClass::TagLike => (atom || b == 93u8) && b != 43u8,
        ByteClass::Text => 0x01 <= b && b <= 0x7f && b != 13u8 && b != 10u8,
        ByteClass::Quotable => 0x01 <= b && b <= 0x7f && b != 13u8 && b != 10u8,
        ByteClass::ListLike => atom || b == 37u8 || b == 42u8 || b == 93u8,
    }
}

/// Whether every byte of `s` is admitted by the class.
pub open spec fn all_in_class(k: ByteClass, s: Seq<u8>) -> bool {
    forall|i: int| 0 <= i < s.len() ==> byte_in_class(k, s[i])
}

pub(crate) fn bytes_all_in_class(k: ByteClass, b: &[u8]) -> (r: bool)
    ensures
        r == all_in_class(k, b@),
{
    let n: usize = b.len();
    let mut i: usize = 0;
    while i < n
        invariant
            n == b@.len(),
            0 <= i <= n,
            forall|j: int| 0 <= j < i ==> byte_in_class(k, b@[j]),
        decreases n - i,
    {
        let x: u8 = *vstd::slice::slice_index_get(b, i);
        if !byte_allowed(k, x) {
            return false;
        }
        i = i + 1;
    }
    true
}

// ---- Atom and AtomExt ---------------------------------------------------

/// Why an atom-like or text-like value was rejected.
#[derive(Clone, Copy, Debug, PartialEq, Eq)]
pub enum CharsetError {
    /// The value was empty where at least one byte is required.
    Empty,
    /// A byte outside the type's charset occurred.
    Invalid,
}

/// A well-formed atom: at least one byte, all in the atom charset.
pub open spec fn atom_wf(s: Seq<u8>) -> bool {
    s.len() > 0 && all_in_class(ByteClass::Atom, s)
}

/// A well-formed extended atom: at least one byte, all `ASTRING-CHAR`s.
pub open spec fn atom_ext_wf(s: Seq<u8>) -> bool {
    s.len() > 0 && all_in_class(ByteClass::Astring, s)
}

/// A well-formed tag: at least one byte, all tag bytes.
pub open spec fn tag_wf(s: Seq<u8>) -> bool {
    s.len() > 0 && all_in_class(ByteClass::TagLike, s)
}

/// Well-formed response text: at least one byte, all `TEXT-CHAR`s.
pub open spec fn text_wf(s: Seq<u8>) -> bool {
    s.len() > 0 && all_in_class(ByteClass::Text, s)
}

/// Well-formed quoted content: every byte quotable (possibly after escaping).
pub open spec fn quoted_wf(s: Seq<u8>) -> bool {
    all_in_class(ByteClass::Quotable, s)
}

/// An atom: one or more bytes of the restricted atom charset, encoded raw.
#[derive(Clone, Debug, PartialEq, Eq)]
pub struct Atom {
    data: Vec<u8>,
}

impl View for Atom {
    type V = Seq<u8>;

    closed spec fn view(&self) -> Seq<u8> {
        self.data@
    }
}

impl Atom {
    pub fn from_bytes(b: &[u8]) -> (r: Result<Atom, CharsetError>)
        ensures
            r is Ok <==> atom_wf(b@),
            r matches Ok(a) ==> a@ == b@,
            r == Err::<Atom, CharsetError>(CharsetError::Empty) <==> b@.len() == 0,
    {
        if b.len() == 0 {
            Err(CharsetError::Empty)
        } else if bytes_all_in_class(ByteClass::Atom, b) {
            Ok(Atom { data: vstd::slice::slice_to_vec(b) })
        } else {
            Err(CharsetError::Invalid)
        }
    }

    pub fn as_bytes(&self) -> (r: &[u8])
        ensures
            r@ == self@,
    {
        self.data.as_slice()
    }
}

impl Encoder for Atom {
    closed spec fn wire(&self) -> Seq<u8> {
        self@
    }

    fn encode_ctx(&self, ctx: &mut EncodeContext) {
        ctx.write_bytes(self.data.as_slice());
    }
}

/// An atom over the broader `ASTRING-CHAR` charset, encoded raw.
#[derive(Clone, Debug, PartialEq, Eq)]
pub struct AtomExt {
    data: Vec<u8>,
}

impl View for AtomExt {
    type V = Seq<u8>;

    closed spec fn view(&self) -> Seq<u8> {
        self.data@
    }
}

impl AtomExt {
    pub fn from_bytes(b: &[u8]) -> (r: Result<AtomExt, CharsetError>)
        ensures
            r is Ok <==> atom_ext_wf(b@),
            r matches Ok(a) ==> a@ == b@,
            r == Err::<AtomExt, CharsetError>(CharsetError::Empty) <==> b@.len() == 0,
    {
        if b.len() == 0 {
            Err(CharsetError::Empty)
        } else if bytes_all_in_class(ByteClass::Astring, b) {
            Ok(AtomExt { data: vstd::slice::slice_to_vec(b) })
        } else {
            Err(CharsetError::Invalid)
        }
    }

    pub fn as_bytes(&self) -> (r: &[u8])
        ensures
            r@ == self@,
    {
        self.data.as_slice()
    }
}

impl Encoder for AtomExt {
    closed spec fn wire(&self) -> Seq<u8> {
        self@
    }

    fn encode_ctx(&self, ctx: &mut EncodeContext) {
        ctx.write_bytes(self.data.as_slice());
    }
}

// ---- Tag and Text -------------------------------------------------------

/// A command tag: printable, no whitespace, no `+`.  Encoded raw.
#[derive(Clone, Debug, PartialEq, Eq)]
pub struct Tag {
    data: Vec<u8>,
}

impl View for Tag {
    type V = Seq<u8>;

    closed spec fn view(&self) -> Seq<u8> {
        self.data@
    }
}

impl Tag {
    pub fn from_bytes(b: &[u8]) -> (r: Result<Tag, CharsetError>)
        ensures
            r is Ok <==> tag_wf(b@),
            r matches Ok(a) ==> a@ == b@,
            r == Err::<Tag, CharsetError>(CharsetError::Empty) <==> b@.len() == 0,
    {
        if b.len() == 0 {
            Err(CharsetError::Empty)
        } else if bytes_all_in_class(ByteClass::TagLike, b) {
            Ok(Tag { data: vstd::slice::slice_to_vec(b) })
        } else {
            Err(CharsetError::Invalid)
        }
    }

    pub fn as_bytes(&self) -> (r: &[u8])
        ensures
            r@ == self@,
    {
        self.data.as_slice()
    }
}

impl Encoder for Tag {
    closed spec fn wire(&self) -> Seq<u8> {
        self@
    }

    fn encode_ctx(&self, ctx: &mut EncodeContext) {
        ctx.write_bytes(self.data.as_slice());
    }
}

/// Human-readable response text: non-empty, no CR or LF.  Encoded raw.
#[derive(Clone, Debug, PartialEq, Eq)]
pub struct Text {
    data: Vec<u8>,
}

impl View for Text {
    type V = Seq<u8>;

    closed spec fn view(&self) -> Seq<u8> {
        self.data@
    }
}

impl Text {
    pub fn from_bytes(b: &[u8]) -> (r: Result<Text, CharsetError>)
        ensures
            r is Ok <==> text_wf(b@),
            r matches Ok(a) ==> a@ == b@,
            r == Err::<Text, CharsetError>(CharsetError::Empty) <==> b@.len() == 0,
    {
        if b.len() == 0 {
            Err(CharsetError::Empty)
        } else if bytes_all_in_class(ByteClass::Text, b) {
            Ok(Text { data: vstd::slice::slice_to_vec(b) })
        } else {
            Err(CharsetError::Invalid)
        }
    }

    pub fn as_bytes(&self) -> (r: &[u8])
        ensures
            r@ == self@,
    {
        self.data.as_slice()
    }
}

impl Encoder for Text {
    closed spec fn wire(&self) -> Seq<u8> {
        self@
    }

    fn encode_ctx(&self, ctx: &mut EncodeContext) {
        ctx.write_bytes(self.data.as_slice());
    }
}



// ---- Quoted -------------------------------------------------------------

/// The escape of one byte inside a quoted string: `\` before `"` and `\`,
/// every other byte unchanged.
pub open spec fn escaped_byte(b: u8) -> Seq<u8> {
    if b == 34u8 || b == 92u8 {
        seq![92u8, b]
    } else {
        seq![b]
    }
}

/// The escape of a byte sequence inside a quoted string.
pub closed spec fn escaped(s: Seq<u8>) -> Seq<u8>
    decreases s.len(),
{
    if s.len() == 0 {
        Seq::empty()
    } else {
        escaped(s.drop_last()) + escaped_byte(s.last())
    }
}

/// Escaping distributes over appending one byte.
proof fn lemma_escaped_take_snoc(s: Seq<u8>, i: int)
    requires
        0 <= i < s.len(),
    ensures
        escaped(s.take(i + 1)) == escaped(s.take(i)) + escaped_byte(s[i]),
{
    assert(s.take(i + 1).drop_last() =~= s.take(i));
    assert(s.take(i + 1).last() == s[i]);
}

impl EncodeContext {
    /// Append `b` with quoted-string escaping.
    pub(crate) fn write_escaped(&mut self, b: &[u8])
        ensures
            final(self).items@ == old(self).items@,
            final(self).wire() == old(self).wire() + escaped(b@),
    {
        let n: usize = b.len();
        let mut i: usize = 0;
        proof {
            assert(b@.take(0) =~= Seq::<u8>::empty());
        }
        while i < n
            invariant
                n == b@.len(),
                0 <= i <= n,
                self.items@ == old(self).items@,
                self.wire() == old(self).wire() + escaped(b@.take(i as int)),
            decreases n - i,
        {
            let x: u8 = *vstd::slice::slice_index_get(b, i);
            proof {
                lemma_escaped_take_snoc(b@, i as int);
            }
            if x == 34 || x == 92 {
                let a: [u8; 2] = [92, x];
                proof {
                    assert(a@ =~= escaped_byte(x));
                }
                self.write_bytes(a.as_slice());
            } else {
                let a: [u8; 1] = [x];
                proof {
                    assert(a@ =~= escaped_byte(x));
                }
                self.write_bytes(a.as_slice());
            }
            i = i + 1;
        }
        proof {
            assert(b@.take(n as int) =~= b@);
        }
    }
}

/// A quoted string: printable text without CR or LF, sent between double
/// quotes with `"` and `\` backslash-escaped.
#[derive(Clone, Debug, PartialEq, Eq)]
pub struct Quoted {
    data: Vec<u8>,
}

impl View for Quoted {
    type V = Seq<u8>;

    closed spec fn view(&self) -> Seq<u8> {
        self.data@
    }
}

impl Quoted {
    pub fn from_bytes(b: &[u8]) -> (r: Result<Quoted, CharsetError>)
        ensures
            r is Ok <==> quoted_wf(b@),
            r matches Ok(a) ==> a@ == b@,
    {
        if bytes_all_in_class(ByteClass::Quotable, b) {
            Ok(Quoted { data: vstd::slice::slice_to_vec(b) })
        } else {
            Err(CharsetError::Invalid)
        }
    }

    pub fn as_bytes(&self) -> (r: &[u8])
        ensures
            r@ == self@,
    {
        self.data.as_slice()
    }
}

impl Encoder for Quoted {
    closed spec fn wire(&self) -> Seq<u8> {
        (kb(Keyword::KwA(KwA::DQuote)) + escaped(self@)) + kb(Keyword::KwA(KwA::DQuote))
    }

    fn encode_ctx(&self, ctx: &mut EncodeContext) {
        ctx.write_kw(Keyword::KwA(KwA::DQuote));
        ctx.write_escaped(self.data.as_slice());
        ctx.write_kw(Keyword::KwA(KwA::DQuote));
    }
}

/// A single quoted character, escaped like a byte inside a quoted string.
#[derive(Clone, Copy, Debug, PartialEq, Eq)]
pub struct QuotedChar {
    byte: u8,
}

impl QuotedChar {
    /// The byte the value stands for.
    pub closed spec fn spec_byte(&self) -> u8 {
        self.byte
    }

    pub fn from_byte(b: u8) -> (r: Result<QuotedChar, CharsetError>)
        ensures
            r is Ok <==> is_quotable_byte(b),
            r matches Ok(q) ==> q.spec_byte() == b,
    {
        if byte_allowed(ByteClass::Quotable, b) {
            Ok(QuotedChar { byte: b })
        } else {
            Err(CharsetError::Invalid)
        }
    }
}

impl Encoder for QuotedChar {
    closed spec fn wire(&self) -> Seq<u8> {
        escaped_byte(self.byte)
    }

    fn encode_ctx(&self, ctx: &mut EncodeContext) {
        if self.byte == 34 || self.byte == 92 {
            let a: [u8; 2] = [92, self.byte];
            proof {
                assert(a@ =~= escaped_byte(self.byte));
            }
            ctx.write_bytes(a.as_slice());
        } else {
            let a: [u8; 1] = [self.byte];
            proof {
                assert(a@ =~= escaped_byte(self.byte));
            }
            ctx.write_bytes(a.as_slice());
        }
    }
}

// ---- Literal ------------------------------------------------------------

/// A literal: arbitrary bytes, announced as `{N}` (or `{N+}` when
/// non-synchronising) at the end of a line.  This is the one leaf rule that
/// produces fragment boundaries.
#[derive(Clone, Debug, PartialEq, Eq)]
pub struct Literal {
    data: Vec<u8>,
    mode: LiteralMode,
}

impl View for Literal {
    type V = Seq<u8>;

    closed spec fn view(&self) -> Seq<u8> {
        self.data@
    }
}

impl Literal {
    pub closed spec fn spec_mode(&self) -> LiteralMode {
        self.mode
    }

    /// Any bytes form a literal; that is the point of the form.
    pub fn new(data: Vec<u8>, mode: LiteralMode) -> (r: Literal)
        ensures
            r@ == data@,
            r.spec_mode() == mode,
    {
        Literal { data, mode }
    }

    pub fn as_bytes(&self) -> (r: &[u8])
        ensures
            r@ == self@,
    {
        self.data.as_slice()
    }

    pub fn mode(&self) -> (r: LiteralMode)
        ensures
            r == self.spec_mode(),
    {
        self.mode
    }
}

impl Literal {
    /// Write this literal into the context: the announcement ends the
    /// current line, which is flushed, and the octets follow as a fragment
    /// of their own.  This is the one rule that creates fragment
    /// boundaries, so the contract pins them exactly: the fragment list
    /// grows by the flushed line (the old accumulator ending in the
    /// announcement) and then the literal body with this literal's mode,
    /// and the accumulator is left empty.
    pub fn write_framed(&self, ctx: &mut EncodeContext)
        ensures
            final(ctx).wire() == old(ctx).wire() + self.wire(),
            final(ctx).items@.len() == old(ctx).items@.len() + 2,
            final(ctx).items@.take(old(ctx).items@.len() as int) == old(ctx).items@,
            crate::encode::frag_mode(final(ctx).items@[old(ctx).items@.len() as int]) is None,
            crate::encode::frag_data(final(ctx).items@[old(ctx).items@.len() as int]) == old(
                ctx,
            ).accumulator@ + crate::frag_rules::announcement(self@.len(), self.spec_mode()),
            crate::encode::frag_mode(final(ctx).items@[old(ctx).items@.len() as int + 1]) == Some(
                self.spec_mode(),
            ),
            crate::encode::frag_data(final(ctx).items@[old(ctx).items@.len() as int + 1]) == self@,
            final(ctx).accumulator@ == Seq::<u8>::empty(),
            crate::frag_rules::frags_extended(old(ctx).items@, final(ctx).items@),
    {
        let ghost items0 = ctx.items@;
        let ghost acc0 = ctx.accumulator@;
        let open_b: [u8; 1] = [123];
        ctx.write_bytes(open_b.as_slice());
        ctx.write_u64(self.data.len() as u64);
        match self.mode {
            LiteralMode::Sync => {
                let close_b: [u8; 3] = [125, 13, 10];
                ctx.write_bytes(close_b.as_slice());
            },
            LiteralMode::NonSync => {
                let close_b: [u8; 4] = [43, 125, 13, 10];
                ctx.write_bytes(close_b.as_slice());
            },
        }
        proof {
            assert(ctx.accumulator@ =~= acc0 + crate::frag_rules::announcement(
                self@.len(),
                self.mode,
            ));
        }
        ctx.push_line();
        ctx.write_bytes(self.data.as_slice());
        ctx.push_literal(self.mode);
        proof {
            reveal(crate::frag_rules::literal_discipline);
            reveal(crate::frag_rules::frags_extended);
            let ann = crate::frag_rules::announcement(self@.len(), self.mode);
            let delta = ctx.items@.skip(items0.len() as int);
            assert(ctx.items@.take(items0.len() as int) =~= items0);
            assert(delta.len() == 2);
            assert(delta[0] is Line);
            assert(crate::encode::frag_data(delta[0]) == acc0 + ann);
            assert(delta[1] is Literal);
            assert((acc0 + ann).skip(acc0.len() as int) =~= ann);
            assert(crate::frag_rules::line_announces(delta[0], delta[1]));
            assert(crate::frag_rules::literal_discipline(delta));
            assert(ctx.items@[items0.len() as int] == delta[0]);
            assert(ctx.items@[items0.len() as int + 1] == delta[1]);
        }
    }
}

impl Encoder for Literal {
    closed spec fn wire(&self) -> Seq<u8> {
        crate::frag_rules::announcement(self@.len(), self.mode) + self@
    }

    fn encode_ctx(&self, ctx: &mut EncodeContext) {
        self.write_framed(ctx);
    }
}

// ---- The string unions --------------------------------------------------

/// A quoted string or a literal.
#[derive(Clone, Debug, PartialEq, Eq)]
pub enum IString {
    Quoted(Quoted),
    Literal(Literal),
}

impl Encoder for IString {
    closed spec fn wire(&self) -> Seq<u8> {
        match self {
            IString::Quoted(q) => q.wire(),
            IString::Literal(l) => l.wire(),
        }
    }

    fn encode_ctx(&self, ctx: &mut EncodeContext) {
        match self {
            IString::Quoted(q) => q.encode_ctx(ctx),
            IString::Literal(l) => l.encode_ctx(ctx),
        }
    }
}

/// An extended atom or a string.
#[derive(Clone, Debug, PartialEq, Eq)]
pub enum AString {
    Atom(AtomExt),
    String(IString),
}

impl Encoder for AString {
    closed spec fn wire(&self) -> Seq<u8> {
        match self {
            AString::Atom(a) => a.wire(),
            AString::String(s) => s.wire(),
        }
    }

    fn encode_ctx(&self, ctx: &mut EncodeContext) {
        match self {
            AString::Atom(a) => a.encode_ctx(ctx),
            AString::String(s) => s.encode_ctx(ctx),
        }
    }
}

/// An optional string: `NIL` when absent.
#[derive(Clone, Debug, PartialEq, Eq)]
pub struct NString(pub Option<IString>);

impl Encoder for NString {
    closed spec fn wire(&self) -> Seq<u8> {
        match self.0 {
            Some(s) => s.wire(),
            None => kb(Keyword::KwA(KwA::Nil)),
        }
    }

    fn encode_ctx(&self, ctx: &mut EncodeContext) {
        match &self.0 {
            Some(s) => s.encode_ctx(ctx),
            None => ctx.write_kw(Keyword::KwA(KwA::Nil)),
        }
    }
}

/// A charset name in SEARCH: an atom or a quoted string.
#[derive(Clone, Debug, PartialEq, Eq)]
pub enum Charset {
    Atom(Atom),
    Quoted(Quoted),
}

impl Encoder for Charset {
    closed spec fn wire(&self) -> Seq<u8> {
        match self {
            Charset::Atom(a) => a.wire(),
            Charset::Quoted(q) => q.wire(),
        }
    }

    fn encode_ctx(&self, ctx: &mut EncodeContext) {
        match self {
            Charset::Atom(a) => a.encode_ctx(ctx),
            Charset::Quoted(q) => q.encode_ctx(ctx),
        }
    }
}

/// A LIST/LSUB pattern token: atom bytes plus the `%` and `*` wildcards.
#[derive(Clone, Debug, PartialEq, Eq)]
pub struct ListCharString {
    data: Vec<u8>,
}

impl View for ListCharString {
    type V = Seq<u8>;

    closed spec fn view(&self) -> Seq<u8> {
        self.data@
    }
}

/// A well-formed list token: at least one byte, all list bytes.
pub open spec fn list_char_string_wf(s: Seq<u8>) -> bool {
    s.len() > 0 && all_in_class(ByteClass::ListLike, s)
}

impl ListCharString {
    pub fn from_bytes(b: &[u8]) -> (r: Result<ListCharString, CharsetError>)
        ensures
            r is Ok <==> list_char_string_wf(b@),
            r matches Ok(a) ==> a@ == b@,
            r == Err::<ListCharString, CharsetError>(CharsetError::Empty) <==> b@.len() == 0,
    {
        if b.len() == 0 {
            Err(CharsetError::Empty)
        } else if bytes_all_in_class(ByteClass::ListLike, b) {
            Ok(ListCharString { data: vstd::slice::slice_to_vec(b) })
        } else {
            Err(CharsetError::Invalid)
        }
    }

    pub fn as_bytes(&self) -> (r: &[u8])
        ensures
            r@ == self@,
    {
        self.data.as_slice()
    }
}

impl Encoder for ListCharString {
    closed spec fn wire(&self) -> Seq<u8> {
        self@
    }

    fn encode_ctx(&self, ctx: &mut EncodeContext) {
        ctx.write_bytes(self.data.as_slice());
    }
}

} // verus!
