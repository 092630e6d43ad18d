//! The fragmenting encoder.
//!
//! Messages are serialised through an [`EncodeContext`]: leaf rules append
//! bytes to an accumulator, and every literal flushes the accumulator as a
//! [`Fragment::Line`] followed by a [`Fragment::Literal`] carrying the
//! literal bytes.  The concatenation of all fragment payloads is the exact
//! on-wire encoding, available directly through `dump`.

use base64::Engine;
use crate::frag_rules::{frags_extended, fragment_stream_wf, lemma_frags_extended_trans, lemma_stream_wf_from_discipline, literal_discipline};
use crate::kw::{KwA, KwB, KwC, KwD, KwE, KwF};
use vstd::prelude::*;

verus! {

broadcast use {
    crate::seqext::lemma_concat_assoc,
    crate::seqext::lemma_concat_empty_right,
    crate::seqext::lemma_concat_empty_left,
    crate::frag_rules::lemma_frags_extended_trans,
    crate::frag_rules::lemma_frags_extended_refl,
};

/// How a literal is announced: `{N}CRLF` awaits a continuation before the
/// octets follow, `{N+}CRLF` does not.
#[derive(Clone, Copy, Debug, PartialEq, Eq)]
pub enum LiteralMode {
    /// Announced as `{N}`; the sender must wait for a continuation request.
    Sync,
    /// Announced as `{N+}`; the octets follow immediately.
    NonSync,
}

/// The unit of encoder output: either a line that is safe to send as-is, or
/// a literal body whose transmission may require the handshake first.
#[derive(Clone, Debug, PartialEq, Eq)]
pub enum Fragment {
    /// A line that is ready to be sent.
    Line { data: Vec<u8> },
    /// A literal that may require an action before it should be sent.
    Literal { data: Vec<u8>, mode: LiteralMode },
}

/// The two-byte CRLF line terminator.
pub open spec fn crlf() -> Seq<u8> {
    seq![13u8, 10u8]
}

/// The payload bytes a fragment carries.
pub open spec fn frag_data(f: Fragment) -> Seq<u8> {
    match f {
        Fragment::Line { data } => data@,
        Fragment::Literal { data, .. } => data@,
    }
}

/// The literal mode a fragment carries: `None` for a line.
pub open spec fn frag_mode(f: Fragment) -> Option<LiteralMode> {
    match f {
        Fragment::Line { .. } => None,
        Fragment::Literal { mode, .. } => Some(mode),
    }
}

/// The concatenation of the payloads of a fragment sequence, in order.
pub open spec fn frags_bytes(s: Seq<Fragment>) -> Seq<u8>
    decreases s.len(),
{
    if s.len() == 0 {
        Seq::empty()
    } else {
        frag_data(s[0]) + frags_bytes(s.drop_first())
    }
}

/// Appending one fragment appends its payload to the concatenation.
pub broadcast proof fn lemma_frags_bytes_push(s: Seq<Fragment>, f: Fragment)
    ensures
        #[trigger] frags_bytes(s.push(f)) == frags_bytes(s) + frag_data(f),
    decreases s.len(),
{
    if s.len() == 0 {
        assert(s.push(f).drop_first() =~= Seq::<Fragment>::empty());
        assert(s.push(f)[0] == f);
        assert(s.push(f).len() == 1);
        assert(frags_bytes(s.push(f)) == frag_data(s.push(f)[0]) + frags_bytes(
            s.push(f).drop_first(),
        ));
        assert(frags_bytes(s.push(f).drop_first()) == Seq::<u8>::empty());
        assert(frags_bytes(s.push(f)) == frag_data(f) + Seq::<u8>::empty());
        assert(frags_bytes(s) + frag_data(f) == frag_data(f));
    } else {
        assert(s.push(f).drop_first() =~= s.drop_first().push(f));
        lemma_frags_bytes_push(s.drop_first(), f);
        assert(s.push(f)[0] == s[0]);
        assert(frags_bytes(s.push(f)) == frag_data(s[0]) + (frags_bytes(s.drop_first())
            + frag_data(f)));
        assert(frags_bytes(s.push(f)) == (frag_data(s[0]) + frags_bytes(s.drop_first()))
            + frag_data(f));
    }
}

/// Taking one more fragment appends its payload to the concatenation.
pub proof fn lemma_frags_bytes_take_snoc(s: Seq<Fragment>, i: int)
    requires
        0 <= i < s.len(),
    ensures
        frags_bytes(s.take(i + 1)) == frags_bytes(s.take(i)) + frag_data(s[i]),
{
    assert(s.take(i + 1) =~= s.take(i).push(s[i]));
    lemma_frags_bytes_push(s.take(i), s[i]);
}

/// The append buffer and the fragments already flushed out of it.
#[derive(Clone, Debug, PartialEq, Eq)]
pub struct EncodeContext {
    pub accumulator: Vec<u8>,
    pub items: Vec<Fragment>,
}

impl Default for EncodeContext {
    fn default() -> (r: Self)
        ensures
            r.accumulator@ == Seq::<u8>::empty(),
            r.items@ == Seq::<Fragment>::empty(),
    {
        EncodeContext { accumulator: Vec::new(), items: Vec::new() }
    }
}

impl EncodeContext {
    /// The bytes this context stands for: every flushed fragment's payload
    /// followed by what is still in the accumulator.
    pub open spec fn wire(&self) -> Seq<u8> {
        frags_bytes(self.items@) + self.accumulator@
    }

    pub fn new() -> (r: Self)
        ensures
            r.accumulator@ == Seq::<u8>::empty(),
            r.items@ == Seq::<Fragment>::empty(),
            r.wire() == Seq::<u8>::empty(),
    {
        Self::default()
    }

    /// Append raw bytes to the accumulator.
    #[verifier::spinoff_prover]
    pub fn write_bytes(&mut self, b: &[u8])
        ensures
            final(self).accumulator@ == old(self).accumulator@ + b@,
            final(self).items@ == old(self).items@,
            final(self).wire() == old(self).wire() + b@,
            frags_extended(old(self).items@, final(self).items@),
    {
        self.accumulator.extend_from_slice(b);
        proof {
            assert(self.accumulator@ =~= old(self).accumulator@ + b@);
        }
    }

    /// Append CRLF, the line terminator of the protocol.
    pub fn write_crlf(&mut self)
        ensures
            final(self).accumulator@ == old(self).accumulator@ + crlf(),
            final(self).items@ == old(self).items@,
            final(self).wire() == old(self).wire() + crlf(),
    {
        let a: [u8; 2] = [13, 10];
        self.write_bytes(a.as_slice());
    }

    /// Flush the accumulator as a `Line` fragment.
    #[verifier::spinoff_prover]
    pub fn push_line(&mut self)
        ensures
            final(self).items@ == old(self).items@.push(Fragment::Line {
                data: old(self).accumulator,
            }),
            final(self).accumulator@ == Seq::<u8>::empty(),
            final(self).wire() == old(self).wire(),
    {
        let mut data: Vec<u8> = Vec::new();
        core::mem::swap(&mut data, &mut self.accumulator);
        proof {
            lemma_frags_bytes_push(self.items@, Fragment::Line { data });
        }
        self.items.push(Fragment::Line { data });
    }

    /// Flush the accumulator as a `Literal` fragment with the given mode.
    #[verifier::spinoff_prover]
    pub fn push_literal(&mut self, mode: LiteralMode)
        ensures
            final(self).items@ == old(self).items@.push(Fragment::Literal {
                data: old(self).accumulator,
                mode,
            }),
            final(self).accumulator@ == Seq::<u8>::empty(),
            final(self).wire() == old(self).wire(),
    {
        let mut data: Vec<u8> = Vec::new();
        core::mem::swap(&mut data, &mut self.accumulator);
        proof {
            lemma_frags_bytes_push(self.items@, Fragment::Literal { data, mode });
        }
        self.items.push(Fragment::Literal { data, mode });
    }

    /// Finish: any remaining accumulator content becomes a final `Line`.
    #[verifier::spinoff_prover]
    pub fn into_items(self) -> (r: Vec<Fragment>)
        ensures
            r@ == if self.accumulator@.len() == 0 {
                self.items@
            } else {
                self.items@.push(Fragment::Line { data: self.accumulator })
            },
            frags_bytes(r@) == self.wire(),
    {
        let EncodeContext { accumulator, mut items } = self;
        proof {
            lemma_frags_bytes_push(items@, Fragment::Line { data: accumulator });
        }
        if !accumulator.is_empty() {
            items.push(Fragment::Line { data: accumulator });
        }
        items
    }

    /// The whole encoding as one byte vector.
    #[verifier::spinoff_prover]
    pub fn dump(self) -> (r: Vec<u8>)
        ensures
            r@ == self.wire(),
    {
        let ghost w: Seq<u8> = self.wire();
        let items = self.into_items();
        let mut out: Vec<u8> = Vec::new();
        let mut i: usize = 0;
        while i < items.len()
            invariant
                0 <= i <= items@.len(),
                frags_bytes(items@) == w,
                out@ == frags_bytes(items@.take(i as int)),
            decreases items@.len() - i,
        {
            proof {
                lemma_frags_bytes_take_snoc(items@, i as int);
            }
            match &items[i] {
                Fragment::Line { data } => out.extend_from_slice(data.as_slice()),
                Fragment::Literal { data, .. } => out.extend_from_slice(data.as_slice()),
            }
            proof {
                assert(out@ =~= frags_bytes(items@.take(i as int)) + frag_data(items@[i as int]));
            }
            i = i + 1;
        }
        proof {
            assert(items@.take(items@.len() as int) =~= items@);
        }
        out
    }
}

/// A finished encoding: the ordered fragments of one message.
#[derive(Clone, Debug, PartialEq, Eq)]
pub struct Encoded {
    pub items: Vec<Fragment>,
}

impl Encoded {
    /// The bytes of the whole message.
    pub open spec fn wire(&self) -> Seq<u8> {
        frags_bytes(self.items@)
    }

    /// Dump the (remaining) encoded data without being guided by fragments.
    #[verifier::spinoff_prover]
    pub fn dump(self) -> (r: Vec<u8>)
        ensures
            r@ == self.wire(),
    {
        let mut out: Vec<u8> = Vec::new();
        let items = self.items;
        let mut i: usize = 0;
        while i < items.len()
            invariant
                0 <= i <= items@.len(),
                items@ == self.items@,
                out@ == frags_bytes(items@.take(i as int)),
            decreases items@.len() - i,
        {
            proof {
                lemma_frags_bytes_take_snoc(items@, i as int);
            }
            match &items[i] {
                Fragment::Line { data } => out.extend_from_slice(data.as_slice()),
                Fragment::Literal { data, .. } => out.extend_from_slice(data.as_slice()),
            }
            proof {
                assert(out@ =~= frags_bytes(items@.take(i as int)) + frag_data(items@[i as int]));
            }
            i = i + 1;
        }
        proof {
            assert(items@.take(items@.len() as int) =~= items@);
        }
        out
    }

    /// The next fragment, in serialisation order.
    pub fn next(&mut self) -> (r: Option<Fragment>)
        ensures
            old(self).items@.len() == 0 ==> r is None && final(self).items@ == old(self).items@,
            old(self).items@.len() > 0 ==> r == Some(old(self).items@[0]) && final(self).items@
                == old(self).items@.drop_first(),
    {
        if !self.items.is_empty() {
            let f = self.items.remove(0);
            proof {
                assert(old(self).items@.remove(0) =~= old(self).items@.drop_first());
            }
            Some(f)
        } else {
            None
        }
    }
}

/// One encoding rule per grammar production: the rule appends the exact wire
/// bytes of the value to the context, splitting at literals.
pub trait Encoder {
    /// The exact on-wire bytes of this value.
    spec fn wire(&self) -> Seq<u8>;

    /// Append this value's wire bytes to the context.  The rule may flush
    /// fragments only as [`frags_extended`] allows: the fragments already
    /// flushed stay, and every line it pushes is a literal announcement.
    fn encode_ctx(&self, ctx: &mut EncodeContext)
        ensures
            final(ctx).wire() == old(ctx).wire() + self.wire(),
            frags_extended(old(ctx).items@, final(ctx).items@),
    ;
}

/// Producing a finished, fragment-guided encoding of a message.
pub trait Encode {
    /// The exact on-wire bytes of this message.
    spec fn wire_dump(&self) -> Seq<u8>;

    /// Create an [`Encoded`] for this message.  The fragments concatenate
    /// to the wire bytes, and every line but the last ends with the
    /// announcement of the literal that follows it.
    fn encode(&self) -> (r: Encoded)
        ensures
            r.wire() == self.wire_dump(),
            fragment_stream_wf(r.items@),
    ;
}

impl<T: Encoder> Encode for T {
    open spec fn wire_dump(&self) -> Seq<u8> {
        self.wire()
    }

    #[verifier::spinoff_prover]
    fn encode(&self) -> (r: Encoded) {
        let mut ctx = EncodeContext::new();
        self.encode_ctx(&mut ctx);
        proof {
            reveal(crate::frag_rules::literal_discipline);
            reveal(crate::frag_rules::frags_extended);
            let s = ctx.items@;
            if s.len() > 0 {
                assert(s.skip(0) =~= s);
            }
            assert(literal_discipline(s));
            if ctx.accumulator@.len() == 0 {
                lemma_stream_wf_from_discipline(s, s);
            } else {
                let t = s.push(Fragment::Line { data: ctx.accumulator });
                assert(t == s.push(Fragment::Line { data: ctx.accumulator }));
                lemma_stream_wf_from_discipline(s, t);
            }
        }
        Encoded { items: ctx.into_items() }
    }
}

/// `x0 sep x1 sep ... sep xn`; the empty sequence produces no bytes.
pub closed spec fn joined_wire<I: Encoder>(s: Seq<I>, sep: Seq<u8>) -> Seq<u8>
    decreases s.len(),
{
    if s.len() == 0 {
        Seq::empty()
    } else if s.len() == 1 {
        s[0].wire()
    } else {
        s[0].wire() + sep + joined_wire(s.drop_first(), sep)
    }
}

/// Write `elements`, separated by `sep`.
pub fn join_serializable<I: Encoder>(elements: &[I], sep: &[u8], ctx: &mut EncodeContext)
    ensures
        final(ctx).wire() == old(ctx).wire() + joined_wire(elements@, sep@),
        frags_extended(old(ctx).items@, final(ctx).items@),
    decreases elements@.len(),
{
    if elements.len() == 0 {
        proof {
            crate::frag_rules::lemma_frags_extended_refl(ctx.items@);
        }
    } else {
        let first = vstd::slice::slice_index_get(elements, 0);
        first.encode_ctx(ctx);
        if elements.len() > 1 {
            let ghost mid = ctx.items@;
            ctx.write_bytes(sep);
            let rest = vstd::slice::slice_subrange(elements, 1, elements.len());
            join_serializable(rest, sep, ctx);
            proof {
                assert(rest@ =~= elements@.drop_first());
                lemma_frags_extended_trans(old(ctx).items@, mid, ctx.items@);
            }
        } else {
            proof {
                assert(elements@.len() == 1);
            }
        }
    }
}

/// `(x0 sep ... xn)`, or `NIL` for an empty list.
pub struct List1OrNil<'a, T>(pub &'a Vec<T>, pub &'a [u8]);

impl<'a, T: Encoder> Encoder for List1OrNil<'a, T> {
    closed spec fn wire(&self) -> Seq<u8> {
        if self.0@.len() == 0 {
            crate::kw::kb(crate::kw::Keyword::KwA(KwA::Nil))
        } else {
            (crate::kw::kb(crate::kw::Keyword::KwA(KwA::LParen)) + joined_wire(self.0@, self.1@)) + crate::kw::kb(crate::kw::Keyword::KwA(KwA::RParen))
        }
    }

    #[verifier::spinoff_prover]
    fn encode_ctx(&self, ctx: &mut EncodeContext) {
        if self.0.is_empty() {
            ctx.write_kw(crate::kw::Keyword::KwA(KwA::Nil));
        } else {
            ctx.write_kw(crate::kw::Keyword::KwA(KwA::LParen));
            join_serializable(self.0.as_slice(), self.1, ctx);
            ctx.write_kw(crate::kw::Keyword::KwA(KwA::RParen));
        }
    }
}

/// `(k0 SP v0 SP ... kn SP vn)`, or `NIL` for an empty list.
pub struct List1AttributeValueOrNil<'a, T>(pub &'a Vec<(T, T)>);

/// `k0 SP v0 SP k1 SP v1 ...` for the attribute/value pairs.
pub closed spec fn pairs_wire<T: Encoder>(s: Seq<(T, T)>) -> Seq<u8>
    decreases s.len(),
{
    if s.len() == 0 {
        Seq::empty()
    } else if s.len() == 1 {
        (s[0].0.wire() + crate::kw::kb(crate::kw::Keyword::KwA(KwA::Sp))) + s[0].1.wire()
    } else {
        (((s[0].0.wire() + crate::kw::kb(crate::kw::Keyword::KwA(KwA::Sp))) + s[0].1.wire()) + crate::kw::kb(crate::kw::Keyword::KwA(KwA::Sp))) + pairs_wire(
            s.drop_first(),
        )
    }
}

proof fn lemma_pairs_wire_take_one<T: Encoder>(s: Seq<(T, T)>)
    requires
        s.len() >= 1,
    ensures
        pairs_wire(s.take(1)) == (s[0].0.wire() + crate::kw::kb(crate::kw::Keyword::KwA(KwA::Sp))) + s[0].1.wire(),
{
    assert(s.take(1).len() == 1);
    assert(s.take(1)[0] == s[0]);
}

proof fn lemma_pairs_wire_take_snoc<T: Encoder>(s: Seq<(T, T)>, i: int)
    requires
        1 <= i < s.len(),
    ensures
        pairs_wire(s.take(i + 1)) == ((pairs_wire(s.take(i)) + crate::kw::kb(crate::kw::Keyword::KwA(KwA::Sp))) + s[i].0.wire()
            + crate::kw::kb(crate::kw::Keyword::KwA(KwA::Sp))) + s[i].1.wire(),
    decreases i,
{
    let t = s.drop_first();
    assert(s.take(i + 1).len() == i + 1);
    assert(s.take(i).len() == i);
    assert(s.take(i + 1).drop_first() =~= t.take(i));
    assert(s.take(i + 1)[0] == s[0]);
    if i == 1 {
        assert(t.take(1).len() == 1);
        assert(t.take(1)[0] == t[0]);
        assert(s.take(1).len() == 1);
        assert(s.take(1)[0] == s[0]);
        assert(t[0] == s[1]);
        assert(pairs_wire(t.take(1)) == (t[0].0.wire() + crate::kw::kb(crate::kw::Keyword::KwA(KwA::Sp))) + t[0].1.wire());
    } else {
        lemma_pairs_wire_take_snoc(t, i - 1);
        assert(s.take(i).drop_first() =~= t.take(i - 1));
        assert(s.take(i)[0] == s[0]);
        assert(t[i - 1] == s[i]);
        assert(pairs_wire(s.take(i + 1)) == (((s[0].0.wire() + crate::kw::kb(crate::kw::Keyword::KwA(KwA::Sp))) + s[0].1.wire())
            + crate::kw::kb(crate::kw::Keyword::KwA(KwA::Sp))) + pairs_wire(t.take(i)));
        assert(pairs_wire(s.take(i)) == (((s[0].0.wire() + crate::kw::kb(crate::kw::Keyword::KwA(KwA::Sp))) + s[0].1.wire())
            + crate::kw::kb(crate::kw::Keyword::KwA(KwA::Sp))) + pairs_wire(t.take(i - 1)));
    }
}

impl<'a, T: Encoder> Encoder for List1AttributeValueOrNil<'a, T> {
    closed spec fn wire(&self) -> Seq<u8> {
        if self.0@.len() == 0 {
            crate::kw::kb(crate::kw::Keyword::KwA(KwA::Nil))
        } else {
            (crate::kw::kb(crate::kw::Keyword::KwA(KwA::LParen)) + pairs_wire(self.0@)) + crate::kw::kb(crate::kw::Keyword::KwA(KwA::RParen))
        }
    }

    #[verifier::spinoff_prover]
    fn encode_ctx(&self, ctx: &mut EncodeContext) {
        if self.0.is_empty() {
            ctx.write_kw(crate::kw::Keyword::KwA(KwA::Nil));
        } else {
            ctx.write_kw(crate::kw::Keyword::KwA(KwA::LParen));
            let n: usize = self.0.len();
            let mut i: usize = 0;
            let ghost mid = ctx.wire();
            let ghost items0 = ctx.items@;
            while i < n
                invariant
                    n == self.0@.len(),
                    0 <= i <= n,
                    ctx.wire() == mid + pairs_wire(self.0@.take(i as int)),
                    frags_extended(items0, ctx.items@),
                decreases n - i,
            {
                let ghost prev = ctx.items@;
                if i > 0 {
                    ctx.write_kw(crate::kw::Keyword::KwA(KwA::Sp));
                }
                let pair = &self.0[i];
                pair.0.encode_ctx(ctx);
                let ghost mid2 = ctx.items@;
                ctx.write_kw(crate::kw::Keyword::KwA(KwA::Sp));
                pair.1.encode_ctx(ctx);
                proof {
                    lemma_frags_extended_trans(prev, mid2, ctx.items@);
                    lemma_frags_extended_trans(items0, prev, ctx.items@);
                    if i == 0 {
                        lemma_pairs_wire_take_one(self.0@);
                    } else {
                        lemma_pairs_wire_take_snoc(self.0@, i as int);
                    }
                }
                i = i + 1;
            }
            proof {
                assert(self.0@.take(n as int) =~= self.0@);
            }
            ctx.write_kw(crate::kw::Keyword::KwA(KwA::RParen));
        }
    }
}

/// The base64 encoding (RFC 4648, standard alphabet, padded) of a byte
/// sequence; the bytes of the text, named rather than spelled out.
pub uninterp spec fn base64_bytes(data: Seq<u8>) -> Seq<u8>;

/// Relies on base64's `Engine::encode` with the `STANDARD` engine: the
/// RFC 4648 encoding of the input, a function of the input bytes alone, and
/// empty exactly for empty input.  A slice holds at most `isize::MAX` bytes,
/// so the engine's output-length computation cannot overflow and the call
/// cannot panic.
#[verifier::external_body]
pub(crate) fn base64_encode(data: &[u8]) -> (r: Vec<u8>)
    ensures
        r@ == base64_bytes(data@),
        data@.len() == 0 ==> r@.len() == 0,
{
    base64::engine::general_purpose::STANDARD.encode(data).into_bytes()
}

} // verus!
