//! The literal-flush discipline: what an encoding rule may push onto the
//! fragment list, stated over [`Fragment`] sequences.

use vstd::prelude::*;

use crate::encode::{Fragment, LiteralMode};

verus! {

/// The announcement `{N}` (or `{N+}` for a non-synchronising literal)
/// followed by CRLF, as it ends the line before a literal of `n` bytes.
pub open spec fn announcement(n: nat, mode: LiteralMode) -> Seq<u8> {
    match mode {
        LiteralMode::Sync => (seq![123u8] + crate::numfmt::dec_digits(n)) + seq![
            125u8,
            13u8,
            10u8,
        ],
        LiteralMode::NonSync => (seq![123u8] + crate::numfmt::dec_digits(n)) + seq![
            43u8,
            125u8,
            13u8,
            10u8,
        ],
    }
}

/// `line` is the flush before the literal `next`: its bytes end with the
/// announcement of `next`'s length and mode.
pub open spec fn line_announces(line: Fragment, next: Fragment) -> bool {
    match (line, next) {
        (Fragment::Line { data: l }, Fragment::Literal { data: d, mode }) => {
            let a = announcement(d@.len(), mode);
            l@.len() >= a.len() && l@.skip(l@.len() - a.len()) == a
        },
        _ => false,
    }
}

/// The fragments an encoding rule may push: every `Line` among them is the
/// flush before a `Literal` and ends with that literal's announcement, so a
/// rule can never flush a spurious line.
#[verifier::opaque]
pub open spec fn literal_discipline(s: Seq<Fragment>) -> bool {
    forall|i: int|
        #![trigger s[i]]
        0 <= i < s.len() && s[i] is Line ==> i + 1 < s.len() && line_announces(s[i], s[i + 1])
}

/// `b` is `a` with zero or more fragments appended, and the appended
/// fragments obey [`literal_discipline`].
#[verifier::opaque]
pub open spec fn frags_extended(a: Seq<Fragment>, b: Seq<Fragment>) -> bool {
    a == b || (a.len() <= b.len() && b.take(a.len() as int) == a && literal_discipline(
        b.skip(a.len() as int),
    ))
}

/// Nothing appended is trivially a disciplined extension.
pub broadcast proof fn lemma_frags_extended_refl(a: Seq<Fragment>)
    ensures
        #[trigger] frags_extended(a, a),
{
    reveal(frags_extended);
}

/// Disciplined fragment lists concatenate to a disciplined list: a `Line`
/// cannot stand last in a disciplined list, so the join introduces no
/// unannounced line.
pub proof fn lemma_literal_discipline_concat(x: Seq<Fragment>, y: Seq<Fragment>)
    requires
        literal_discipline(x),
        literal_discipline(y),
    ensures
        literal_discipline(x + y),
{
    reveal(literal_discipline);
    let z = x + y;
    assert forall|i: int| 0 <= i < z.len() && #[trigger] z[i] is Line implies i + 1 < z.len()
        && line_announces(z[i], z[i + 1]) by {
        if i < x.len() {
            assert(z[i] == x[i]);
            assert(i + 1 < x.len());
            assert(z[i + 1] == x[i + 1]);
        } else {
            assert(z[i] == y[i - x.len()]);
            assert(i - x.len() + 1 < y.len());
            assert(z[i + 1] == y[i - x.len() + 1]);
        }
    }
}

/// Extension with disciplined fragments is transitive.
pub broadcast proof fn lemma_frags_extended_trans(
    a: Seq<Fragment>,
    b: Seq<Fragment>,
    c: Seq<Fragment>,
)
    requires
        #[trigger] frags_extended(a, b),
        #[trigger] frags_extended(b, c),
    ensures
        frags_extended(a, c),
{
    reveal(frags_extended);
    if a == b || b == c {
    } else {
        let db = b.skip(a.len() as int);
        let dc = c.skip(b.len() as int);
        lemma_literal_discipline_concat(db, dc);
        assert(c.take(a.len() as int) =~= b.take(a.len() as int));
        assert(c.skip(a.len() as int) =~= db + dc);
    }
}

/// A finished fragment stream: every `Line` but the last is the flush
/// before the `Literal` that follows it, ending with its announcement.
pub open spec fn fragment_stream_wf(s: Seq<Fragment>) -> bool {
    forall|i: int|
        #![trigger s[i]]
        0 <= i < s.len() - 1 && s[i] is Line ==> line_announces(s[i], s[i + 1])
}

/// A disciplined list, with or without one final flushed line, is a
/// well-formed stream.
pub proof fn lemma_stream_wf_from_discipline(s: Seq<Fragment>, t: Seq<Fragment>)
    requires
        literal_discipline(s),
        t == s || exists|f: Fragment| t == s.push(f),
    ensures
        fragment_stream_wf(t),
{
    reveal(literal_discipline);
    assert forall|i: int| 0 <= i < t.len() - 1 && #[trigger] t[i] is Line implies line_announces(
        t[i],
        t[i + 1],
    ) by {
        assert(t[i] == s[i]);
        assert(i + 1 < s.len());
        assert(t[i + 1] == s[i + 1]);
    }
}


} // verus!
