//! The stateful stream decoder: an incremental framer that finds CRLF
//! lines, detects literal announcements at end of line, asks the caller to
//! acknowledge or reject each literal, and hands out one complete command
//! frame at a time.  The grammar parser that turns a frame into a typed
//! command is outside this library; a frame is delivered as its exact
//! bytes.

use vstd::prelude::*;

verus! {

/// Why a line could not be framed.
#[derive(Clone, Copy, Debug, PartialEq, Eq)]
pub enum LineKind {
    /// A line feed arrived without a carriage return before it.
    NotCrLf,
}

/// Why a literal announcement could not be read.
#[derive(Clone, Copy, Debug, PartialEq, Eq)]
pub enum LiteralKind {
    /// The announced size is larger than the decoder accepts.
    TooLarge(u32),
    /// The bytes between the braces are not a decimal size.
    BadNumber,
    /// The line ends in `}` with no `{` before it.
    NoOpeningBrace,
}

/// The decoder's error taxonomy.
#[derive(Clone, Copy, Debug, PartialEq, Eq)]
pub enum ImapServerCodecError {
    Line(LineKind),
    Literal(LiteralKind),
    /// The grammar parser rejected a well-framed command; raised by the
    /// embedding, which runs the parser on each delivered frame.
    CommandParsingFailed,
    ActionRequired,
}

/// What the caller must do before feeding more bytes.
#[derive(Clone, Copy, Debug, PartialEq, Eq)]
pub enum Action {
    /// Send a continuation request, then the literal may follow.
    SendLiteralAck(u32),
    /// Answer with a tagged BAD: the literal is too large.
    SendLiteralReject(u32),
}

/// One decoder outcome: a complete command frame (its exact bytes,
/// literals inlined, ready for the grammar parser), or an action the
/// caller owes the peer.
#[derive(Clone, Debug, PartialEq, Eq)]
pub enum Outcome {
    Command(Vec<u8>),
    ActionRequired(Action),
}

/// The receiver is either reading a line, or reading a counted sequence
/// of octets followed by a line.
#[derive(Clone, Copy, Debug, PartialEq, Eq)]
enum State {
    ReadLine { to_consume_acc: usize },
    ReadLiteral { to_consume_acc: usize, needed: u32 },
}

/// The framer: scan position, pending literal, and the size bound.
#[derive(Clone, Debug, PartialEq, Eq)]
pub struct ImapServerCodec {
    state: State,
    max_literal_size: usize,
}

/// Every byte of `s` is an ASCII decimal digit.
pub open spec fn all_digits(s: Seq<u8>) -> bool {
    forall|i: int| 0 <= i < s.len() ==> 48 <= #[trigger] s[i] <= 57
}

/// The number the digits spell, most significant first.
pub open spec fn dec_value(s: Seq<u8>) -> nat
    decreases s.len(),
{
    if s.len() == 0 {
        0
    } else {
        dec_value(s.drop_last()) * 10 + (s.last() - 48) as nat
    }
}

/// A prefix of a digit string spells at most the whole string's value.
proof fn lemma_dec_value_prefix_le(s: Seq<u8>, i: int)
    requires
        0 <= i <= s.len(),
    ensures
        dec_value(s.take(i)) <= dec_value(s),
    decreases s.len() - i,
{
    if i < s.len() {
        lemma_dec_value_prefix_le(s, i + 1);
        assert(s.take(i + 1).drop_last() =~= s.take(i));
        assert(dec_value(s.take(i + 1)) == dec_value(s.take(i)) * 10 + (s.take(i + 1).last()
            - 48) as nat);
        assert(dec_value(s.take(i)) <= dec_value(s.take(i)) * 10);
    } else {
        assert(s.take(i) =~= s);
    }
}

/// `i` is the rightmost `{` before the closing `}` that ends the line.
pub open spec fn opening_brace_at(s: Seq<u8>, i: int) -> bool {
    &&& 0 <= i < s.len() - 1
    &&& s[i] == 123
    &&& forall|j: int| i < j < s.len() - 1 ==> #[trigger] s[j] != 123
}

/// `q` is the position of the first line feed at or after `from`.
pub open spec fn first_lf_at(s: Seq<u8>, from: int, q: int) -> bool {
    &&& from <= q < s.len()
    &&& s[q] == 10
    &&& forall|j: int| from <= j < q ==> #[trigger] s[j] != 10
}

/// No line feed stands at or after `from`.
pub open spec fn no_lf_from(s: Seq<u8>, from: int) -> bool {
    forall|j: int| from <= j < s.len() ==> #[trigger] s[j] != 10
}

/// An outcome, as `decode` returns it.
pub open spec fn ok_some(o: Outcome) -> Result<Option<Outcome>, ImapServerCodecError> {
    Ok(Some(o))
}

/// A literal-announcement error, as `decode` returns it.
pub open spec fn literal_err(k: LiteralKind) -> Result<Option<Outcome>, ImapServerCodecError> {
    Err(ImapServerCodecError::Literal(k))
}

/// What one decode step must do with the announced digits `d`: reject the
/// malformed, reject the oversized, acknowledge the rest.
pub open spec fn digits_step(
    max: nat,
    buf0: Seq<u8>,
    q: int,
    d: Seq<u8>,
    r: Result<Option<Outcome>, ImapServerCodecError>,
    consumed1: nat,
    needed1: Option<u32>,
    buf1: Seq<u8>,
) -> bool {
    if d.len() == 0 || !all_digits(d) || dec_value(d) > u32::MAX {
        &&& r == literal_err(LiteralKind::BadNumber)
        &&& buf1.len() == 0
        &&& consumed1 == 0
        &&& needed1 is None
    } else if dec_value(d) > max {
        &&& r == ok_some(Outcome::ActionRequired(Action::SendLiteralReject(dec_value(d) as u32)))
        &&& buf1 == buf0.skip(q + 1)
        &&& consumed1 == 0
        &&& needed1 is None
    } else {
        &&& r == ok_some(Outcome::ActionRequired(Action::SendLiteralAck(dec_value(d) as u32)))
        &&& buf1 == buf0
        &&& consumed1 == q + 1
        &&& needed1 == Some(dec_value(d) as u32)
    }
}

/// What one decode step must do once a complete line is found: the
/// consumed prefix `buf0.take(q + 1)` ends in CRLF at `q`, and the
/// consumed bytes with that CRLF stripped decide the outcome.
pub open spec fn line_step(
    max: nat,
    buf0: Seq<u8>,
    q: int,
    r: Result<Option<Outcome>, ImapServerCodecError>,
    consumed1: nat,
    needed1: Option<u32>,
    buf1: Seq<u8>,
) -> bool {
    let line = buf0.take(q - 1);
    if line.len() == 0 || line[line.len() - 1] != 125 {
        // No literal announcement: exactly this frame is delivered whole.
        &&& r matches Ok(Some(Outcome::Command(frame))) && frame@ == buf0.take(q + 1)
        &&& buf1 == buf0.skip(q + 1)
        &&& consumed1 == 0
        &&& needed1 is None
    } else if forall|i: int| 0 <= i < line.len() - 1 ==> #[trigger] line[i] != 123 {
        &&& r == literal_err(LiteralKind::NoOpeningBrace)
        &&& buf1.len() == 0
        &&& consumed1 == 0
        &&& needed1 is None
    } else {
        exists|i: int|
            #[trigger] opening_brace_at(line, i) && digits_step(
                max,
                buf0,
                q,
                line.subrange(i + 1, line.len() - 1),
                r,
                consumed1,
                needed1,
                buf1,
            )
    }
}

/// What one decode step must do at the first line feed `q`: a framing
/// error if it is not preceded by a carriage return, otherwise the
/// completed line decides.
pub open spec fn found_line_step(
    max: nat,
    start: nat,
    buf0: Seq<u8>,
    q: int,
    r: Result<Option<Outcome>, ImapServerCodecError>,
    consumed1: nat,
    needed1: Option<u32>,
    buf1: Seq<u8>,
) -> bool {
    if q == start || buf0[q - 1] != 13 {
        &&& r == Err::<Option<Outcome>, ImapServerCodecError>(
            ImapServerCodecError::Line(LineKind::NotCrLf),
        )
        &&& buf1.len() == 0
        &&& consumed1 == 0
        &&& needed1 is None
    } else {
        line_step(max, buf0, q, r, consumed1, needed1, buf1)
    }
}

/// The decode-step relation: from the old scan state and buffer to the
/// result, the new scan state and the new buffer.  Which result comes
/// back is decided by the bytes, both ways.
pub open spec fn scan_start(consumed0: nat, needed0: Option<u32>) -> nat {
    consumed0 + (match needed0 {
        Some(n) => n as nat,
        None => 0,
    })
}

pub open spec fn decode_step(
    max: nat,
    consumed0: nat,
    needed0: Option<u32>,
    buf0: Seq<u8>,
    r: Result<Option<Outcome>, ImapServerCodecError>,
    consumed1: nat,
    needed1: Option<u32>,
    buf1: Seq<u8>,
) -> bool {
    let start = scan_start(consumed0, needed0);
    if needed0 is Some && start > buf0.len() {
        // The pending literal body is still short: wait, changing nothing.
        &&& r == Ok::<Option<Outcome>, ImapServerCodecError>(None)
        &&& buf1 == buf0
        &&& consumed1 == consumed0
        &&& needed1 == needed0
    } else if no_lf_from(buf0, start as int) {
        // No complete line yet: wait; a satisfied literal is absorbed into
        // the scan position.
        &&& r == Ok::<Option<Outcome>, ImapServerCodecError>(None)
        &&& buf1 == buf0
        &&& consumed1 == start
        &&& needed1 is None
    } else {
        exists|q: int|
            #[trigger] first_lf_at(buf0, start as int, q) && found_line_step(
                max,
                start,
                buf0,
                q,
                r,
                consumed1,
                needed1,
                buf1,
            )
    }
}

/// The bytes decide each decode step: on one scan state and buffer, the
/// decode-step relation admits one result, one new state and one new
/// buffer.  Together with `decode`'s contract this makes the outcome
/// stream a function of the received bytes alone, whatever the chunking:
/// every call's result is forced by the state and the buffer so far.
/// A delivered command frame is pinned to its bytes.
pub proof fn lemma_decode_step_deterministic(
    max: nat,
    consumed0: nat,
    needed0: Option<u32>,
    buf0: Seq<u8>,
    r1: Result<Option<Outcome>, ImapServerCodecError>,
    c1: nat,
    n1: Option<u32>,
    b1: Seq<u8>,
    r2: Result<Option<Outcome>, ImapServerCodecError>,
    c2: nat,
    n2: Option<u32>,
    b2: Seq<u8>,
)
    requires
        decode_step(max, consumed0, needed0, buf0, r1, c1, n1, b1),
        decode_step(max, consumed0, needed0, buf0, r2, c2, n2, b2),
    ensures
        c1 == c2,
        n1 == n2,
        b1 == b2,
        r1 matches Ok(Some(Outcome::Command(f1))) ==> (r2 matches Ok(
            Some(Outcome::Command(f2)),
        ) && f1@ == f2@),
        !(r1 matches Ok(Some(Outcome::Command(f)))) ==> r1 == r2,
{
    let start = scan_start(consumed0, needed0);
    if needed0 is Some && start > buf0.len() {
    } else if no_lf_from(buf0, start as int) {
    } else {
        let q1 = choose|q: int|
            #[trigger] first_lf_at(buf0, start as int, q) && found_line_step(
                max,
                start,
                buf0,
                q,
                r1,
                c1,
                n1,
                b1,
            );
        let q2 = choose|q: int|
            #[trigger] first_lf_at(buf0, start as int, q) && found_line_step(
                max,
                start,
                buf0,
                q,
                r2,
                c2,
                n2,
                b2,
            );
        assert(q1 == q2) by {
            if q1 < q2 {
                assert(buf0[q1] == 10);
            } else if q2 < q1 {
                assert(buf0[q2] == 10);
            }
        }
        if q1 == start || buf0[q1 - 1] != 13 {
        } else {
            let line = buf0.take(q1 - 1);
            if line.len() == 0 || line[line.len() - 1] != 125 {
            } else if forall|i: int| 0 <= i < line.len() - 1 ==> #[trigger] line[i] != 123 {
            } else {
                let i1 = choose|i: int|
                    #[trigger] opening_brace_at(line, i) && digits_step(
                        max,
                        buf0,
                        q1,
                        line.subrange(i + 1, line.len() - 1),
                        r1,
                        c1,
                        n1,
                        b1,
                    );
                let i2 = choose|i: int|
                    #[trigger] opening_brace_at(line, i) && digits_step(
                        max,
                        buf0,
                        q1,
                        line.subrange(i + 1, line.len() - 1),
                        r2,
                        c2,
                        n2,
                        b2,
                    );
                assert(i1 == i2) by {
                    if i1 < i2 {
                        assert(line[i2] == 123);
                    } else if i2 < i1 {
                        assert(line[i1] == 123);
                    }
                }
            }
        }
    }
}

impl ImapServerCodec {
    /// How many bytes of the buffer are already scanned or consumed.
    pub closed spec fn spec_consumed(&self) -> nat {
        match self.state {
            State::ReadLine { to_consume_acc } => to_consume_acc as nat,
            State::ReadLiteral { to_consume_acc, .. } => to_consume_acc as nat,
        }
    }

    /// Whether a literal body is still owed, and how many bytes.
    pub closed spec fn spec_needed(&self) -> Option<u32> {
        match self.state {
            State::ReadLine { .. } => None,
            State::ReadLiteral { needed, .. } => Some(needed),
        }
    }

    /// The configured bound on literal sizes.
    pub closed spec fn spec_max(&self) -> nat {
        self.max_literal_size as nat
    }

    pub fn new(max_literal_size: usize) -> (r: Self)
        ensures
            r.spec_consumed() == 0,
            r.spec_needed() is None,
            r.spec_max() == max_literal_size as nat,
    {
        Self { state: State::ReadLine { to_consume_acc: 0 }, max_literal_size }
    }

    /// Find the first line feed at or after `skip` and demand that a
    /// carriage return stands before it; the count returned includes the
    /// line feed and is relative to `skip`.
    pub fn find_crlf_inclusive(skip: usize, buf: &Vec<u8>) -> (r: Result<Option<usize>, LineKind>)
        ensures
            ({
                let s = buf@;
                match r {
                    Ok(Some(n)) => {
                        &&& n >= 2
                        &&& skip + n <= s.len()
                        &&& s[skip + n - 1] == 10
                        &&& s[skip + n - 2] == 13
                        &&& forall|j: int| skip <= j < skip + n - 1 ==> #[trigger] s[j] != 10
                    },
                    Ok(None) => forall|j: int| skip <= j < s.len() ==> #[trigger] s[j] != 10,
                    Err(k) => {
                        &&& k == LineKind::NotCrLf
                        &&& exists|p: int|
                            skip <= p < s.len() && #[trigger] s[p] == 10 && (forall|j: int|
                                skip <= j < p ==> #[trigger] s[j] != 10) && (p == skip || s[p - 1]
                                != 13)
                    },
                }
            }),
    {
        let len: usize = buf.len();
        let mut i: usize = skip;
        while i < len
            invariant
                skip <= i,
                len == buf@.len(),
                forall|j: int| skip <= j < i ==> #[trigger] buf@[j] != 10,
            decreases len - i,
        {
            if buf[i] == 10 {
                if i == skip || buf[i - 1] != 13 {
                    proof {
                        assert(buf@[i as int] == 10);
                    }
                    return Err(LineKind::NotCrLf);
                }
                return Ok(Some(i + 1 - skip));
            }
            i = i + 1;
        }
        Ok(None)
    }

    /// The digits of a trailing `{N}` announcement: the bytes strictly
    /// between the rightmost `{` and the final `}`.
    pub fn parse_literal_enclosing(line: &[u8]) -> (r: Result<Option<&[u8]>, LiteralKind>)
        ensures
            ({
                let s = line@;
                match r {
                    Ok(None) => s.len() == 0 || s[s.len() - 1] != 125,
                    Ok(Some(sub)) => {
                        &&& s.len() > 0
                        &&& s[s.len() - 1] == 125
                        &&& exists|i: int|
                            #[trigger] opening_brace_at(s, i) && sub@ == s.subrange(
                                i + 1,
                                s.len() - 1,
                            )
                    },
                    Err(k) => {
                        &&& k == LiteralKind::NoOpeningBrace
                        &&& s.len() > 0
                        &&& s[s.len() - 1] == 125
                        &&& forall|i: int| 0 <= i < s.len() - 1 ==> #[trigger] s[i] != 123
                    },
                }
            }),
    {
        let len: usize = line.len();
        if len == 0 {
            return Ok(None);
        }
        if *vstd::slice::slice_index_get(line, len - 1) != 125 {
            return Ok(None);
        }
        let mut index: usize = len - 1;
        while index > 0
            invariant
                index <= len - 1,
                len == line@.len(),
                len > 0,
                line@[len - 1] == 125,
                forall|j: int| index <= j < len - 1 ==> #[trigger] line@[j] != 123,
            decreases index,
        {
            index = index - 1;
            if *vstd::slice::slice_index_get(line, index) == 123 {
                let sub = vstd::slice::slice_subrange(line, index + 1, len - 1);
                proof {
                    assert(opening_brace_at(line@, index as int));
                }
                return Ok(Some(sub));
            }
        }
        Err(LiteralKind::NoOpeningBrace)
    }

    /// The size a trailing `{N}` announcement declares, if the line ends
    /// in one; `BadNumber` when the bytes between the braces are not a
    /// decimal number that fits.
    pub fn parse_literal(line: &[u8]) -> (r: Result<Option<u32>, LiteralKind>)
        ensures
            ({
                let s = line@;
                match r {
                    Ok(None) => s.len() == 0 || s[s.len() - 1] != 125,
                    Ok(Some(n)) => {
                        &&& s.len() > 0
                        &&& s[s.len() - 1] == 125
                        &&& exists|i: int|
                            {
                                let d = s.subrange(i + 1, s.len() - 1);
                                &&& #[trigger] opening_brace_at(s, i)
                                &&& d.len() > 0
                                &&& all_digits(d)
                                &&& dec_value(d) == n as nat
                            }
                    },
                    Err(LiteralKind::NoOpeningBrace) => {
                        &&& s.len() > 0
                        &&& s[s.len() - 1] == 125
                        &&& forall|i: int| 0 <= i < s.len() - 1 ==> #[trigger] s[i] != 123
                    },
                    Err(LiteralKind::BadNumber) => {
                        &&& s.len() > 0
                        &&& s[s.len() - 1] == 125
                        &&& exists|i: int|
                            {
                                let d = s.subrange(i + 1, s.len() - 1);
                                &&& #[trigger] opening_brace_at(s, i)
                                &&& (d.len() == 0 || !all_digits(d) || dec_value(d) > u32::MAX)
                            }
                    },
                    Err(LiteralKind::TooLarge(_)) => false,
                }
            }),
    {
        match Self::parse_literal_enclosing(line) {
            Ok(maybe_raw) => {
                if let Some(raw) = maybe_raw {
                    let m: usize = raw.len();
                    if m == 0 {
                        return Err(LiteralKind::BadNumber);
                    }
                    let mut acc: u32 = 0;
                    let mut i: usize = 0;
                    proof {
                        assert(raw@.take(0) =~= Seq::<u8>::empty());
                    }
                    while i < m
                        invariant
                            0 <= i <= m,
                            m == raw@.len(),
                            line@.len() > 0,
                            line@[line@.len() - 1] == 125,
                            exists|k: int|
                                #[trigger] opening_brace_at(line@, k) && raw@ == line@.subrange(
                                    k + 1,
                                    line@.len() - 1,
                                ),
                            all_digits(raw@.take(i as int)),
                            acc as nat == dec_value(raw@.take(i as int)),
                        decreases m - i,
                    {
                        let b: u8 = *vstd::slice::slice_index_get(raw, i);
                        if b < 48 || b > 57 {
                            proof {
                                assert(raw@[i as int] == b);
                                assert(!all_digits(raw@));
                            }
                            return Err(LiteralKind::BadNumber);
                        }
                        let d: u32 = (b - 48) as u32;
                        if acc > (u32::MAX - d) / 10 {
                            proof {
                                assert(raw@.take(i + 1).drop_last() =~= raw@.take(i as int));
                                assert(raw@.take(i + 1).last() == b);
                                assert(dec_value(raw@.take(i + 1)) == (acc as nat) * 10 + (
                                d as nat));
                                assert((acc as nat) * 10 + (d as nat) > u32::MAX as nat);
                                lemma_dec_value_prefix_le(raw@, i + 1);
                                assert(dec_value(raw@) > u32::MAX);
                            }
                            return Err(LiteralKind::BadNumber);
                        }
                        proof {
                            assert(raw@.take(i + 1).drop_last() =~= raw@.take(i as int));
                        }
                        acc = acc * 10 + d;
                        i = i + 1;
                    }
                    proof {
                        assert(raw@.take(m as int) =~= raw@);
                    }
                    Ok(Some(acc))
                } else {
                    Ok(None)
                }
            },
            Err(err) => Err(err),
        }
    }

    /// Decode one step.  The caller appends received bytes to `buf`
    /// between calls.  [`decode_step`] relates the bytes to the result in
    /// both directions: `Ok(None)` comes back exactly when the buffer is
    /// short of a complete frame, and then nothing is consumed; a line
    /// without an announcement is delivered whole as a `Command` frame; a
    /// well-formed announcement yields `Ack` or `Reject` by comparison
    /// with the bound; a malformed line or announcement yields the
    /// matching error and clears the buffer.
    #[verifier::spinoff_prover]
    #[verifier::rlimit(100)]
    pub fn decode(&mut self, buf: &mut Vec<u8>) -> (r: Result<
        Option<Outcome>,
        ImapServerCodecError,
    >)
        ensures
            final(self).spec_max() == old(self).spec_max(),
            decode_step(
                old(self).spec_max(),
                old(self).spec_consumed(),
                old(self).spec_needed(),
                old(buf)@,
                r,
                final(self).spec_consumed(),
                final(self).spec_needed(),
                final(buf)@,
            ),
    {
        let ghost consumed0 = old(self).spec_consumed();
        let ghost needed0 = old(self).spec_needed();
        let ghost start = scan_start(consumed0, needed0);
        if let State::ReadLiteral { to_consume_acc, needed } = self.state {
            if needed as usize <= buf.len() && to_consume_acc <= buf.len() - needed as usize {
                self.state = State::ReadLine { to_consume_acc: to_consume_acc + needed as usize };
            } else {
                return Ok(None);
            }
        }
        let to_consume_acc: usize = match self.state {
            State::ReadLine { to_consume_acc } => to_consume_acc,
            State::ReadLiteral { to_consume_acc, .. } => to_consume_acc,
        };
        proof {
            assert(to_consume_acc as nat == start);
        }
        match Self::find_crlf_inclusive(to_consume_acc, buf) {
            Ok(Some(to_consume)) => {
                let buf_len: usize = buf.len();
                let consumed: usize = to_consume_acc + to_consume;
                let ghost q: int = consumed - 1;
                proof {
                    assert(first_lf_at(old(buf)@, start as int, q));
                }
                let line = vstd::slice::slice_subrange(buf.as_slice(), 0, consumed - 2);
                proof {
                    assert(line@ =~= old(buf)@.take(q - 1));
                }
                match Self::parse_literal(line) {
                    Ok(None) => {
                        let frame = take_prefix(buf, consumed);
                        self.state = State::ReadLine { to_consume_acc: 0 };
                        proof {
                            assert(line_step(
                                old(self).spec_max(),
                                old(buf)@,
                                q,
                                Ok(Some(Outcome::Command(frame))),
                                0,
                                None,
                                buf@,
                            ));
                            assert(decode_step(
                                old(self).spec_max(),
                                consumed0,
                                needed0,
                                old(buf)@,
                                Ok(Some(Outcome::Command(frame))),
                                self.spec_consumed(),
                                self.spec_needed(),
                                buf@,
                            ));
                        }
                        Ok(Some(Outcome::Command(frame)))
                    },
                    Ok(Some(needed)) => {
                        let ghost line_s = old(buf)@.take(q - 1);
                        let ghost i: int = choose|i: int|
                            {
                                let d = line_s.subrange(i + 1, line_s.len() - 1);
                                &&& #[trigger] opening_brace_at(line_s, i)
                                &&& d.len() > 0
                                &&& all_digits(d)
                                &&& dec_value(d) == needed as nat
                            };
                        if self.max_literal_size < needed as usize {
                            let _ = take_prefix(buf, consumed);
                            self.state = State::ReadLine { to_consume_acc: 0 };
                            proof {
                                assert(opening_brace_at(line_s, i));
                                let d = line_s.subrange(i + 1, line_s.len() - 1);
                                assert(digits_step(
                                    old(self).spec_max(),
                                    old(buf)@,
                                    q,
                                    d,
                                    ok_some(
                                        Outcome::ActionRequired(
                                            Action::SendLiteralReject(needed),
                                        ),
                                    ),
                                    0,
                                    None,
                                    buf@,
                                ));
                                assert(decode_step(
                                    old(self).spec_max(),
                                    consumed0,
                                    needed0,
                                    old(buf)@,
                                    ok_some(
                                        Outcome::ActionRequired(
                                            Action::SendLiteralReject(needed),
                                        ),
                                    ),
                                    self.spec_consumed(),
                                    self.spec_needed(),
                                    buf@,
                                ));
                            }
                            Ok(Some(Outcome::ActionRequired(Action::SendLiteralReject(needed))))
                        } else {
                            self.state = State::ReadLiteral { to_consume_acc: consumed, needed };
                            proof {
                                assert(opening_brace_at(line_s, i));
                                let d = line_s.subrange(i + 1, line_s.len() - 1);
                                assert(digits_step(
                                    old(self).spec_max(),
                                    old(buf)@,
                                    q,
                                    d,
                                    ok_some(
                                        Outcome::ActionRequired(Action::SendLiteralAck(needed)),
                                    ),
                                    self.spec_consumed(),
                                    self.spec_needed(),
                                    buf@,
                                ));
                                assert(decode_step(
                                    old(self).spec_max(),
                                    consumed0,
                                    needed0,
                                    old(buf)@,
                                    ok_some(
                                        Outcome::ActionRequired(Action::SendLiteralAck(needed)),
                                    ),
                                    self.spec_consumed(),
                                    self.spec_needed(),
                                    buf@,
                                ));
                            }
                            Ok(Some(Outcome::ActionRequired(Action::SendLiteralAck(needed))))
                        }
                    },
                    Err(error) => {
                        buf.clear();
                        self.state = State::ReadLine { to_consume_acc: 0 };
                        proof {
                            let line_s = old(buf)@.take(q - 1);
                            if error == LiteralKind::BadNumber {
                                let i = choose|i: int|
                                    {
                                        let d = line_s.subrange(i + 1, line_s.len() - 1);
                                        &&& #[trigger] opening_brace_at(line_s, i)
                                        &&& (d.len() == 0 || !all_digits(d) || dec_value(d)
                                            > u32::MAX)
                                    };
                                assert(opening_brace_at(line_s, i));
                            }
                            assert(decode_step(
                                old(self).spec_max(),
                                consumed0,
                                needed0,
                                old(buf)@,
                                literal_err(error),
                                self.spec_consumed(),
                                self.spec_needed(),
                                buf@,
                            ));
                        }
                        Err(ImapServerCodecError::Literal(error))
                    },
                }
            },
            Ok(None) => Ok(None),
            Err(error) => {
                proof {
                    let p = choose|p: int|
                        start <= p < old(buf)@.len() && #[trigger] old(buf)@[p] == 10 && (
                        forall|j: int| start <= j < p ==> #[trigger] old(buf)@[j] != 10) && (p
                            == start || old(buf)@[p - 1] != 13);
                    assert(first_lf_at(old(buf)@, start as int, p));
                }
                buf.clear();
                self.state = State::ReadLine { to_consume_acc: 0 };
                Err(ImapServerCodecError::Line(error))
            },
        }
    }
}

/// Remove and return the first `n` bytes of `buf`.
fn take_prefix(buf: &mut Vec<u8>, n: usize) -> (r: Vec<u8>)
    requires
        n <= old(buf)@.len(),
    ensures
        r@ == old(buf)@.take(n as int),
        final(buf)@ == old(buf)@.skip(n as int),
{
    let mut head: Vec<u8> = Vec::new();
    let mut i: usize = 0;
    while i < n
        invariant
            0 <= i <= n <= buf@.len(),
            buf@ == old(buf)@,
            head@ == old(buf)@.take(i as int),
        decreases n - i,
    {
        head.push(buf[i]);
        proof {
            assert(head@ =~= old(buf)@.take(i + 1));
        }
        i = i + 1;
    }
    let len: usize = buf.len();
    let mut tail: Vec<u8> = Vec::new();
    let mut j: usize = n;
    while j < len
        invariant
            n <= j <= len,
            len == buf@.len(),
            buf@ == old(buf)@,
            tail@ == old(buf)@.subrange(n as int, j as int),
        decreases len - j,
    {
        tail.push(buf[j]);
        proof {
            assert(tail@ =~= old(buf)@.subrange(n as int, j + 1));
        }
        j = j + 1;
    }
    proof {
        assert(old(buf)@.subrange(n as int, len as int) =~= old(buf)@.skip(n as int));
    }
    *buf = tail;
    head
}

} // verus!
