//! Packet lines: how bytes that arrive in pieces are cut at newlines, within a
//! cap on the length of a line.
//!
//! A reader is asked for what it has; the functions here take that piece, say
//! how much of it they used, and whether a line is complete. A piece without
//! bytes means that the stream has ended.

use vstd::prelude::*;

use crate::error::Error;

verus! {

/// The cap on the lines of identities, which arrive before anyone is
/// authenticated: 512 KiB.
pub const MAX_PACKET_SIZE: usize = 524_288;

/// The cap on the lines of an established link: 32 MiB.
pub const MAX_STEADY_PACKET_SIZE: usize = 33_554_432;

/// The byte that ends a line.
pub const NEWLINE: u8 = 10;

/// How many bytes the first line of `bytes` has, its newline included; all of
/// them where there is no newline.
pub open spec fn line_len(bytes: Seq<u8>) -> nat
    decreases bytes.len(),
{
    if bytes.len() == 0 {
        0
    } else if bytes[0] == NEWLINE {
        1
    } else {
        1 + line_len(bytes.drop_first())
    }
}

/// The first line of `bytes`, its newline included.
pub open spec fn first_line(bytes: Seq<u8>) -> Seq<u8> {
    bytes.take(line_len(bytes) as int)
}

/// Whether `bytes` hold a newline.
pub open spec fn has_line(bytes: Seq<u8>) -> bool {
    bytes.contains(NEWLINE)
}

/// What `line_len` is.
pub proof fn lemma_line_len(bytes: Seq<u8>)
    ensures
        line_len(bytes) <= bytes.len(),
        forall|i: int| 0 <= i < line_len(bytes) - 1 ==> bytes[i] != NEWLINE,
        has_line(bytes) ==> line_len(bytes) > 0 && bytes[line_len(bytes) - 1] == NEWLINE,
        !has_line(bytes) ==> line_len(bytes) == bytes.len(),
        bytes.len() > 0 ==> line_len(bytes) > 0,
    decreases bytes.len(),
{
    if bytes.len() > 0 && bytes[0] != NEWLINE {
        let rest = bytes.drop_first();
        lemma_line_len(rest);
        assert forall|i: int| 0 <= i < line_len(bytes) - 1 implies bytes[i] != NEWLINE by {
            if i > 0 {
                assert(rest[i - 1] == bytes[i]);
            }
        }
        if has_line(bytes) {
            let k = choose|k: int| 0 <= k < bytes.len() && bytes[k] == NEWLINE;
            assert(rest[k - 1] == NEWLINE);
            assert(bytes[line_len(bytes) - 1] == rest[line_len(rest) - 1]);
        }
        if has_line(rest) {
            let k = choose|k: int| 0 <= k < rest.len() && rest[k] == NEWLINE;
            assert(bytes[k + 1] == NEWLINE);
        }
    } else if bytes.len() > 0 {
        assert(has_line(bytes));
    }
}

/// What a piece of a stream led to.
#[derive(Debug)]
pub struct Fed<T> {
    /// How many bytes of the piece were used.
    pub consume: usize,
    /// The outcome, once there is one; until then more bytes are needed.
    pub outcome: Option<T>,
}

/// Where the first newline of a piece stands, one further; the end of the piece
/// where there is none, with whether there is one.
fn line_end(available: &[u8]) -> (r: (usize, bool))
    ensures
        r.0 == line_len(available@),
        r.1 == has_line(available@),
{
    let mut i: usize = 0;
    assert(available@.skip(0) =~= available@);
    while i < available.len()
        invariant
            i <= available@.len(),
            line_len(available@) == i + line_len(available@.skip(i as int)),
            forall|j: int| 0 <= j < i ==> available@[j] != NEWLINE,
        decreases available@.len() - i,
    {
        if available[i] == NEWLINE {
            assert(available@.skip(i as int)[0] == NEWLINE);
            return (i + 1, true);
        }
        assert(available@.skip(i as int).drop_first() =~= available@.skip(i + 1));
        i = i + 1;
    }
    (i, false)
}

/// Adds the first `take` bytes of a piece to a line.
fn extend(buf: &mut Vec<u8>, available: &[u8], take: usize)
    requires
        take <= available@.len(),
    ensures
        final(buf)@ == old(buf)@ + available@.take(take as int),
{
    let mut i: usize = 0;
    assert(available@.take(0) =~= Seq::<u8>::empty());
    while i < take
        invariant
            i <= take <= available@.len(),
            buf@ == old(buf)@ + available@.take(i as int),
        decreases take - i,
    {
        buf.push(available[i]);
        assert(available@.take(i + 1) =~= available@.take(i as int).push(available@[i as int]));
        i = i + 1;
    }
}

/// What one piece does to a bounded line that holds `buf` so far and began
/// after `start` bytes: the bytes used, the line after it, and the outcome.
pub open spec fn bounded_step(
    buf: Seq<u8>,
    start: nat,
    available: Seq<u8>,
    max_len: nat,
) -> (nat, Seq<u8>, Option<Result<nat, (nat, nat)>>) {
    if available.len() == 0 {
        (0, buf, Some(Ok((buf.len() - start) as nat)))
    } else if buf.len() + line_len(available) > max_len {
        (0, buf, Some(Err((buf.len() + line_len(available), max_len))))
    } else {
        let more = buf + first_line(available);
        (
            line_len(available),
            more,
            if has_line(available) {
                Some(Ok((more.len() - start) as nat))
            } else {
                None
            },
        )
    }
}

/// The outcome of a bounded line, by its contents.
pub open spec fn bounded_outcome(r: Option<Result<usize, Error>>) -> Option<Result<nat, (nat, nat)>> {
    match r {
        None => None,
        Some(Ok(n)) => Some(Ok(n as nat)),
        Some(Err(e)) => match e {
            Error::PacketTooLarge { size, max } => Some(Err((size as nat, max as nat))),
            _ => None,
        },
    }
}

/// Takes one piece of a stream into a line that began after `start` bytes of
/// `buf`. The cap holds during the read: as soon as the bytes would exceed it
/// the read fails, without waiting for the newline or the end. The newline is
/// part of the line, and a line of no bytes means that the stream ended with
/// nothing read.
pub fn read_line_bounded(buf: &mut Vec<u8>, start: usize, available: &[u8], max_len: usize) -> (r:
    Fed<Result<usize, Error>>)
    requires
        start <= old(buf)@.len(),
        old(buf)@.len() + available@.len() <= usize::MAX,
    ensures
        (r.consume as nat, final(buf)@, bounded_outcome(r.outcome)) == bounded_step(
            old(buf)@,
            start as nat,
            available@,
            max_len as nat,
        ),
        r.outcome is None <==> bounded_outcome(r.outcome) is None,
{
    if available.len() == 0 {
        return Fed { consume: 0, outcome: Some(Ok(buf.len() - start)) };
    }
    let (take, complete) = line_end(available);
    proof {
        lemma_line_len(available@);
    }
    if buf.len() + take > max_len {
        return Fed {
            consume: 0,
            outcome: Some(Err(Error::PacketTooLarge { size: buf.len() + take, max: max_len })),
        };
    }
    extend(buf, available, take);
    if complete {
        Fed { consume: take, outcome: Some(Ok(buf.len() - start)) }
    } else {
        Fed { consume: take, outcome: None }
    }
}

/// The outcome of reading one line of an established link.
#[derive(Debug, Clone, Copy, PartialEq, Eq, Structural)]
pub enum SteadyLine {
    /// A line of so many bytes, which ends with a newline or at the end of the
    /// stream.
    Line(usize),
    /// A line over the cap, which was used up to its newline and dropped.
    OversizeSkipped,
    /// The end of the stream with no line to hand over.
    Eof,
}

/// What one piece does to a line of an established link: the bytes used, the
/// line and whether it is being dropped after it, and the outcome.
pub open spec fn steady_step(
    buf: Seq<u8>,
    start: nat,
    discarding: bool,
    available: Seq<u8>,
    max_len: nat,
) -> (nat, Seq<u8>, bool, Option<SteadyLine>) {
    if available.len() == 0 {
        (
            0,
            buf,
            discarding,
            Some(
                if discarding || buf.len() == start {
                    SteadyLine::Eof
                } else {
                    SteadyLine::Line((buf.len() - start) as usize)
                },
            ),
        )
    } else {
        let take = line_len(available);
        if discarding || buf.len() + take > max_len {
            (
                take,
                if discarding {
                    buf
                } else {
                    buf.take(start as int)
                },
                true,
                if has_line(available) {
                    Some(SteadyLine::OversizeSkipped)
                } else {
                    None
                },
            )
        } else {
            let more = buf + first_line(available);
            (
                take,
                more,
                false,
                if has_line(available) {
                    Some(SteadyLine::Line((more.len() - start) as usize))
                } else {
                    None
                },
            )
        }
    }
}

/// Takes one piece of a stream into a line of an established link. A line over
/// the cap does not end the link: it is used up and dropped, and the next read
/// starts with the line after it.
pub fn read_steady_line(
    buf: &mut Vec<u8>,
    start: usize,
    discarding: &mut bool,
    available: &[u8],
    max_len: usize,
) -> (r: Fed<SteadyLine>)
    requires
        start <= old(buf)@.len(),
        old(buf)@.len() + available@.len() <= usize::MAX,
    ensures
        (r.consume as nat, final(buf)@, *final(discarding), r.outcome) == steady_step(
            old(buf)@,
            start as nat,
            *old(discarding),
            available@,
            max_len as nat,
        ),
{
    if available.len() == 0 {
        let outcome = if *discarding || buf.len() == start {
            SteadyLine::Eof
        } else {
            SteadyLine::Line(buf.len() - start)
        };
        return Fed { consume: 0, outcome: Some(outcome) };
    }
    let (take, complete) = line_end(available);
    proof {
        lemma_line_len(available@);
    }
    if *discarding || buf.len() + take > max_len {
        if !*discarding {
            buf.truncate(start);
        }
        *discarding = true;
        let outcome = if complete {
            Some(SteadyLine::OversizeSkipped)
        } else {
            None
        };
        return Fed { consume: take, outcome };
    }
    extend(buf, available, take);
    let outcome = if complete {
        Some(SteadyLine::Line(buf.len() - start))
    } else {
        None
    };
    Fed { consume: take, outcome }
}

/// The bytes of a stream that arrives in pieces.
pub open spec fn joined(pieces: Seq<Seq<u8>>) -> Seq<u8>
    decreases pieces.len(),
{
    if pieces.len() == 0 {
        Seq::empty()
    } else {
        pieces[0] + joined(pieces.drop_first())
    }
}

/// Whether every piece holds something, as pieces do until the stream ends.
pub open spec fn all_filled(pieces: Seq<Seq<u8>>) -> bool {
    forall|i: int| 0 <= i < pieces.len() ==> (#[trigger] pieces[i]).len() > 0
}

/// What reading a bounded line from `pieces` and then the end of the stream
/// comes to: the bytes used, the line, and the outcome.
pub open spec fn bounded_read(
    buf: Seq<u8>,
    start: nat,
    pieces: Seq<Seq<u8>>,
    max_len: nat,
) -> (nat, Seq<u8>, Option<Result<nat, (nat, nat)>>)
    decreases pieces.len(),
{
    if pieces.len() == 0 {
        bounded_step(buf, start, Seq::empty(), max_len)
    } else {
        let (used, line, outcome) = bounded_step(buf, start, pieces[0], max_len);
        if outcome is Some {
            (used, line, outcome)
        } else {
            let (more, last, end) = bounded_read(line, start, pieces.drop_first(), max_len);
            (used + more, last, end)
        }
    }
}

/// What reading a line of an established link from `pieces` and then the end of
/// the stream comes to.
pub open spec fn steady_read(
    buf: Seq<u8>,
    start: nat,
    discarding: bool,
    pieces: Seq<Seq<u8>>,
    max_len: nat,
) -> (nat, Seq<u8>, Option<SteadyLine>)
    decreases pieces.len(),
{
    if pieces.len() == 0 {
        let (used, line, _, outcome) = steady_step(buf, start, discarding, Seq::empty(), max_len);
        (used, line, outcome)
    } else {
        let (used, line, dropping, outcome) = steady_step(
            buf,
            start,
            discarding,
            pieces[0],
            max_len,
        );
        if outcome is Some {
            (used, line, outcome)
        } else {
            let (more, last, end) = steady_read(
                line,
                start,
                dropping,
                pieces.drop_first(),
                max_len,
            );
            (used + more, last, end)
        }
    }
}

/// The first line of two pieces in one.
proof fn lemma_line_of_two(a: Seq<u8>, b: Seq<u8>)
    ensures
        has_line(a + b) == (has_line(a) || has_line(b)),
        has_line(a) ==> line_len(a + b) == line_len(a) && first_line(a + b) == first_line(a),
        !has_line(a) ==> line_len(a + b) == a.len() + line_len(b) && first_line(a + b) == a
            + first_line(b),
    decreases a.len(),
{
    lemma_line_len(a);
    lemma_line_len(b);
    lemma_line_len(a + b);
    if has_line(a) {
        let k = choose|k: int| 0 <= k < a.len() && a[k] == NEWLINE;
        assert((a + b)[k] == NEWLINE);
    }
    if has_line(b) {
        let k = choose|k: int| 0 <= k < b.len() && b[k] == NEWLINE;
        assert((a + b)[a.len() + k] == NEWLINE);
    }
    if has_line(a + b) && !has_line(a) {
        let k = choose|k: int| 0 <= k < (a + b).len() && (a + b)[k] == NEWLINE;
        assert(k >= a.len()) by {
            if k < a.len() {
                assert(a[k] == NEWLINE);
            }
        }
        assert(b[k - a.len()] == NEWLINE);
    }
    if a.len() == 0 {
        assert(a + b =~= b);
    } else if a[0] != NEWLINE {
        let rest = a.drop_first();
        assert((a + b).drop_first() =~= rest + b);
        lemma_line_of_two(rest, b);
        lemma_line_len(rest);
        assert(has_line(rest) == has_line(a)) by {
            if has_line(a) {
                let k = choose|k: int| 0 <= k < a.len() && a[k] == NEWLINE;
                assert(rest[k - 1] == NEWLINE);
            }
            if has_line(rest) {
                let k = choose|k: int| 0 <= k < rest.len() && rest[k] == NEWLINE;
                assert(a[k + 1] == NEWLINE);
            }
        }
    }
    assert(has_line(a) ==> first_line(a + b) =~= first_line(a));
    assert(!has_line(a) ==> first_line(a + b) =~= a + first_line(b));
}

/// However a stream is cut into pieces, a bounded read gives its first line and
/// uses exactly that line, where the line fits under the cap; where it does
/// not, the read fails.
pub proof fn law_bounded_read_ignores_pieces(
    buf: Seq<u8>,
    start: nat,
    pieces: Seq<Seq<u8>>,
    max_len: nat,
)
    requires
        start <= buf.len(),
        all_filled(pieces),
    ensures
        ({
            let bytes = joined(pieces);
            let read = bounded_read(buf, start, pieces, max_len);
            if bytes.len() > 0 && buf.len() + line_len(bytes) > max_len {
                read.2 matches Some(Err((size, max))) && max == max_len && max_len < size <= buf.len()
                    + line_len(bytes)
            } else {
                read == (
                    line_len(bytes),
                    buf + first_line(bytes),
                    Some(Ok::<nat, (nat, nat)>((buf.len() + line_len(bytes) - start) as nat)),
                )
            }
        }),
    decreases pieces.len(),
{
    let bytes = joined(pieces);
    lemma_line_len(bytes);
    if pieces.len() == 0 {
        assert(buf + first_line(bytes) =~= buf);
    } else {
        let (a, rest) = (pieces[0], pieces.drop_first());
        let b = joined(rest);
        lemma_line_of_two(a, b);
        lemma_line_len(a);
        lemma_line_len(b);
        assert(all_filled(rest)) by {
            assert forall|i: int| 0 <= i < rest.len() implies (#[trigger] rest[i]).len() > 0 by {
                assert(rest[i] == pieces[i + 1]);
            }
        }
        if buf.len() + line_len(a) <= max_len && !has_line(a) {
            assert(first_line(a) =~= a);
            law_bounded_read_ignores_pieces(buf + a, start, rest, max_len);
            assert(buf + a + first_line(b) =~= buf + first_line(bytes));
        }
    }
}

/// A bounded read never holds more than the cap.
pub proof fn law_bounded_read_stays_under_the_cap(
    buf: Seq<u8>,
    start: nat,
    pieces: Seq<Seq<u8>>,
    max_len: nat,
)
    requires
        start <= buf.len() <= max_len,
    ensures
        bounded_read(buf, start, pieces, max_len).1.len() <= max_len,
    decreases pieces.len(),
{
    if pieces.len() > 0 {
        lemma_line_len(pieces[0]);
        let (_, line, outcome) = bounded_step(buf, start, pieces[0], max_len);
        if outcome is None {
            law_bounded_read_stays_under_the_cap(line, start, pieces.drop_first(), max_len);
        }
    }
}

/// What is dropped of a line over the cap is the line.
proof fn lemma_discarding_read(
    buf: Seq<u8>,
    start: nat,
    pieces: Seq<Seq<u8>>,
    max_len: nat,
)
    requires
        all_filled(pieces),
    ensures
        steady_read(buf, start, true, pieces, max_len) == (
            line_len(joined(pieces)),
            buf,
            Some(
                if has_line(joined(pieces)) {
                    SteadyLine::OversizeSkipped
                } else {
                    SteadyLine::Eof
                },
            ),
        ),
    decreases pieces.len(),
{
    if pieces.len() > 0 {
        let (a, rest) = (pieces[0], pieces.drop_first());
        lemma_line_of_two(a, joined(rest));
        lemma_line_len(a);
        assert(all_filled(rest)) by {
            assert forall|i: int| 0 <= i < rest.len() implies (#[trigger] rest[i]).len() > 0 by {
                assert(rest[i] == pieces[i + 1]);
            }
        }
        if !has_line(a) {
            lemma_discarding_read(buf, start, rest, max_len);
        }
    } else {
        assert(!has_line(joined(pieces)));
    }
}

/// However a stream is cut into pieces, a read on an established link gives its
/// first line where the line fits under the cap, and skips it where it does
/// not; either way it uses exactly that line, so that the next read starts with
/// the line after it.
pub proof fn law_steady_read_ignores_pieces(
    buf: Seq<u8>,
    start: nat,
    pieces: Seq<Seq<u8>>,
    max_len: nat,
)
    requires
        start <= buf.len(),
        all_filled(pieces),
    ensures
        ({
            let bytes = joined(pieces);
            let read = steady_read(buf, start, false, pieces, max_len);
            &&& read.0 == line_len(bytes)
            &&& if bytes.len() > 0 && buf.len() + line_len(bytes) > max_len {
                &&& read.1 == buf.take(start as int)
                &&& read.2 == Some(
                    if has_line(bytes) {
                        SteadyLine::OversizeSkipped
                    } else {
                        SteadyLine::Eof
                    },
                )
            } else {
                &&& read.1 == buf + first_line(bytes)
                &&& read.2 == Some(
                    if read.1.len() == start {
                        SteadyLine::Eof
                    } else {
                        SteadyLine::Line((read.1.len() - start) as usize)
                    },
                )
            }
        }),
    decreases pieces.len(),
{
    let bytes = joined(pieces);
    lemma_line_len(bytes);
    if pieces.len() == 0 {
        assert(buf + first_line(bytes) =~= buf);
    } else {
        let (a, rest) = (pieces[0], pieces.drop_first());
        let b = joined(rest);
        lemma_line_of_two(a, b);
        lemma_line_len(a);
        lemma_line_len(b);
        assert(all_filled(rest)) by {
            assert forall|i: int| 0 <= i < rest.len() implies (#[trigger] rest[i]).len() > 0 by {
                assert(rest[i] == pieces[i + 1]);
            }
        }
        if buf.len() + line_len(a) > max_len {
            lemma_discarding_read(buf.take(start as int), start, rest, max_len);
        } else if !has_line(a) {
            assert(first_line(a) =~= a);
            law_steady_read_ignores_pieces(buf + a, start, rest, max_len);
            assert(buf + a + first_line(b) =~= buf + first_line(bytes));
            assert((buf + a).take(start as int) =~= buf.take(start as int));
        }
    }
}

/// The first line ends with the first byte 10; where there is none, all bytes
/// are part of it.
pub proof fn law_lines_end_at_the_first_newline(bytes: Seq<u8>, i: int)
    requires
        0 <= i <= bytes.len(),
        forall|j: int| 0 <= j < i ==> bytes[j] != 10,
        i < bytes.len() ==> bytes[i] == 10,
    ensures
        has_line(bytes) <==> i < bytes.len(),
        line_len(bytes) == (if i < bytes.len() {
            i + 1
        } else {
            i
        }),
        first_line(bytes) == bytes.take(
            if i < bytes.len() {
                i + 1
            } else {
                i
            },
        ),
{
    lemma_line_len(bytes);
    if i < bytes.len() {
        assert(bytes[i] == NEWLINE);
        assert(has_line(bytes));
        if line_len(bytes) - 1 < i {
            assert(bytes[line_len(bytes) - 1] != 10);
        }
        if line_len(bytes) - 1 > i {
            assert(bytes[i] != NEWLINE);
        }
    } else if has_line(bytes) {
        let k = choose|k: int| 0 <= k < bytes.len() && bytes[k] == NEWLINE;
        assert(bytes[k] != 10);
    }
}

/// One piece of a bounded read, where `take` bytes of it belong to the line: at
/// the end of the stream the line is what there is; a line that would go over the
/// cap is refused with the size that it would have had, and nothing is used;
/// otherwise these bytes are added and used, and the line is complete if and only
/// if the piece holds a newline.
pub proof fn law_bounded_pieces(
    buf: Seq<u8>,
    start: nat,
    available: Seq<u8>,
    max_len: nat,
    i: int,
    take: nat,
)
    requires
        start <= buf.len(),
        0 <= i <= available.len(),
        forall|j: int| 0 <= j < i ==> available[j] != 10,
        i < available.len() ==> available[i] == 10,
        take == (if i < available.len() {
            i + 1
        } else {
            i
        }),
    ensures
        ({
            let (used, line, outcome) = bounded_step(buf, start, available, max_len);
            &&& available.len() == 0 ==> used == 0 && line == buf && outcome == Some(
                Ok::<nat, (nat, nat)>((buf.len() - start) as nat),
            )
            &&& available.len() > 0 && buf.len() + take > max_len ==> used == 0 && line == buf
                && outcome == Some(Err::<nat, (nat, nat)>((buf.len() + take, max_len)))
            &&& available.len() > 0 && buf.len() + take <= max_len ==> used == take && line == buf
                + available.take(take as int) && (outcome is None <==> i == available.len()) && (
            outcome is Some ==> outcome == Some(
                Ok::<nat, (nat, nat)>((buf.len() + take - start) as nat),
            ))
        }),
{
    law_lines_end_at_the_first_newline(available, i);
}

/// One piece of a read on an established link, where `take` bytes of it belong to
/// the line: they are used whatever becomes of the line. They are added as long
/// as the line fits the cap; a line that does not is dropped as far as it was
/// read, and is skipped once its newline has come.
pub proof fn law_steady_pieces(
    buf: Seq<u8>,
    start: nat,
    discarding: bool,
    available: Seq<u8>,
    max_len: nat,
    i: int,
    take: nat,
)
    requires
        start <= buf.len() <= usize::MAX - available.len(),
        0 <= i <= available.len(),
        forall|j: int| 0 <= j < i ==> available[j] != 10,
        i < available.len() ==> available[i] == 10,
        take == (if i < available.len() {
            i + 1
        } else {
            i
        }),
    ensures
        ({
            let (used, line, dropping, outcome) = steady_step(
                buf,
                start,
                discarding,
                available,
                max_len,
            );
            let keeps = !discarding && buf.len() + take <= max_len;
            &&& used == take
            &&& available.len() == 0 ==> line == buf && dropping == discarding && (match outcome {
                Some(SteadyLine::Eof) => discarding || buf.len() == start,
                Some(SteadyLine::Line(n)) => !discarding && buf.len() > start && n == buf.len()
                    - start,
                _ => false,
            })
            &&& available.len() > 0 ==> (outcome is None <==> i == available.len())
            &&& available.len() > 0 && keeps ==> !dropping && line == buf + available.take(
                take as int,
            ) && (outcome is Some ==> (outcome->0 matches SteadyLine::Line(n) && n == buf.len()
                + take - start))
            &&& available.len() > 0 && !keeps ==> dropping && (outcome is Some ==> outcome->0
                is OversizeSkipped) && line == (if discarding {
                buf
            } else {
                buf.take(start as int)
            })
        }),
{
    law_lines_end_at_the_first_newline(available, i);
}

/// The outcome of a bounded read tells the bytes of the line, or the size that it
/// would have had and the cap.
pub proof fn law_bounded_outcomes(n: usize, size: usize, max: usize)
    ensures
        bounded_outcome(None) is None,
        bounded_outcome(Some(Ok(n))) == Some(Ok::<nat, (nat, nat)>(n as nat)),
        bounded_outcome(Some(Err(Error::PacketTooLarge { size, max }))) == Some(
            Err::<nat, (nat, nat)>((size as nat, max as nat)),
        ),
{
}

} // verus!
