//! Single certificates in PEM.

use vstd::prelude::*;
use vstd::string::*;
use vstd::utf8::{decode_utf8, encode_utf8, valid_utf8};

use crate::error::{Error, ErrorView};
use crate::outside::{
    base64_bytes, base64_decode, base64_encode, base64_text, is_base64_char, utf8_error_text,
    utf8_text,
};
use crate::text::{
    decimal, decimal_text, find_char, first_index, is_white_space, join2, join3, same_text, to_chars,
    trim, trim_bounds, trim_start,
};

verus! {

/// The line before a certificate.
pub const BEGIN_MARKER: &'static str = "-----BEGIN CERTIFICATE-----";

/// The line after a certificate.
pub const END_MARKER: &'static str = "-----END CERTIFICATE-----";

/// The lines of `s`, each without the white space around it.
pub open spec fn trimmed_lines(s: Seq<char>) -> Seq<Seq<char>>
    decreases s.len(),
{
    let n = first_index(s, '\n');
    if 0 <= n < s.len() {
        seq![trim(s.take(n))] + trimmed_lines(s.skip(n + 1))
    } else {
        seq![trim(s)]
    }
}

/// How many of `lines` read `line`.
pub open spec fn occurrences(lines: Seq<Seq<char>>, line: Seq<char>) -> nat
    decreases lines.len(),
{
    if lines.len() == 0 {
        0
    } else {
        (if lines[0] == line {
            1nat
        } else {
            0nat
        }) + occurrences(lines.drop_first(), line)
    }
}

/// What stands between the first `BEGIN` line and the next `END` line; `inside`
/// says whether the `BEGIN` line has come.
pub open spec fn armored_text(lines: Seq<Seq<char>>, inside: bool) -> Seq<char>
    decreases lines.len(),
{
    if lines.len() == 0 {
        seq![]
    } else if lines[0] == BEGIN_MARKER@ {
        armored_text(lines.drop_first(), true)
    } else if lines[0] == END_MARKER@ {
        seq![]
    } else if inside {
        lines[0] + armored_text(lines.drop_first(), inside)
    } else {
        armored_text(lines.drop_first(), inside)
    }
}

/// The certificate that PEM text holds.
pub open spec fn der_of_pem_text(s: Seq<char>) -> Result<Seq<u8>, ErrorView> {
    let lines = trimmed_lines(s);
    let begins = occurrences(lines, BEGIN_MARKER@);
    if begins > 1 {
        Err(
            ErrorView::CertificateError(
                "PEM holds "@ + decimal(begins) + " certificates; exactly one is expected"@,
            ),
        )
    } else {
        match base64_bytes(armored_text(lines, false)) {
            Ok(der) => Ok(der),
            Err(e) => Err(ErrorView::CertificateError("Failed to decode PEM base64: "@ + e)),
        }
    }
}

/// The certificate that a PEM file holds.
pub open spec fn der_of_pem(pem: Seq<u8>) -> Result<Seq<u8>, ErrorView> {
    if valid_utf8(pem) {
        der_of_pem_text(decode_utf8(pem))
    } else {
        Err(ErrorView::CertificateError("Invalid UTF-8 in PEM: "@ + utf8_error_text(pem)))
    }
}

/// `s` in lines of 64 characters.
pub open spec fn in_lines_of_64(s: Seq<char>) -> Seq<char>
    decreases s.len(),
{
    if s.len() == 0 {
        seq![]
    } else if s.len() <= 64 {
        s.push('\n')
    } else {
        s.take(64).push('\n') + in_lines_of_64(s.skip(64))
    }
}

/// The PEM text around the base64 text `s`.
pub open spec fn pem_text(s: Seq<char>) -> Seq<char> {
    BEGIN_MARKER@.push('\n') + in_lines_of_64(s) + END_MARKER@.push('\n')
}

/// A failed or successful decoding, by its contents.
pub open spec fn decoded(r: Result<Vec<u8>, Error>) -> Result<Seq<u8>, ErrorView> {
    match r {
        Ok(v) => Ok(v@),
        Err(e) => Err(e@),
    }
}

/// A line ends at its first line break.
proof fn lemma_first_line(line: Seq<char>, rest: Seq<char>)
    requires
        forall|i: int| 0 <= i < line.len() ==> line[i] != '\n',
    ensures
        first_index(line.push('\n') + rest, '\n') == line.len(),
    decreases line.len(),
{
    let s = line.push('\n') + rest;
    if line.len() > 0 {
        lemma_first_line(line.drop_first(), rest);
        assert(s.drop_first() =~= line.drop_first().push('\n') + rest);
    }
}

/// The lines of a text that starts with a whole line.
pub proof fn lemma_lines_of(line: Seq<char>, rest: Seq<char>)
    requires
        forall|i: int| 0 <= i < line.len() ==> line[i] != '\n',
    ensures
        trimmed_lines(line.push('\n') + rest) == seq![trim(line)] + trimmed_lines(rest),
{
    let s = line.push('\n') + rest;
    lemma_first_line(line, rest);
    assert(s.take(line.len() as int) =~= line);
    assert(s.skip((line.len() + 1) as int) =~= rest);
}

/// Text whose ends are no white space is its own trimming.
proof fn lemma_trim_solid(s: Seq<char>)
    requires
        forall|i: int| 0 <= i < s.len() ==> !is_white_space(s[i]),
    ensures
        trim(s) == s,
{
    assert(trim_start(s) == s);
}

/// Reading armored lines gives back the base64 text that was put into them.
proof fn lemma_armor_body(s: Seq<char>)
    requires
        forall|i: int| 0 <= i < s.len() ==> is_base64_char(#[trigger] s[i]),
    ensures
        armored_text(trimmed_lines(in_lines_of_64(s) + END_MARKER@.push('\n')), true) == s,
        occurrences(trimmed_lines(in_lines_of_64(s) + END_MARKER@.push('\n')), BEGIN_MARKER@) == 0,
    decreases s.len(),
{
    reveal_strlit("-----BEGIN CERTIFICATE-----");
    reveal_strlit("-----END CERTIFICATE-----");
    let tail = END_MARKER@.push('\n');
    let empty = Seq::<char>::empty();
    if s.len() == 0 {
        lemma_lines_of(END_MARKER@, empty);
        lemma_trim_solid_marker(END_MARKER@);
        assert(in_lines_of_64(s) + tail =~= END_MARKER@.push('\n') + empty);
        let lines = trimmed_lines(END_MARKER@.push('\n') + empty);
        assert(trimmed_lines(empty) =~= seq![empty]);
        assert(lines =~= seq![END_MARKER@, empty]);
        assert(lines.drop_first() =~= seq![empty]);
        assert(lines.drop_first().drop_first() =~= Seq::<Seq<char>>::empty());
        assert(BEGIN_MARKER@.len() == 27);
        assert(END_MARKER@.len() == 25);
        reveal_with_fuel(occurrences, 3);
        assert(armored_text(lines, true) =~= s);
    } else {
        let n = if s.len() <= 64 {
            s.len() as int
        } else {
            64
        };
        let chunk = s.take(n);
        let rest = s.skip(n);
        lemma_armor_body(rest);
        assert(in_lines_of_64(s) =~= chunk.push('\n') + in_lines_of_64(rest)) by {
            if s.len() <= 64 {
                assert(chunk =~= s);
                assert(rest =~= empty);
            }
        }
        let after = in_lines_of_64(rest) + tail;
        assert(in_lines_of_64(s) + tail =~= chunk.push('\n') + after);
        assert forall|i: int| 0 <= i < chunk.len() implies chunk[i] != '\n' && !is_white_space(
            chunk[i],
        ) && chunk[i] != '-' by {
            assert(is_base64_char(s[i]));
        }
        lemma_lines_of(chunk, after);
        lemma_trim_solid(chunk);
        let lines = trimmed_lines(chunk.push('\n') + after);
        assert(lines =~= seq![chunk] + trimmed_lines(after));
        assert(lines.drop_first() =~= trimmed_lines(after));
        assert(chunk[0] != '-');
        assert(BEGIN_MARKER@[0] == '-');
        assert(END_MARKER@[0] == '-');
        assert(armored_text(lines, true) =~= chunk + rest);
        assert(chunk + rest =~= s);
    }
}

/// A marker line has white space inside, but none around it.
proof fn lemma_trim_solid_marker(marker: Seq<char>)
    requires
        marker.len() > 0,
        !is_white_space(marker[0]),
        !is_white_space(marker.last()),
    ensures
        trim(marker) == marker,
{
}

/// Reading PEM text gives back what was armored.
pub proof fn lemma_pem_round_trip(s: Seq<char>)
    requires
        forall|i: int| 0 <= i < s.len() ==> is_base64_char(#[trigger] s[i]),
    ensures
        occurrences(trimmed_lines(pem_text(s)), BEGIN_MARKER@) == 1,
        armored_text(trimmed_lines(pem_text(s)), false) == s,
{
    reveal_strlit("-----BEGIN CERTIFICATE-----");
    reveal_strlit("-----END CERTIFICATE-----");
    let after = in_lines_of_64(s) + END_MARKER@.push('\n');
    assert(pem_text(s) =~= BEGIN_MARKER@.push('\n') + after);
    lemma_lines_of(BEGIN_MARKER@, after);
    lemma_trim_solid_marker(BEGIN_MARKER@);
    lemma_armor_body(s);
    let lines = trimmed_lines(pem_text(s));
    assert(lines =~= seq![BEGIN_MARKER@] + trimmed_lines(after));
    assert(lines.drop_first() =~= trimmed_lines(after));
}

/// Decode the single certificate of a PEM file to DER.
///
/// The file holds at most one `BEGIN CERTIFICATE` line. A bundle (a leaf and
/// its chain) is an error rather than being decoded as its first entry.
pub fn pem_to_der(pem_bytes: &[u8]) -> (r: Result<Vec<u8>, Error>)
    ensures
        decoded(r) == der_of_pem(pem_bytes@),
{
    let text = match utf8_text(pem_bytes) {
        Ok(t) => t,
        Err(e) => {
            return Err(Error::CertificateError(join2("Invalid UTF-8 in PEM: ", e.as_str())));
        },
    };
    let chars = to_chars(text);
    proof {
        reveal_strlit("-----BEGIN CERTIFICATE-----");
    }
    let begins = count_lines(text, &chars, BEGIN_MARKER);
    if begins > 1 {
        let count = decimal_text(begins);
        return Err(
            Error::CertificateError(
                join3("PEM holds ", count.as_str(), " certificates; exactly one is expected"),
            ),
        );
    }
    let body = collect_armored(text, &chars);
    match base64_decode(body.as_str()) {
        Ok(der) => Ok(der),
        Err(e) => Err(
            Error::CertificateError(join2("Failed to decode PEM base64: ", e.as_str())),
        ),
    }
}

/// How many trimmed lines of `text` read `line`.
fn count_lines(text: &str, chars: &Vec<char>, line: &str) -> (r: u64)
    requires
        chars@ == text@,
        line@.len() > 0,
    ensures
        r == occurrences(trimmed_lines(text@), line@),
{
    let mut count: u64 = 0;
    let mut from: usize = 0;
    let mut more: bool = true;
    assert(text@.skip(0) =~= text@);
    while more
        invariant
            chars@ == text@,
            from <= chars.len(),
            line@.len() > 0,
            count <= chars.len(),
            more ==> count <= from,
            more ==> occurrences(trimmed_lines(text@), line@) == count + occurrences(
                trimmed_lines(text@.skip(from as int)),
                line@,
            ),
            !more ==> occurrences(trimmed_lines(text@), line@) == count,
        decreases chars.len() - from + (if more { 1int } else { 0int }),
    {
        let ghost rest = text@.skip(from as int);
        let end = find_char(chars, from, chars.len(), '\n');
        assert(chars@.subrange(from as int, chars.len() as int) =~= rest);
        let (a, b) = trim_bounds(chars, from, end);
        let piece = text.substring_char(a, b);
        assert(chars@.subrange(from as int, end as int) =~= rest.take(end - from));
        assert(piece@ == trim(rest.take(end - from)));
        let found = same_text(piece, line);
        assert(found ==> a < b);
        let ghost lines = trimmed_lines(rest);
        if end < chars.len() {
            proof {
                assert(lines.drop_first() =~= trimmed_lines(rest.skip(end - from + 1)));
                assert(rest.skip(end - from + 1) =~= text@.skip(end + 1));
            }
            if found {
                count = count + 1;
            }
            from = end + 1;
        } else {
            proof {
                assert(rest.take(end - from) =~= rest);
                assert(lines.drop_first() =~= Seq::<Seq<char>>::empty());
                reveal_with_fuel(occurrences, 2);
            }
            if found {
                count = count + 1;
            }
            more = false;
        }
    }
    count
}

/// The base64 text between the marker lines of `text`.
fn collect_armored(text: &str, chars: &Vec<char>) -> (r: String)
    requires
        chars@ == text@,
    ensures
        r@ == armored_text(trimmed_lines(text@), false),
{
    let mut out = String::new();
    let mut from: usize = 0;
    let mut inside: bool = false;
    assert(text@.skip(0) =~= text@);
    loop
        invariant
            chars@ == text@,
            from <= chars.len(),
            armored_text(trimmed_lines(text@), false) == out@ + armored_text(
                trimmed_lines(text@.skip(from as int)),
                inside,
            ),
        decreases chars.len() - from,
    {
        let ghost rest = text@.skip(from as int);
        let end = find_char(chars, from, chars.len(), '\n');
        assert(chars@.subrange(from as int, chars.len() as int) =~= rest);
        let (a, b) = trim_bounds(chars, from, end);
        let piece = text.substring_char(a, b);
        assert(chars@.subrange(from as int, end as int) =~= rest.take(end - from));
        assert(piece@ == trim(rest.take(end - from)));
        let ghost lines = trimmed_lines(rest);
        let ghost before = out@;
        proof {
            if end < chars.len() {
                assert(lines.drop_first() =~= trimmed_lines(rest.skip(end - from + 1)));
                assert(rest.skip(end - from + 1) =~= text@.skip(end + 1));
            } else {
                assert(rest.take(end - from) =~= rest);
                assert(lines.drop_first() =~= Seq::<Seq<char>>::empty());
            }
            assert(lines[0] == piece@);
        }
        if same_text(piece, BEGIN_MARKER) {
            inside = true;
        } else if same_text(piece, END_MARKER) {
            assert(out@ + Seq::<char>::empty() =~= out@);
            return out;
        } else if inside {
            out.append(piece);
            assert(forall|t: Seq<char>| before + (piece@ + t) =~= #[trigger] (out@ + t));
        }
        if end == chars.len() {
            proof {
                reveal_with_fuel(armored_text, 2);
                assert(out@ + Seq::<char>::empty() =~= out@);
                assert(armored_text(lines.drop_first(), inside) =~= Seq::<char>::empty());
            }
            return out;
        }
        from = end + 1;
    }
}

/// Encode a certificate in PEM, in lines of 64 characters. Decoding the file
/// gives the certificate back.
pub fn der_to_pem(der_bytes: &[u8]) -> (r: Result<Vec<u8>, Error>)
    ensures
        r matches Ok(pem) && pem@ == encode_utf8(pem_text(base64_text(der_bytes@)))
            && der_of_pem(pem@) == Ok::<Seq<u8>, ErrorView>(der_bytes@),
{
    let b64 = base64_encode(der_bytes);
    let chars = to_chars(b64.as_str());
    let mut pem = join2(BEGIN_MARKER, "\n");
    let ghost head = pem@;
    let mut from: usize = 0;
    proof {
        reveal_strlit("\n");
        assert("\n"@ =~= seq!['\n']);
        assert(head =~= BEGIN_MARKER@.push('\n'));
        assert(b64@.skip(0) =~= b64@);
        assert(pem@ + in_lines_of_64(b64@) =~= head + in_lines_of_64(b64@));
    }
    while from < chars.len()
        invariant
            chars@ == b64@,
            from <= chars.len(),
            "\n"@ =~= seq!['\n'],
            pem@ + in_lines_of_64(b64@.skip(from as int)) == head + in_lines_of_64(b64@),
        decreases chars.len() - from,
    {
        let ghost rest = b64@.skip(from as int);
        let ghost before = pem@;
        let to: usize = if chars.len() - from > 64 {
            from + 64
        } else {
            chars.len()
        };
        pem.append(b64.as_str().substring_char(from, to));
        pem.append("\n");
        proof {
            let n = to - from;
            assert(b64@.subrange(from as int, to as int) =~= rest.take(n));
            assert(rest.skip(n) =~= b64@.skip(to as int));
            if rest.len() <= 64 {
                assert(rest.take(n) =~= rest);
            }
            assert(in_lines_of_64(rest) =~= rest.take(n).push('\n') + in_lines_of_64(rest.skip(n)));
            assert(pem@ =~= before + rest.take(n).push('\n'));
            assert(pem@ + in_lines_of_64(rest.skip(n)) =~= before + in_lines_of_64(rest));
        }
        from = to;
    }
    proof {
        assert(b64@.skip(from as int) =~= Seq::<char>::empty());
        assert(pem@ =~= head + in_lines_of_64(b64@));
    }
    pem.append(END_MARKER);
    pem.append("\n");
    proof {
        assert(pem@ =~= pem_text(b64@));
        lemma_pem_round_trip(b64@);
        broadcast use vstd::utf8::group_utf8_lib;

    }
    Ok(pem.as_str().as_bytes_vec())
}

} // verus!
