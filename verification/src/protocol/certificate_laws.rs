//! What certificates, their files and the handshake come to, part by part.

use vstd::prelude::*;
use vstd::utf8::{decode_utf8, encode_utf8, is_ascii_chars, valid_utf8};

use crate::error::{Error, ErrorView};
use crate::outside::{
    base64_bytes, days_before_month, days_in_month, is_base64_char, pem_certificates_of,
    pem_private_key_of, private_key_public, rsa_bits, sha256_of, signed_certificate, x509_of,
    CertificateView, Date, KeyKind, Moment,
};
use crate::protocol::cert_store::DirView;
use crate::protocol::certificate::{
    certificate_of, common_name_of, covers, fingerprint_of, generated, generated_pair, is_generated,
    is_key_of, is_short_form, key_size, law_moments_have_one_date, pair_error, plan_for, serial_of,
    validity_from,
};
use crate::protocol::connection::tls::{handshake_error, identity_in};
use crate::protocol::crypto::own_is_valid;
use crate::protocol::pem::{
    armored_text, der_of_pem, in_lines_of_64, lemma_lines_of, lemma_pem_round_trip, occurrences,
    pem_text, trimmed_lines,
};
use crate::text::trim;

verus! {

/// A certificate has the common name that is read in it, and none where there is
/// none or the bytes are no certificate.
pub proof fn law_common_names_are_read_in_the_certificate(der: Seq<u8>, name: Seq<char>)
    ensures
        common_name_of(der) == Ok::<Seq<char>, ErrorView>(name) <==> (x509_of(der) matches Ok(c)
            && c.common_name == Some(name)),
        common_name_of(der) matches Err(e) ==> e is CertificateError,
        certificate_of(der) is Ok <==> x509_of(der) is Ok,
        certificate_of(der) is Ok ==> certificate_of(der)->Ok_0 == x509_of(der)->Ok_0,
{
}

/// A fingerprint is the digest of the certificate, two lower-case digits for each
/// byte, the higher half first.
pub proof fn law_fingerprints_spell_the_digest(der: Seq<u8>, k: int)
    requires
        0 <= k < sha256_of(der).len(),
    ensures
        fingerprint_of(der).len() == 2 * sha256_of(der).len(),
        fingerprint_of(der)[2 * k] == "0123456789abcdef"@[sha256_of(der)[k] as int / 16],
        fingerprint_of(der)[2 * k + 1] == "0123456789abcdef"@[sha256_of(der)[k] as int % 16],
{
    crate::text_laws::law_hex_digits_by_halves(sha256_of(der), k);
}

/// Counted in nanoseconds, a certificate is valid strictly between its two ends
/// and not outside of them. At its start it is, unless the start lies before 2050
/// and is written in the longer form; at its end it is, unless the end lies in
/// 2050 or later and is written in the shorter one.
pub proof fn law_validity_by_nanoseconds(cert: CertificateView, now: Moment)
    requires
        now.nanos < 1_000_000_000,
        cert.not_before.nanos < 1_000_000_000,
        cert.not_after.nanos < 1_000_000_000,
    ensures
        ({
            let t = now.seconds * 1_000_000_000 + now.nanos;
            let from = cert.not_before.seconds * 1_000_000_000 + cert.not_before.nanos;
            let to = cert.not_after.seconds * 1_000_000_000 + cert.not_after.nanos;
            let late = now.seconds >= 2_524_608_000;
            &&& from < t < to ==> covers(cert, now)
            &&& t < from || to < t ==> !covers(cert, now)
            &&& from == t && t < to ==> (covers(cert, now) <==> late
                || !cert.not_before.generalized)
            &&& from < t && t == to ==> (covers(cert, now) <==> !late || cert.not_after.generalized)
            &&& from == t && t == to ==> (covers(cert, now) <==> (late
                || !cert.not_before.generalized) && (!late || cert.not_after.generalized))
        }),
{
}

/// The own certificate is valid if and only if its file is there, holds one
/// certificate, and that one is valid.
pub proof fn law_own_certificate_is_valid_by_its_file(d: DirView, now: Moment)
    ensures
        own_is_valid(d, now) <==> d.files.contains_key("own.crt"@) && (der_of_pem(
            d.files["own.crt"@].contents,
        ) matches Ok(der) && (x509_of(der) matches Ok(cert) && covers(cert, now))),
{
}

/// The shorter form of a point keeps the first coordinate byte by byte, after a
/// byte that is 2 where the last byte of the point is even and 3 where it is odd.
pub proof fn law_short_points_by_position(point: Seq<u8>, short: Seq<u8>)
    ensures
        is_short_form(point, short) <==> short.len() > 1 && point.len() + 1 == 2 * short.len()
            && point[0] == 4 && short[0] == (if point.last() % 2 == 0 {
            2u8
        } else {
            3u8
        }) && forall|i: int| 1 <= i < short.len() ==> #[trigger] short[i] == point[i],
{
    if short.len() > 1 && point.len() + 1 == 2 * short.len() {
        let tail = short.skip(1);
        let first = point.subrange(1, short.len() as int);
        if tail == first {
            assert forall|i: int| 1 <= i < short.len() implies #[trigger] short[i] == point[i] by {
                assert(tail[i - 1] == first[i - 1]);
            }
        }
        if forall|i: int| 1 <= i < short.len() ==> #[trigger] short[i] == point[i] {
            assert forall|i: int| 0 <= i < tail.len() implies tail[i] == first[i] by {
                assert(short[i + 1] == point[i + 1]);
            }
            assert(tail =~= first);
        }
    }
}

/// A certificate holds a public key if and only if its key is that key, byte by
/// byte, or the shorter form of that point.
pub proof fn law_keys_are_held_as_they_are_or_shorter(cert: CertificateView, public: Seq<u8>)
    ensures
        is_key_of(cert, public) <==> cert.key_bits == public || (cert.key_bits.len() < public.len()
            && is_short_form(public, cert.key_bits)),
{
}

/// A certificate and a private key belong together if and only if both can be
/// read and the certificate holds the key's public half, as it is or in the
/// shorter form of a point. The complaint names the certificate before the key.
pub proof fn law_pairs_belong_together_by_key(cert_pem: Seq<u8>, key_pem: Seq<u8>)
    ensures
        ({
            let cert_reads = der_of_pem(cert_pem) matches Ok(der) && x509_of(der) is Ok;
            let bits = x509_of(der_of_pem(cert_pem)->Ok_0)->Ok_0.key_bits;
            let fits = private_key_public(key_pem) matches Ok(public) && (public == bits
                || is_short_form(public, bits));
            &&& pair_error(cert_pem, key_pem) is None <==> cert_reads && fits
            &&& pair_error(cert_pem, key_pem) matches Some(e) ==> (e
                matches ErrorView::Validation { field, .. } && field == Some(
                if cert_reads {
                    "key_pem"@
                } else {
                    "cert_pem"@
                },
            ))
        }),
{
}

/// A serial number is the random bytes but for the first one, of which the
/// highest bit is cleared and the lowest one set.
pub proof fn law_serials_keep_the_random_bytes(random: Seq<u8>, i: int)
    requires
        random.len() == 20,
        0 < i < 20,
    ensures
        serial_of(random).len() == 20,
        serial_of(random)[i] == random[i],
        serial_of(random)[0] % 2 == 1,
        serial_of(random)[0] / 2 == (random[0] % 128) / 2,
{
    let b = random[0];
    assert(((b & 0x7F) | 0x01) % 2 == 1 && ((b & 0x7F) | 0x01) / 2 == (b % 128) / 2)
        by (bit_vector);
}

/// A certificate bears the device id as its common name and as its one
/// alternative name, and the unit and organization of KDE Connect, in this order.
pub proof fn law_certificates_bear_the_device_id(
    device_id: Seq<char>,
    random: Seq<u8>,
    from: Date,
    to: Date,
)
    ensures
        ({
            let plan = plan_for(device_id, random, from, to);
            &&& plan.names.len() == 3
            &&& plan.names[0].0 == seq![2u64, 5, 4, 3] && plan.names[0].1 == device_id
            &&& plan.names[1].0 == seq![2u64, 5, 4, 11] && plan.names[1].1 == "KDE Connect"@
            &&& plan.names[2].0 == seq![2u64, 5, 4, 10] && plan.names[2].1 == "KDE"@
            &&& plan.dns_name == device_id
            &&& plan.serial == serial_of(random)
            &&& plan.not_before == from
            &&& plan.not_after == to
        }),
{
}

/// A certificate is valid from the day 365 days before its making to the day 3650
/// days after it, where both lie in the years 0 to 9999; otherwise there is none.
pub proof fn law_validity_is_a_year_back_and_ten_ahead(now: int, from: Date, to: Date)
    requires
        crate::outside::in_calendar(now - 365 * 86_400),
        crate::outside::in_calendar(now + 3650 * 86_400),
        from.is_utc_date(now - 365 * 86_400),
        to.is_utc_date(now + 3650 * 86_400),
    ensures
        0 <= from.year <= 9999 && 0 <= to.year <= 9999 ==> validity_from(now) == Some((from, to)),
        !(0 <= from.year <= 9999 && 0 <= to.year <= 9999) ==> validity_from(now) is None,
{
    law_moments_have_one_date(from, now - 365 * 86_400);
    law_moments_have_one_date(to, now + 3650 * 86_400);
}

/// The day after a day has the next number, within a month, from one month to the
/// next and from one year to the next; the first day of 1970 has the number
/// 719163 and begins with the second 0.
pub proof fn law_days_are_numbered_in_order(d: Date, next: Date)
    requires
        d.is_day(),
        next.is_day(),
        ({
            ||| next.year == d.year && next.month == d.month && next.day == d.day + 1
            ||| next.year == d.year && next.month == d.month + 1 && next.day == 1 && d.day
                == days_in_month(d.year as int, d.month as int)
            ||| next.year == d.year + 1 && next.month == 1 && next.day == 1 && d.month == 12
                && d.day == 31
        }),
    ensures
        next.day_number() == d.day_number() + 1,
        (Date { year: 1970, month: 1, day: 1 }).is_utc_date(0),
{
    if next.year == d.year + 1 {
        lemma_days_before_december(d.year as int);
        lemma_leap_days(d.year as int);
        assert(days_before_month(next.year as int, 1) == 0);
    }
    assert(days_before_month(1970, 1) == 0);
}

/// Before December lie 334 days, and a leap day where February has one.
proof fn lemma_days_before_december(year: int)
    ensures
        days_before_month(year, 12) == 306 + days_in_month(year, 2),
{
    reveal_with_fuel(days_before_month, 13);
}

/// The leap days up to a year are those up to the year before, and its own.
proof fn lemma_leap_days(year: int)
    ensures
        year / 4 - year / 100 + year / 400 - ((year - 1) / 4 - (year - 1) / 100 + (year - 1) / 400)
            == days_in_month(year, 2) - 28,
{
}

/// A month has 31 days but for April, June, September and November, which have
/// 30, and February, which has 29 in every fourth year save those that end a
/// century not divisible by 400, and 28 in every other.
pub proof fn law_months_have_their_days(year: int, month: int)
    requires
        1 <= month <= 12,
    ensures
        days_in_month(year, month) == 30 <==> month == 4 || month == 6 || month == 9 || month
            == 11,
        days_in_month(year, month) == 31 <==> month != 2 && month != 4 && month != 6 && month != 9
            && month != 11,
        days_in_month(year, 2) == 29 <==> year % 400 == 0 || (year % 4 == 0 && year % 100 != 0),
        days_in_month(year, 2) == 28 || days_in_month(year, 2) == 29,
{
}

/// A certificate is made if and only if there are a key and random bytes, the
/// device id is ASCII, the dates can be written and signing succeeds; it is then
/// what was signed with that key, and the key is handed back as it is.
pub proof fn law_certificates_are_signed_with_their_key(
    device_id: Seq<char>,
    key: Result<Seq<char>, Seq<char>>,
    random: Result<Seq<u8>, Seq<char>>,
    now: int,
    cert_pem: Seq<u8>,
    key_pem: Seq<u8>,
)
    ensures
        generated(device_id, key, random, now) == Ok::<(Seq<u8>, Seq<u8>), ErrorView>(
            (cert_pem, key_pem),
        ) <==> (key matches Ok(k) && (random matches Ok(bytes) && (validity_from(now)
            matches Some(dates) && is_ascii_chars(device_id) && key_pem == encode_utf8(k) && (
        signed_certificate(
            plan_for(device_id, bytes, dates.0, dates.1),
            k,
            seq![1u64, 2, 840, 113549, 1, 1, 13],
        ) matches Ok(pem) && cert_pem == encode_utf8(pem))))),
        generated(device_id, key, random, now) matches Err(e) ==> e is TlsError,
{
}

/// A generated pair is the certificate and then the key.
pub proof fn law_pairs_hold_certificate_and_key(pair: (Vec<u8>, Vec<u8>), e: Error)
    ensures
        generated_pair(Ok(pair)) == Ok::<(Seq<u8>, Seq<u8>), ErrorView>((pair.0@, pair.1@)),
        generated_pair(Err(e)) == Err::<(Seq<u8>, Seq<u8>), ErrorView>(e@),
{
}

/// The key of a generated pair is an RSA key of 2048 bits.
pub proof fn law_generated_keys_have_2048_bits(
    device_id: Seq<char>,
    cert_pem: Seq<u8>,
    key_pem: Seq<u8>,
)
    requires
        is_generated(device_id, Ok((cert_pem, key_pem))),
    ensures
        exists|key: Seq<char>| #[trigger] rsa_bits(key) == 2048 && key_pem == encode_utf8(key),
        is_ascii_chars(device_id),
{
    let (key, random, now) = choose|
        key: Result<Seq<char>, Seq<char>>,
        random: Result<Seq<u8>, Seq<char>>,
        now: int,
    |
        (key matches Ok(k) ==> rsa_bits(k) == key_size().bits()) && (random matches Ok(v)
            ==> v.len() == crate::protocol::certificate::SERIAL_BYTES) && 0 <= now
            && crate::outside::in_calendar(now) && #[trigger] generated(device_id, key, random, now)
            == Ok::<(Seq<u8>, Seq<u8>), ErrorView>((cert_pem, key_pem));
    law_certificates_are_signed_with_their_key(device_id, key, random, now, cert_pem, key_pem);
    assert(rsa_bits(key->Ok_0) == 2048);
}

/// The lines of a text are cut at each line break, and the white space around
/// them is taken off.
pub proof fn law_lines_are_cut_at_line_breaks(line: Seq<char>, rest: Seq<char>)
    requires
        forall|i: int| 0 <= i < line.len() ==> line[i] != '\n',
    ensures
        trimmed_lines(line.push('\n') + rest) == seq![trim(line)] + trimmed_lines(rest),
        trimmed_lines(line) == seq![trim(line)],
{
    lemma_lines_of(line, rest);
    crate::text_laws::law_first_index_is_first(line, '\n', line.len() as int);
}

/// A line more that reads the same counts once more, and any other counts
/// nothing.
pub proof fn law_occurrences_are_counted(
    line: Seq<char>,
    lines: Seq<Seq<char>>,
    wanted: Seq<char>,
)
    ensures
        occurrences(Seq::<Seq<char>>::empty(), wanted) == 0,
        occurrences(seq![line] + lines, wanted) - occurrences(lines, wanted) == (if line
            == wanted {
            1int
        } else {
            0
        }),
{
    assert((seq![line] + lines).drop_first() =~= lines);
}

/// Lines count from the `BEGIN` line on and up to the first `END` line, whatever
/// stands before and after.
pub proof fn law_armor_counts_between_its_markers(
    line: Seq<char>,
    lines: Seq<Seq<char>>,
    inside: bool,
)
    ensures
        ({
            let begin = line == "-----BEGIN CERTIFICATE-----"@;
            let end = line == "-----END CERTIFICATE-----"@;
            let all = seq![line] + lines;
            &&& begin ==> armored_text(all, inside) == armored_text(lines, true)
            &&& end ==> armored_text(all, inside) == Seq::<char>::empty()
            &&& !begin && !end && inside ==> armored_text(all, inside) == line + armored_text(
                lines,
                true,
            )
            &&& !begin && !end && !inside ==> armored_text(all, inside) == armored_text(
                lines,
                false,
            )
            &&& armored_text(Seq::<Seq<char>>::empty(), inside) == Seq::<char>::empty()
        }),
{
    assert((seq![line] + lines).drop_first() =~= lines);
    reveal_strlit("-----BEGIN CERTIFICATE-----");
    reveal_strlit("-----END CERTIFICATE-----");
    assert("-----BEGIN CERTIFICATE-----"@.len() != "-----END CERTIFICATE-----"@.len());
}

/// A PEM file holds a certificate if and only if it is text, has at most one
/// `BEGIN` line, and what it armors is base64; the certificate is what that
/// encodes.
pub proof fn law_pem_files_hold_one_certificate(pem: Seq<u8>, der: Seq<u8>)
    ensures
        der_of_pem(pem) == Ok::<Seq<u8>, ErrorView>(der) <==> valid_utf8(pem) && occurrences(
            trimmed_lines(decode_utf8(pem)),
            "-----BEGIN CERTIFICATE-----"@,
        ) <= 1 && base64_bytes(armored_text(trimmed_lines(decode_utf8(pem)), false)) == Ok::<
            Seq<u8>,
            Seq<char>,
        >(der),
        der_of_pem(pem) matches Err(e) ==> e is CertificateError,
{
}

/// Armored base64 text is read back as it was, from one certificate.
pub proof fn law_armored_text_comes_back(s: Seq<char>)
    requires
        forall|i: int| 0 <= i < s.len() ==> is_base64_char(#[trigger] s[i]),
    ensures
        occurrences(trimmed_lines(pem_text(s)), "-----BEGIN CERTIFICATE-----"@) == 1,
        armored_text(trimmed_lines(pem_text(s)), false) == s,
{
    lemma_pem_round_trip(s);
}

/// Armored text stands between its marker lines in lines of 64 characters: each
/// character follows as many line breaks as there are full lines before it, and
/// nothing but line breaks is added.
pub proof fn law_armored_lines_have_64_characters(s: Seq<char>, i: int)
    requires
        0 <= i < s.len(),
    ensures
        in_lines_of_64(s).len() == s.len() + (s.len() + 63) / 64,
        in_lines_of_64(s)[i + i / 64] == s[i],
        i % 64 == 63 || i == s.len() - 1 ==> in_lines_of_64(s)[i + i / 64 + 1] == '\n',
        pem_text(s) == "-----BEGIN CERTIFICATE-----"@ + seq!['\n'] + in_lines_of_64(s)
            + "-----END CERTIFICATE-----"@ + seq!['\n'],
    decreases s.len(),
{
    if s.len() > 64 {
        let rest = s.skip(64);
        if i >= 64 {
            law_armored_lines_have_64_characters(rest, i - 64);
        } else {
            law_armored_lines_have_64_characters(rest, 0);
        }
    }
    assert(pem_text(s) =~= "-----BEGIN CERTIFICATE-----"@ + seq!['\n'] + in_lines_of_64(s)
        + "-----END CERTIFICATE-----"@ + seq!['\n']);
}

/// We present what the two files hold, if the first holds at least one
/// certificate and the second a key.
pub proof fn law_own_identity_is_what_the_files_hold(
    cert_pem: Seq<u8>,
    key_pem: Seq<u8>,
    certs: Seq<Seq<u8>>,
    key: (KeyKind, Seq<u8>),
)
    ensures
        identity_in(cert_pem, key_pem) == Ok::<(Seq<Seq<u8>>, (KeyKind, Seq<u8>)), ErrorView>(
            (certs, key),
        ) <==> pem_certificates_of(cert_pem) == Ok::<Seq<Seq<u8>>, Seq<char>>(certs) && certs.len()
            > 0 && pem_private_key_of(key_pem) == Ok::<(KeyKind, Seq<u8>), Seq<char>>(key),
        identity_in(cert_pem, key_pem) matches Err(e) ==> e is TlsError,
{
}

/// A handshake that failed for a cause failed in TLS, and one without a cause
/// timed out.
pub proof fn law_handshakes_fail_or_time_out(
    what: Seq<char>,
    whom: Seq<char>,
    cause: Option<Seq<char>>,
)
    ensures
        handshake_error(what, whom, cause) is ConnectionTimeout <==> cause is None,
        handshake_error(what, whom, cause) is TlsError <==> cause is Some,
{
}

} // verus!
