//! Single certificates: what they say, and how new ones are made.

use vstd::prelude::*;
use vstd::string::*;
use vstd::utf8::{encode_utf8, is_ascii_chars};

use crate::error::{Error, ErrorView};
use crate::outside::{
    check_ia5, days_before_month, days_in_month, generate_rsa_key, hex_lower, hex_text,
    ia5_error_text, in_calendar, parse_x509,
    private_key_public, public_key_of_private, random_bytes, rsa_bits, self_sign, sha256, sha256_of,
    signed_certificate, utc_date, utc_now, x509_of, CertificatePlan, CertificateView,
    Date, Moment, ParsedCertificate, PlanView, RsaSize, ValidityBound,
};
use crate::protocol::pem::{der_of_pem, pem_to_der};
use crate::text::join2;

verus! {

/// The certificate that `der` holds.
pub open spec fn certificate_of(der: Seq<u8>) -> Result<CertificateView, ErrorView> {
    match x509_of(der) {
        Ok(c) => Ok(c),
        Err(e) => Err(ErrorView::CertificateError("Failed to parse DER certificate: "@ + e)),
    }
}

/// The common name of the certificate that `der` holds.
pub open spec fn common_name_of(der: Seq<u8>) -> Result<Seq<char>, ErrorView> {
    match certificate_of(der) {
        Ok(c) => match c.common_name {
            Some(name) => Ok(name),
            None => Err(ErrorView::CertificateError("Certificate has no Common Name (CN)"@)),
        },
        Err(e) => Err(e),
    }
}

/// The fingerprint of a certificate: its SHA-256 digest in lower-case
/// hexadecimal.
pub open spec fn fingerprint_of(der: Seq<u8>) -> Seq<char> {
    hex_text(sha256_of(der), 'a')
}

/// The first second of the year 2050, from which on a certificate writes its
/// times in the longer of the two forms.
pub const GENERALIZED_FROM: i64 = 2_524_608_000;

/// Whether `now` lies before an end of the validity.
pub open spec fn is_before(now: Moment, bound: ValidityBound) -> bool {
    now.seconds < bound.seconds || (now.seconds == bound.seconds && now.nanos < bound.nanos)
}

/// Whether `now` is an end of the validity, to the nanosecond.
pub open spec fn is_at(now: Moment, bound: ValidityBound) -> bool {
    now.seconds == bound.seconds && now.nanos == bound.nanos
}

/// Whether a certificate is valid at `now`. Each end counts as valid where it is
/// written in the form that its time calls for; a start in the longer form that
/// could have been written in the shorter one comes after its own time, and an
/// end in the shorter form that had to be written in the longer one before it.
pub open spec fn covers(cert: CertificateView, now: Moment) -> bool {
    let generalized = now.seconds >= GENERALIZED_FROM;
    &&& !is_before(now, cert.not_before)
    &&& is_at(now, cert.not_before) ==> generalized || !cert.not_before.generalized
    &&& is_before(now, cert.not_after) || is_at(now, cert.not_after)
    &&& is_at(now, cert.not_after) ==> !generalized || cert.not_after.generalized
}

/// Whether `now` lies before an end of the validity.
fn before(now: Moment, bound: ValidityBound) -> (r: bool)
    ensures
        r == is_before(now, bound),
{
    now.seconds < bound.seconds || (now.seconds == bound.seconds && now.nanos < bound.nanos)
}

/// Whether `now` is an end of the validity, to the nanosecond.
fn at(now: Moment, bound: ValidityBound) -> (r: bool)
    ensures
        r == is_at(now, bound),
{
    now.seconds == bound.seconds && now.nanos == bound.nanos
}

/// A text that was found or not, by its contents.
pub open spec fn found_text(r: Result<String, Error>) -> Result<Seq<char>, ErrorView> {
    match r {
        Ok(t) => Ok(t@),
        Err(e) => Err(e@),
    }
}

/// Parse the certificate that `der` holds.
pub fn parse_x509_der(der: &[u8]) -> (r: Result<ParsedCertificate, Error>)
    ensures
        match r {
            Ok(c) => certificate_of(der@) == Ok::<CertificateView, ErrorView>(c@),
            Err(e) => certificate_of(der@) == Err::<CertificateView, ErrorView>(e@),
        },
{
    match parse_x509(der) {
        Ok(c) => Ok(c),
        Err(e) => Err(
            Error::CertificateError(join2("Failed to parse DER certificate: ", e.as_str())),
        ),
    }
}

/// The common name that a parsed certificate carries.
pub fn common_name(cert: ParsedCertificate) -> (r: Result<String, Error>)
    ensures
        found_text(r) == match cert@.common_name {
            Some(name) => Ok::<Seq<char>, ErrorView>(name),
            None => Err(ErrorView::CertificateError("Certificate has no Common Name (CN)"@)),
        },
{
    match cert.common_name {
        Some(name) => Ok(name),
        None => Err(
            Error::CertificateError("Certificate has no Common Name (CN)".to_owned()),
        ),
    }
}

/// The common name of the certificate that `cert_der` holds.
pub fn extract_cn_from_der(cert_der: &[u8]) -> (r: Result<String, Error>)
    ensures
        found_text(r) == common_name_of(cert_der@),
{
    match parse_x509_der(cert_der) {
        Ok(cert) => common_name(cert),
        Err(e) => Err(e),
    }
}

/// Whether a certificate is valid at `now`.
pub fn is_valid_at(cert: &ParsedCertificate, now: Moment) -> (r: bool)
    ensures
        r == covers(cert@, now),
{
    let generalized = now.seconds >= GENERALIZED_FROM;
    let started = !before(now, cert.not_before) && (!at(now, cert.not_before) || generalized
        || !cert.not_before.generalized);
    let running = before(now, cert.not_after) || (at(now, cert.not_after) && (!generalized
        || cert.not_after.generalized));
    started && running
}

/// The fingerprint of a certificate.
pub fn fingerprint(cert_der: &[u8]) -> (r: String)
    ensures
        r@ == fingerprint_of(cert_der@),
        r@.len() == 64,
{
    let digest = sha256(cert_der);
    hex_lower(digest.as_slice())
}

/// The complaint about one of the two files of a certificate.
pub open spec fn file_complaint(message: Seq<char>, field: Seq<char>) -> ErrorView {
    ErrorView::Validation { message, field: Some(field) }
}

/// Whether `short` is the point `point` of an elliptic curve in its shorter form.
/// The longer form is the byte 4 and both coordinates; the shorter one is the
/// first coordinate alone, after a byte that tells whether the other is odd.
pub open spec fn is_short_form(point: Seq<u8>, short: Seq<u8>) -> bool {
    &&& short.len() > 1
    &&& point.len() == 2 * short.len() - 1
    &&& point[0] == 4
    &&& short[0] == 2 + point.last() % 2
    &&& short.skip(1) == point.subrange(1, short.len() as int)
}

/// Whether a certificate holds the public key of a private one. The name that it
/// gives the key's algorithm does not matter, nor the form of a point.
pub open spec fn is_key_of(cert: CertificateView, public: Seq<u8>) -> bool {
    public == cert.key_bits || is_short_form(public, cert.key_bits)
}

/// What is wrong with a certificate and its private key, if anything.
pub open spec fn pair_error(cert_pem: Seq<u8>, key_pem: Seq<u8>) -> Option<ErrorView> {
    let head = "Failed to parse certificate: "@;
    match der_of_pem(cert_pem) {
        Err(e) => Some(file_complaint(head + e.message(), "cert_pem"@)),
        Ok(der) => match certificate_of(der) {
            Err(e) => Some(file_complaint(head + e.message(), "cert_pem"@)),
            Ok(cert) => match private_key_public(key_pem) {
                Err(e) => Some(file_complaint("Failed to parse private key: "@ + e, "key_pem"@)),
                Ok(public) => if is_key_of(cert, public) {
                    None
                } else {
                    Some(file_complaint("Certificate and private key do not match"@, "key_pem"@))
                },
            },
        },
    }
}

/// Whether two byte strings are the same.
pub fn same_bytes(a: &Vec<u8>, b: &Vec<u8>) -> (r: bool)
    ensures
        r == (a@ == b@),
{
    if a.len() != b.len() {
        return false;
    }
    let mut i: usize = 0;
    while i < a.len()
        invariant
            a.len() == b.len(),
            i <= a.len(),
            forall|j: int| 0 <= j < i ==> a@[j] == b@[j],
        decreases a.len() - i,
    {
        if a[i] != b[i] {
            return false;
        }
        i = i + 1;
    }
    assert(a@ =~= b@);
    true
}

/// Whether `short` is the point `point` of an elliptic curve in its shorter form.
fn short_form(point: &Vec<u8>, short: &Vec<u8>) -> (r: bool)
    ensures
        r == is_short_form(point@, short@),
{
    let n = short.len();
    if n <= 1 || point.len() < n || point.len() - n != n - 1 {
        return false;
    }
    if point[0] != 4 || short[0] != 2 + point[point.len() - 1] % 2 {
        return false;
    }
    let mut i: usize = 1;
    while i < n
        invariant
            n == short@.len(),
            1 <= i <= n,
            point@.len() == 2 * n - 1,
            forall|j: int| 1 <= j < i ==> short@[j] == point@[j],
        decreases n - i,
    {
        if short[i] != point[i] {
            assert(short@.skip(1)[i - 1] != point@.subrange(1, n as int)[i - 1]);
            return false;
        }
        i = i + 1;
    }
    assert(short@.skip(1) =~= point@.subrange(1, n as int));
    true
}

/// A complaint about one of the two files of a certificate.
fn complain(head: &str, message: &str, field: &str) -> (r: Error)
    ensures
        r@ == file_complaint(head@ + message@, field@),
{
    Error::Validation { message: join2(head, message), field: Some(field.to_owned()) }
}

/// Whether a private key belongs to a certificate, given the public key of the
/// first.
pub fn check_key_pair(cert: &ParsedCertificate, public: Result<Vec<u8>, String>) -> (r: Result<
    (),
    Error,
>)
    ensures
        match public {
            Err(t) => r matches Err(e) && e@ == file_complaint(
                "Failed to parse private key: "@ + t@,
                "key_pem"@,
            ),
            Ok(p) => if is_key_of(cert@, p@) {
                r is Ok
            } else {
                r matches Err(e) && e@ == file_complaint(
                    "Certificate and private key do not match"@,
                    "key_pem"@,
                )
            },
        },
{
    match public {
        Err(t) => Err(complain("Failed to parse private key: ", t.as_str(), "key_pem")),
        Ok(p) => if same_bytes(&p, &cert.key_bits) || short_form(&p, &cert.key_bits) {
            Ok(())
        } else {
            let e = complain("Certificate and private key do not match", "", "key_pem");
            proof {
                reveal_strlit("");
                assert("Certificate and private key do not match"@ + ""@
                    =~= "Certificate and private key do not match"@);
            }
            Err(e)
        },
    }
}

/// Validate a certificate: it parses, its private key parses, and the two
/// belong together.
pub fn validate_pair(cert_pem: &[u8], key_pem: &[u8]) -> (r: Result<(), Error>)
    ensures
        match r {
            Ok(_) => pair_error(cert_pem@, key_pem@) is None,
            Err(e) => pair_error(cert_pem@, key_pem@) == Some(e@),
        },
{
    let head = "Failed to parse certificate: ";
    let der = match pem_to_der(cert_pem) {
        Ok(der) => der,
        Err(e) => {
            let message = e.message();
            return Err(complain(head, message.as_str(), "cert_pem"));
        },
    };
    let cert = match parse_x509_der(der.as_slice()) {
        Ok(cert) => cert,
        Err(e) => {
            let message = e.message();
            return Err(complain(head, message.as_str(), "cert_pem"));
        },
    };
    check_key_pair(&cert, public_key_of_private(key_pem))
}

/// Seconds of a day.
pub const DAY_SECONDS: i64 = 86_400;

/// How many days before its making a certificate starts to be valid.
pub const VALID_DAYS_BEFORE: i64 = 365;

/// How many days after its making a certificate stops to be valid.
pub const VALID_DAYS_AFTER: i64 = 3650;

/// How many bytes a serial number has.
pub const SERIAL_BYTES: usize = 20;

/// The size of the daemon's keys.
pub open spec fn key_size() -> RsaSize {
    RsaSize::Bits2048
}

/// How certificates are signed: by RSA with SHA-512.
pub open spec fn signature_kind() -> Seq<u64> {
    seq![1u64, 2, 840, 113549, 1, 1, 13]
}

/// How certificates are signed: by RSA with SHA-512.
fn signature_oid() -> (r: Vec<u64>)
    ensures
        r@ == signature_kind(),
{
    let r: Vec<u64> = vec![1, 2, 840, 113549, 1, 1, 13];
    assert(r@ =~= signature_kind());
    r
}

/// The serial number made of random bytes: the highest bit clear, so that the
/// number is positive, and the first byte not zero, so that it keeps all its
/// bytes when it is encoded.
pub open spec fn serial_of(random: Seq<u8>) -> Seq<u8> {
    random.update(0, (random[0] & 0x7F) | 0x01)
}

/// The serial number of a certificate is positive and takes exactly 20 bytes.
pub proof fn law_serial_is_positive_and_full(random: Seq<u8>)
    requires
        random.len() == SERIAL_BYTES,
    ensures
        serial_of(random).len() == 20,
        0 < serial_of(random)[0] < 0x80,
{
    let b = random[0];
    assert(0 < ((b & 0x7F) | 0x01) < 0x80) by (bit_vector);
}

/// What a certificate for `device_id` says. The subject's names are a common
/// name, an organizational unit and an organization, in this order; the one
/// alternative name is the device id.
pub open spec fn plan_for(device_id: Seq<char>, random: Seq<u8>, from: Date, to: Date) -> PlanView {
    PlanView {
        names: seq![
            (seq![2u64, 5, 4, 3], device_id),
            (seq![2u64, 5, 4, 11], "KDE Connect"@),
            (seq![2u64, 5, 4, 10], "KDE"@),
        ],
        dns_name: device_id,
        serial: serial_of(random),
        not_before: from,
        not_after: to,
    }
}

/// A year of the calendar has at most 366 days, and 365 where it is not a leap
/// year.
proof fn lemma_day_of_the_year(d: Date)
    requires
        d.is_day(),
    ensures
        1 <= days_before_month(d.year as int, d.month as int) + d.day <= 337
            + days_in_month(d.year as int, 2),
{
    reveal_with_fuel(days_before_month, 13);
}

/// The months of a year do not overlap.
proof fn lemma_months_are_apart(year: int, a: int, b: int)
    requires
        1 <= a < b <= 12,
    ensures
        days_before_month(year, a) + days_in_month(year, a) <= days_before_month(year, b),
{
    reveal_with_fuel(days_before_month, 13);
}

/// How many days lie before a year.
spec fn days_before_year(year: int) -> int {
    365 * (year - 1) + (year - 1) / 4 - (year - 1) / 100 + (year - 1) / 400
}

/// A year has 337 days beside those of February.
proof fn lemma_year_length(year: int)
    ensures
        days_before_year(year + 1) == days_before_year(year) + 337 + days_in_month(year, 2),
{
}

/// The years do not overlap.
proof fn lemma_years_are_apart(a: int, b: int)
    requires
        a < b,
    ensures
        days_before_year(a) + 337 + days_in_month(a, 2) <= days_before_year(b),
    decreases b - a,
{
    if b == a + 1 {
        lemma_year_length(a);
    } else {
        lemma_years_are_apart(a, b - 1);
        lemma_year_length(b - 1);
    }
}

/// The number of a day is counted from the days before its year and its month.
proof fn lemma_day_number(d: Date)
    ensures
        d.day_number() == days_before_year(d.year as int) + days_before_month(
            d.year as int,
            d.month as int,
        ) + d.day,
{
}

/// A day is known by its number.
#[verifier::spinoff_prover]
proof fn lemma_days_have_their_own_numbers(a: Date, b: Date)
    requires
        a.is_day(),
        b.is_day(),
        a.day_number() == b.day_number(),
    ensures
        a == b,
{
    lemma_day_of_the_year(a);
    lemma_day_of_the_year(b);
    lemma_day_number(a);
    lemma_day_number(b);
    if a.year < b.year {
        lemma_years_are_apart(a.year as int, b.year as int);
    }
    if b.year < a.year {
        lemma_years_are_apart(b.year as int, a.year as int);
    }
    if a.month < b.month {
        lemma_months_are_apart(a.year as int, a.month as int, b.month as int);
    }
    if b.month < a.month {
        lemma_months_are_apart(a.year as int, b.month as int, a.month as int);
    }
}

/// The UTC date of the second `seconds` after 1970, where the calendar reaches
/// it.
pub open spec fn utc_date_of(seconds: int) -> Option<Date> {
    if in_calendar(seconds) {
        Some(choose|d: Date| d.is_utc_date(seconds))
    } else {
        None
    }
}

/// A second falls on one day only.
pub proof fn law_moments_have_one_date(d: Date, seconds: int)
    requires
        d.is_utc_date(seconds),
        in_calendar(seconds),
    ensures
        utc_date_of(seconds) == Some(d),
{
    lemma_days_have_their_own_numbers(d, utc_date_of(seconds)->0);
}

/// The dates between which a certificate made at `now` is valid, where the
/// calendar reaches them and a certificate can carry them.
pub open spec fn validity_from(now: int) -> Option<(Date, Date)> {
    let from = utc_date_of(now - VALID_DAYS_BEFORE * DAY_SECONDS);
    let to = utc_date_of(now + VALID_DAYS_AFTER * DAY_SECONDS);
    match (from, to) {
        (Some(f), Some(t)) => if 0 <= f.year <= 9999 && 0 <= t.year <= 9999 {
            Some((f, t))
        } else {
            None
        },
        _ => None,
    }
}

/// The certificate and private key, in PEM, for `device_id`: given a new key, a
/// random serial number and the time.
pub open spec fn generated(
    device_id: Seq<char>,
    key: Result<Seq<char>, Seq<char>>,
    random: Result<Seq<u8>, Seq<char>>,
    now: int,
) -> Result<(Seq<u8>, Seq<u8>), ErrorView> {
    match key {
        Err(e) => Err(ErrorView::TlsError("Failed to generate RSA key: "@ + e)),
        Ok(key_pem) => if !is_ascii_chars(device_id) {
            Err(
                ErrorView::TlsError(
                    "device_id is not a valid IA5String for subjectAltName dNSName: "@
                        + ia5_error_text(device_id),
                ),
            )
        } else {
            match random {
                Err(e) => Err(ErrorView::TlsError("Failed to generate serial: "@ + e)),
                Ok(bytes) => match validity_from(now) {
                    None => Err(ErrorView::TlsError("Validity dates are out of range"@)),
                    Some(dates) => match signed_certificate(
                        plan_for(device_id, bytes, dates.0, dates.1),
                        key_pem,
                        signature_kind(),
                    ) {
                        Err(e) => Err(ErrorView::TlsError("Failed to sign cert: "@ + e)),
                        Ok(pem) => Ok((encode_utf8(pem), encode_utf8(key_pem))),
                    },
                },
            }
        },
    }
}

/// A generated pair, by its contents.
pub open spec fn generated_pair(r: Result<(Vec<u8>, Vec<u8>), Error>) -> Result<
    (Seq<u8>, Seq<u8>),
    ErrorView,
> {
    match r {
        Ok(p) => Ok((p.0@, p.1@)),
        Err(e) => Err(e@),
    }
}

/// Makes a certificate for `device_id` out of a new key, a random serial number
/// and the time.
pub fn build_certificate(
    device_id: &str,
    key: Result<String, String>,
    random: Result<Vec<u8>, String>,
    now: Moment,
) -> (r: Result<(Vec<u8>, Vec<u8>), Error>)
    requires
        random matches Ok(v) ==> v@.len() == SERIAL_BYTES,
        0 <= now.seconds,
        in_calendar(now.seconds as int),
    ensures
        generated_pair(r) == generated(
            device_id@,
            crate::outside::text_result(key),
            crate::outside::bytes_result(random),
            now.seconds as int,
        ),
{
    let key_pem = match key {
        Ok(k) => k,
        Err(e) => {
            return Err(Error::TlsError(join2("Failed to generate RSA key: ", e.as_str())));
        },
    };
    match check_ia5(device_id) {
        Ok(_) => {},
        Err(e) => {
            return Err(
                Error::TlsError(
                    join2(
                        "device_id is not a valid IA5String for subjectAltName dNSName: ",
                        e.as_str(),
                    ),
                ),
            );
        },
    }
    let mut serial = match random {
        Ok(v) => v,
        Err(e) => {
            return Err(Error::TlsError(join2("Failed to generate serial: ", e.as_str())));
        },
    };
    let ghost bytes = serial@;
    let first: u8 = (serial[0] & 0x7F) | 0x01;
    serial[0] = first;
    assert(serial@ =~= serial_of(bytes));
    let from = utc_date(now.seconds - VALID_DAYS_BEFORE * DAY_SECONDS);
    let to = utc_date(now.seconds + VALID_DAYS_AFTER * DAY_SECONDS);
    proof {
        if let Some(d) = from {
            law_moments_have_one_date(d, now.seconds - VALID_DAYS_BEFORE * DAY_SECONDS);
        }
        if let Some(d) = to {
            law_moments_have_one_date(d, now.seconds + VALID_DAYS_AFTER * DAY_SECONDS);
        }
    }
    let (not_before, not_after) = match (from, to) {
        (Some(f), Some(t)) => {
            if !(0 <= f.year && f.year <= 9999 && 0 <= t.year && t.year <= 9999) {
                return Err(Error::TlsError("Validity dates are out of range".to_owned()));
            }
            (f, t)
        },
        _ => {
            return Err(Error::TlsError("Validity dates are out of range".to_owned()));
        },
    };
    let common_name: Vec<u64> = vec![2, 5, 4, 3];
    let organizational_unit: Vec<u64> = vec![2, 5, 4, 11];
    let organization: Vec<u64> = vec![2, 5, 4, 10];
    assert(common_name@ =~= seq![2u64, 5, 4, 3]);
    assert(organizational_unit@ =~= seq![2u64, 5, 4, 11]);
    assert(organization@ =~= seq![2u64, 5, 4, 10]);
    let names = vec![
        (common_name, device_id.to_owned()),
        (organizational_unit, "KDE Connect".to_owned()),
        (organization, "KDE".to_owned()),
    ];
    let plan = CertificatePlan {
        names,
        dns_name: device_id.to_owned(),
        serial,
        not_before,
        not_after,
    };
    let ghost wanted = plan_for(device_id@, bytes, not_before, not_after);
    assert(plan@.names =~= wanted.names);
    assert(plan@ == wanted);
    match self_sign(plan, key_pem.as_str(), &signature_oid()) {
        Ok(pem) => Ok((pem.as_str().as_bytes_vec(), key_pem.as_str().as_bytes_vec())),
        Err(e) => Err(Error::TlsError(join2("Failed to sign cert: ", e.as_str()))),
    }
}

/// Generates a self-signed certificate for `device_id` and its private key,
/// both in PEM. The key and the serial number are random, and the validity
/// depends on the clock; what comes of them is what `generated` says.
pub fn generate(device_id: &str) -> (r: Result<(Vec<u8>, Vec<u8>), Error>)
    ensures
        is_generated(device_id@, generated_pair(r)),
{
    let key = generate_rsa_key(RsaSize::Bits2048, &signature_oid());
    let random = random_bytes(SERIAL_BYTES);
    let now = utc_now();
    let ghost (k, b, s) = (
        crate::outside::text_result(key),
        crate::outside::bytes_result(random),
        now.seconds as int,
    );
    let r = build_certificate(device_id, key, random, now);
    assert(generated(device_id@, k, b, s) == generated_pair(r));
    r
}

/// `pair` is what generation makes for `device_id` of some key of the daemon's
/// size, some random bytes for the serial number and some time of the calendar
/// since 1970.
pub open spec fn is_generated(
    device_id: Seq<char>,
    pair: Result<(Seq<u8>, Seq<u8>), ErrorView>,
) -> bool {
    exists|key: Result<Seq<char>, Seq<char>>, random: Result<Seq<u8>, Seq<char>>, now: int|
        (key matches Ok(k) ==> rsa_bits(k) == key_size().bits()) && (random matches Ok(v)
            ==> v.len() == SERIAL_BYTES) && 0 <= now && in_calendar(now) && #[trigger] generated(
            device_id,
            key,
            random,
            now,
        ) == pair
}

} // verus!
