//! The calls into outside crates and into parts of the standard library that
//! carry no specification of their own.
//!
//! Each function here makes one such call. Its contract is believed, not
//! proved; its comment says which call it makes and what is claimed of it.
//! Where a result takes too long to state, it has a name: a function of the
//! arguments alone about which nothing more is said than the facts listed with
//! the call.

use base64::Engine;
use chrono::Datelike;
use rcgen::string::Ia5String;
use rcgen::{
    date_time_ymd, CertificateParams, DistinguishedName, DnType, KeyPair, PublicKeyData, SanType,
    SerialNumber, SignatureAlgorithm,
};
use rustls::pki_types::pem::PemObject;
use sha2::Digest;
use vstd::prelude::*;
use vstd::utf8::{decode_utf8, is_ascii_chars, valid_utf8};

verus! {

/// A result whose value and error are texts or byte strings, by their contents.
pub open spec fn bytes_result(r: Result<Vec<u8>, String>) -> Result<Seq<u8>, Seq<char>> {
    match r {
        Ok(v) => Ok(v@),
        Err(e) => Err(e@),
    }
}

/// The result that holds `bytes`.
pub open spec fn success(bytes: Seq<u8>) -> Result<Seq<u8>, Seq<char>> {
    Ok(bytes)
}

/// A result whose value and error are texts, by their contents.
pub open spec fn text_result(r: Result<String, String>) -> Result<Seq<char>, Seq<char>> {
    match r {
        Ok(v) => Ok(v@),
        Err(e) => Err(e@),
    }
}

/// How the standard library words the failure to read `bytes` as UTF-8.
pub uninterp spec fn utf8_error_text(bytes: Seq<u8>) -> Seq<char>;

/// `std::str::from_utf8`: the text that `bytes` encode, where they are valid
/// UTF-8, and the wording of the failure where they are not.
#[verifier::external_body]
pub(crate) fn utf8_text(bytes: &[u8]) -> (r: Result<&str, String>)
    ensures
        match r {
            Ok(s) => valid_utf8(bytes@) && s@ == decode_utf8(bytes@),
            Err(e) => !valid_utf8(bytes@) && e@ == utf8_error_text(bytes@),
        },
{
    std::str::from_utf8(bytes).map_err(|e| e.to_string())
}

/// Whether `c` can occur in base64 text: a letter, a digit, `+`, `/` or `=`.
pub open spec fn is_base64_char(c: char) -> bool {
    ||| 'A' <= c <= 'Z'
    ||| 'a' <= c <= 'z'
    ||| '0' <= c <= '9'
    ||| c == '+'
    ||| c == '/'
    ||| c == '='
}

/// The base64 text of `bytes`, in the standard alphabet with padding.
pub uninterp spec fn base64_text(bytes: Seq<u8>) -> Seq<char>;

/// The bytes that `text` encodes in base64, or the wording of the failure.
pub uninterp spec fn base64_bytes(text: Seq<char>) -> Result<Seq<u8>, Seq<char>>;

/// `base64`'s `Engine::encode` with the standard engine. The text consists of
/// characters of the alphabet and padding, and decodes to `bytes` again.
#[verifier::external_body]
pub(crate) fn base64_encode(bytes: &[u8]) -> (r: String)
    ensures
        r@ == base64_text(bytes@),
        base64_bytes(r@) == success(bytes@),
        forall|i: int| 0 <= i < r@.len() ==> is_base64_char(#[trigger] r@[i]),
{
    base64::engine::general_purpose::STANDARD.encode(bytes)
}

/// `base64`'s `Engine::decode` with the standard engine.
#[verifier::external_body]
pub(crate) fn base64_decode(text: &str) -> (r: Result<Vec<u8>, String>)
    ensures
        bytes_result(r) == base64_bytes(text@),
{
    base64::engine::general_purpose::STANDARD.decode(text).map_err(|e| e.to_string())
}

/// The SHA-256 digest of `bytes`.
pub uninterp spec fn sha256_of(bytes: Seq<u8>) -> Seq<u8>;

/// `sha2`'s `Sha256::digest`: the digest, which has 32 bytes.
#[verifier::external_body]
pub(crate) fn sha256(bytes: &[u8]) -> (r: Vec<u8>)
    ensures
        r@ == sha256_of(bytes@),
        r@.len() == 32,
{
    sha2::Sha256::digest(bytes).to_vec()
}

/// The hexadecimal digit of `d`, with letters that start at `first`.
pub open spec fn hex_digit(d: int, first: char) -> char {
    if d < 10 {
        (48 + d) as char
    } else {
        ((first as u32) + d - 10) as char
    }
}

/// Two hexadecimal digits for each byte, the higher half first.
pub open spec fn hex_text(bytes: Seq<u8>, first: char) -> Seq<char> {
    Seq::new(
        2 * bytes.len(),
        |i: int|
            if i % 2 == 0 {
                hex_digit(bytes[i / 2] as int / 16, first)
            } else {
                hex_digit(bytes[i / 2] as int % 16, first)
            },
    )
}

/// `hex::encode`: two lower-case digits for each byte.
#[verifier::external_body]
pub(crate) fn hex_lower(bytes: &[u8]) -> (r: String)
    ensures
        r@ == hex_text(bytes@, 'a'),
{
    hex::encode(bytes)
}

/// `hex::encode_upper`: two upper-case digits for each byte.
#[verifier::external_body]
pub(crate) fn hex_upper(bytes: &[u8]) -> (r: String)
    ensures
        r@ == hex_text(bytes@, 'A'),
{
    hex::encode_upper(bytes)
}

/// One end of the time in which a certificate is valid.
#[derive(Debug, Clone, Copy)]
pub struct ValidityBound {
    /// Whole seconds since 1970, and nanoseconds since the last of them.
    pub seconds: i64,
    pub nanos: u32,
    /// Whether it is written as a `GeneralizedTime`, not as a `UTCTime`.
    pub generalized: bool,
}

/// What the daemon reads in an X.509 certificate.
#[derive(Debug)]
pub struct ParsedCertificate {
    /// The first common name of the subject, where it is text.
    pub common_name: Option<String>,
    /// The subject's public key info, in DER.
    pub public_key: Vec<u8>,
    /// The key in it, without its algorithm.
    pub key_bits: Vec<u8>,
    pub not_before: ValidityBound,
    pub not_after: ValidityBound,
}

/// What the daemon reads in an X.509 certificate, by its contents.
pub struct CertificateView {
    pub common_name: Option<Seq<char>>,
    pub public_key: Seq<u8>,
    pub key_bits: Seq<u8>,
    pub not_before: ValidityBound,
    pub not_after: ValidityBound,
}

impl View for ParsedCertificate {
    type V = CertificateView;

    open spec fn view(&self) -> CertificateView {
        CertificateView {
            common_name: crate::error::text_of(self.common_name),
            public_key: self.public_key@,
            key_bits: self.key_bits@,
            not_before: self.not_before,
            not_after: self.not_after,
        }
    }
}

/// What `der` holds as an X.509 certificate, or the wording of the failure.
pub uninterp spec fn x509_of(der: Seq<u8>) -> Result<CertificateView, Seq<char>>;

/// `x509_parser::prelude::parse_x509_certificate`, with the five things that
/// the daemon reads in what it returns: the first common name of the subject, its
/// public key info, the key in that, and both ends of the validity, to the nanosecond and with
/// the form in which they are written.
#[verifier::external_body]
pub(crate) fn parse_x509(der: &[u8]) -> (r: Result<ParsedCertificate, String>)
    ensures
        match r {
            Ok(c) => x509_of(der@) == Ok::<CertificateView, Seq<char>>(c@),
            Err(e) => x509_of(der@) == Err::<CertificateView, Seq<char>>(e@),
        },
{
    let (_, cert) =
        x509_parser::prelude::parse_x509_certificate(der).map_err(|e| e.to_string())?;
    let cn = cert.subject().iter_common_name().next();
    let bound = |t: x509_parser::time::ASN1Time| ValidityBound {
        seconds: t.timestamp(),
        nanos: t.to_datetime().nanosecond(),
        generalized: t.is_generalizedtime(),
    };
    Ok(ParsedCertificate {
        common_name: cn.and_then(|cn| cn.as_str().ok()).map(|s| s.to_string()),
        public_key: cert.public_key().raw.to_vec(),
        key_bits: cert.public_key().subject_public_key.data.to_vec(),
        not_before: bound(cert.validity().not_before),
        not_after: bound(cert.validity().not_after),
    })
}

/// The public key of the private key that `pem` holds, without its algorithm, or
/// the wording of the failure.
pub uninterp spec fn private_key_public(pem: Seq<u8>) -> Result<Seq<u8>, Seq<char>>;

/// `rcgen`'s `KeyPair::from_pem` on the text of `pem` (its malformed UTF-8
/// replaced), with the `der_bytes` of the key pair's public key.
#[verifier::external_body]
pub(crate) fn public_key_of_private(pem: &[u8]) -> (r: Result<Vec<u8>, String>)
    ensures
        bytes_result(r) == private_key_public(pem@),
{
    KeyPair::from_pem(&String::from_utf8_lossy(pem))
        .map(|key| key.der_bytes().to_vec())
        .map_err(|e| e.to_string())
}

/// The sizes that an RSA key can be made in.
#[derive(Debug, Clone, Copy, PartialEq, Eq, Structural)]
pub enum RsaSize {
    Bits2048,
    Bits3072,
    Bits4096,
}

impl RsaSize {
    /// The size in bits.
    pub open spec fn bits(self) -> nat {
        match self {
            RsaSize::Bits2048 => 2048,
            RsaSize::Bits3072 => 3072,
            RsaSize::Bits4096 => 4096,
        }
    }
}

/// Whether an object identifier stands for RSA signatures with the padding of
/// PKCS#1 1.5 and SHA-256, SHA-384 or SHA-512.
pub open spec fn is_rsa_signature(oid: Seq<u64>) -> bool {
    ||| oid == seq![1u64, 2, 840, 113549, 1, 1, 11]
    ||| oid == seq![1u64, 2, 840, 113549, 1, 1, 12]
    ||| oid == seq![1u64, 2, 840, 113549, 1, 1, 13]
}

/// How many bits the modulus of the RSA key in `key_pem` has.
pub uninterp spec fn rsa_bits(key_pem: Seq<char>) -> nat;

/// `rcgen`'s `KeyPair::generate_rsa_for`, with the new private key in PEM. The
/// key is random; all that is claimed of it is its size. Its text does not say
/// for which signatures it was made.
#[verifier::external_body]
pub(crate) fn generate_rsa_key(size: RsaSize, signature: &Vec<u64>) -> (r: Result<String, String>)
    requires
        is_rsa_signature(signature@),
    ensures
        r matches Ok(pem) ==> rsa_bits(pem@) == size.bits(),
{
    let size = match size {
        RsaSize::Bits2048 => rcgen::RsaKeySize::_2048,
        RsaSize::Bits3072 => rcgen::RsaKeySize::_3072,
        RsaSize::Bits4096 => rcgen::RsaKeySize::_4096,
    };
    SignatureAlgorithm::from_oid(signature)
        .and_then(|algorithm| KeyPair::generate_rsa_for(algorithm, size))
        .map(|key| key.serialize_pem())
        .map_err(|e| e.to_string())
}

/// How `rcgen` words that `text` is no IA5 string.
pub uninterp spec fn ia5_error_text(text: Seq<char>) -> Seq<char>;

/// `rcgen`'s `Ia5String::try_from`: accepts exactly ASCII text.
#[verifier::external_body]
pub(crate) fn check_ia5(text: &str) -> (r: Result<(), String>)
    ensures
        match r {
            Ok(_) => is_ascii_chars(text@),
            Err(e) => !is_ascii_chars(text@) && e@ == ia5_error_text(text@),
        },
{
    Ia5String::try_from(text).map(|_| ()).map_err(|e| e.to_string())
}

/// A calendar date.
#[derive(Debug, Clone, Copy)]
pub struct Date {
    pub year: i32,
    pub month: u8,
    pub day: u8,
}

/// How many days a month has.
pub open spec fn days_in_month(year: int, month: int) -> int {
    if month == 2 {
        if year % 4 == 0 && (year % 100 != 0 || year % 400 == 0) {
            29
        } else {
            28
        }
    } else if month == 4 || month == 6 || month == 9 || month == 11 {
        30
    } else {
        31
    }
}

impl Date {
    /// Whether there is such a day in the calendar.
    pub open spec fn is_day(self) -> bool {
        &&& 1 <= self.month <= 12
        &&& 1 <= self.day <= days_in_month(self.year as int, self.month as int)
    }

    /// Whether a certificate can carry the date.
    pub open spec fn is_certifiable(self) -> bool {
        self.is_day() && 0 <= self.year <= 9999
    }
}

/// Everything that a certificate says beside its key.
#[derive(Debug)]
pub struct CertificatePlan {
    /// The subject's names in their order, each with its kind as an object
    /// identifier.
    pub names: Vec<(Vec<u64>, String)>,
    /// The one DNS name among the subject's alternative names.
    pub dns_name: String,
    pub serial: Vec<u8>,
    pub not_before: Date,
    pub not_after: Date,
}

/// Everything that a certificate says beside its key, by its contents.
pub struct PlanView {
    pub names: Seq<(Seq<u64>, Seq<char>)>,
    pub dns_name: Seq<char>,
    pub serial: Seq<u8>,
    pub not_before: Date,
    pub not_after: Date,
}

/// The names of a subject, by their contents.
pub open spec fn names_of(names: Seq<(Vec<u64>, String)>) -> Seq<(Seq<u64>, Seq<char>)> {
    names.map_values(|n: (Vec<u64>, String)| (n.0@, n.1@))
}

/// Whether an object identifier stands for a common name, an organizational unit
/// or an organization.
pub open spec fn is_name_kind(oid: Seq<u64>) -> bool {
    oid == seq![2u64, 5, 4, 3] || oid == seq![2u64, 5, 4, 11] || oid == seq![2u64, 5, 4, 10]
}

impl View for CertificatePlan {
    type V = PlanView;

    open spec fn view(&self) -> PlanView {
        PlanView {
            names: names_of(self.names@),
            dns_name: self.dns_name@,
            serial: self.serial@,
            not_before: self.not_before,
            not_after: self.not_after,
        }
    }
}

/// The certificate, in PEM, that says what `plan` says and is signed by the RSA
/// key `key_pem` in the way that `signature` stands for, or the wording of the
/// failure.
pub uninterp spec fn signed_certificate(
    plan: PlanView,
    key_pem: Seq<char>,
    signature: Seq<u64>,
) -> Result<Seq<char>, Seq<char>>;

/// `rcgen`'s `CertificateParams::self_signed`, on parameters that carry `plan`
/// with the subject's names in the order of the plan. A PKCS#1 signature depends
/// on the key, the hash and the text alone. The lines of the PEM text end as is
/// usual on the system that the crate was built for.
#[verifier::external_body]
pub(crate) fn self_sign(plan: CertificatePlan, key_pem: &str, signature: &Vec<u64>) -> (r: Result<
    String,
    String,
>)
    requires
        is_rsa_signature(signature@),
        forall|i: int| 0 <= i < plan.names@.len() ==> is_name_kind(#[trigger] plan.names@[i].0@),
        plan.not_before.is_certifiable(),
        plan.not_after.is_certifiable(),
        is_ascii_chars(plan.dns_name@),
    ensures
        text_result(r) == signed_certificate(plan@, key_pem@, signature@),
{
    let mut params = CertificateParams::default();
    params.subject_alt_names.push(SanType::DnsName(plan.dns_name.try_into().unwrap()));
    params.distinguished_name = DistinguishedName::new();
    for (kind, text) in plan.names {
        params.distinguished_name.push(DnType::from_oid(&kind), text);
    }
    params.serial_number = Some(SerialNumber::from(plan.serial));
    params.not_before =
        date_time_ymd(plan.not_before.year, plan.not_before.month, plan.not_before.day);
    params.not_after = date_time_ymd(plan.not_after.year, plan.not_after.month, plan.not_after.day);
    SignatureAlgorithm::from_oid(signature)
        .and_then(|algorithm| KeyPair::from_pem_and_sign_algo(key_pem, algorithm))
        .and_then(|key| params.self_signed(&key))
        .map(|cert| cert.pem())
        .map_err(|e| e.to_string())
}

/// `rand`'s `OsRng` filling `count` bytes. They are random, so only their number
/// is claimed.
#[verifier::external_body]
pub(crate) fn random_bytes(count: usize) -> (r: Result<Vec<u8>, String>)
    requires
        count <= isize::MAX,
    ensures
        r matches Ok(v) ==> v@.len() == count,
{
    let mut bytes = vec![0u8; count];
    rand::RngCore::try_fill_bytes(&mut rand::rngs::OsRng, &mut bytes).map_err(|e| e.to_string())?;
    Ok(bytes)
}

/// A moment: seconds since 1970, and nanoseconds since the last whole second.
#[derive(Debug, Clone, Copy)]
pub struct Moment {
    pub seconds: i64,
    pub nanos: u32,
}

/// `chrono::Utc::now`. The moment lies between 1970 and the last day that
/// `chrono` knows (a clock outside of these makes the call panic); what else it
/// is depends on the clock.
#[verifier::external_body]
pub(crate) fn utc_now() -> (r: Moment)
    ensures
        0 <= r.seconds,
        in_calendar(r.seconds as int),
{
    let now = chrono::Utc::now();
    Moment { seconds: now.timestamp(), nanos: now.timestamp_subsec_nanos() }
}

/// How many days of the year lie before a month.
pub open spec fn days_before_month(year: int, month: int) -> int
    decreases month,
{
    if month <= 1 {
        0
    } else {
        days_before_month(year, month - 1) + days_in_month(year, month - 1)
    }
}

impl Date {
    /// The number of the day, where the first day of the year 1 has the number 1.
    pub open spec fn day_number(self) -> int {
        let y = self.year - 1;
        365 * y + y / 4 - y / 100 + y / 400 + days_before_month(
            self.year as int,
            self.month as int,
        ) + self.day
    }

    /// Whether the second `seconds` after 1970 falls on the day, in UTC.
    pub open spec fn is_utc_date(self, seconds: int) -> bool {
        self.is_day() && self.day_number() == seconds / 86_400 + 719_163
    }
}

/// Whether the second `seconds` after 1970 lies in one of the years from -262143
/// to 262142, which is as far as the calendar of `chrono` goes.
pub open spec fn in_calendar(seconds: int) -> bool {
    -8_334_601_228_800 <= seconds <= 8_210_266_876_799
}

/// `chrono`'s `DateTime::from_timestamp` and `date_naive`: the day on which the
/// second `seconds` after 1970 falls, in UTC, where the calendar reaches it.
#[verifier::external_body]
pub(crate) fn utc_date(seconds: i64) -> (r: Option<Date>)
    ensures
        match r {
            Some(d) => in_calendar(seconds as int) && d.is_utc_date(seconds as int),
            None => !in_calendar(seconds as int),
        },
{
    chrono::DateTime::from_timestamp(seconds, 0).map(|t| t.date_naive()).map(|d| Date {
        year: d.year(),
        month: d.month() as u8,
        day: d.day() as u8,
    })
}

/// The certificates in a list, by their contents.
pub open spec fn byte_strings(list: Seq<Vec<u8>>) -> Seq<Seq<u8>> {
    list.map_values(|v: Vec<u8>| v@)
}

/// The certificates that a PEM file holds, in DER, or the wording of the
/// failure to read them.
pub uninterp spec fn pem_certificates_of(pem: Seq<u8>) -> Result<Seq<Seq<u8>>, Seq<char>>;

/// `rustls`'s `CertificateDer::pem_slice_iter`, collected: all the certificates
/// of the file, or the first failure.
#[verifier::external_body]
pub(crate) fn pem_certificates(pem: &[u8]) -> (r: Result<Vec<Vec<u8>>, String>)
    ensures
        match r {
            Ok(certs) => pem_certificates_of(pem@) == Ok::<Seq<Seq<u8>>, Seq<char>>(
                byte_strings(certs@),
            ),
            Err(e) => pem_certificates_of(pem@) == Err::<Seq<Seq<u8>>, Seq<char>>(e@),
        },
{
    rustls::pki_types::CertificateDer::pem_slice_iter(pem)
        .map(|cert| cert.map(|c| c.as_ref().to_vec()).map_err(|e| e.to_string()))
        .collect()
}

/// How a private key is encoded.
#[derive(Debug, Clone, Copy, PartialEq, Eq, Structural)]
pub enum KeyKind {
    Pkcs1,
    Sec1,
    Pkcs8,
}

/// A private key in DER.
#[derive(Debug)]
pub struct PrivateKey {
    pub kind: KeyKind,
    pub der: Vec<u8>,
}

/// The first private key that a PEM file holds, in DER, or the wording of the
/// failure to read it.
pub uninterp spec fn pem_private_key_of(pem: Seq<u8>) -> Result<(KeyKind, Seq<u8>), Seq<char>>;

/// `rustls`'s `PrivateKeyDer::from_pem_slice`: the first private key of the
/// file, or the failure.
#[verifier::external_body]
pub(crate) fn pem_private_key(pem: &[u8]) -> (r: Result<PrivateKey, String>)
    ensures
        match r {
            Ok(key) => pem_private_key_of(pem@) == Ok::<(KeyKind, Seq<u8>), Seq<char>>(
                (key.kind, key.der@),
            ),
            Err(e) => pem_private_key_of(pem@) == Err::<(KeyKind, Seq<u8>), Seq<char>>(e@),
        },
{
    let key = rustls::pki_types::PrivateKeyDer::from_pem_slice(pem).map_err(|e| e.to_string())?;
    let kind = match key {
        rustls::pki_types::PrivateKeyDer::Pkcs1(_) => KeyKind::Pkcs1,
        rustls::pki_types::PrivateKeyDer::Sec1(_) => KeyKind::Sec1,
        rustls::pki_types::PrivateKeyDer::Pkcs8(_) => KeyKind::Pkcs8,
        _ => return Err(String::new()),
    };
    Ok(PrivateKey { kind, der: key.secret_der().to_vec() })
}

/// `hostname::get`, where it succeeds with Unicode text. The name depends on the
/// machine, so nothing is claimed of it.
#[verifier::external_body]
pub(crate) fn local_host_name() -> (r: Option<String>) {
    hostname::get().ok().and_then(|name| name.into_string().ok())
}

/// `mdns_sd`'s description of a service.
#[verifier::external_type_specification]
#[verifier::external_body]
pub struct ExServiceInfo(mdns_sd::ServiceInfo);

/// What a service is announced with.
#[derive(Debug)]
pub struct ServicePlan {
    pub service_type: String,
    pub instance_name: String,
    pub host_name: String,
    pub port: u16,
    /// The keys and values of its TXT record.
    pub properties: Vec<(String, String)>,
}

/// The keys and values of a TXT record, by their texts.
pub open spec fn txt_of(properties: Seq<(String, String)>) -> Seq<(Seq<char>, Seq<char>)> {
    properties.map_values(|p: (String, String)| (p.0@, p.1@))
}

/// The keys of a TXT record.
pub open spec fn txt_keys(properties: Seq<(Seq<char>, Seq<char>)>) -> Seq<Seq<char>> {
    properties.map_values(|p: (Seq<char>, Seq<char>)| p.0)
}

/// Whether every key and value, with the sign between them, fits the 255 bytes
/// that one string of a TXT record can have.
pub open spec fn txt_fits(properties: Seq<(Seq<char>, Seq<char>)>) -> bool {
    forall|i: int|
        0 <= i < properties.len() ==> vstd::utf8::encode_utf8((#[trigger] properties[i]).0).len()
            + 1 + vstd::utf8::encode_utf8(properties[i].1).len() <= 255
}

/// `name` as one label: dots and backslashes get a backslash before them.
pub open spec fn escaped_label(name: Seq<char>) -> Seq<char>
    decreases name.len(),
{
    if name.len() == 0 {
        Seq::empty()
    } else {
        let c = name.last();
        escaped_label(name.drop_last()) + (if c == '.' || c == '\\' {
            seq!['\\', c]
        } else {
            seq![c]
        })
    }
}

/// `host` with one `local.` taken off where it ends in two.
pub open spec fn normal_host(host: Seq<char>) -> Seq<char> {
    if ".local.local."@.is_suffix_of(host) {
        host.take(host.len() - 6)
    } else {
        host
    }
}

/// What `mdns_sd`'s `ServiceInfo::get_fullname` returns of a description.
pub uninterp spec fn info_fullname(info: mdns_sd::ServiceInfo) -> Seq<char>;

/// What `mdns_sd`'s `ServiceInfo::get_hostname` returns of a description.
pub uninterp spec fn info_host(info: mdns_sd::ServiceInfo) -> Seq<char>;

/// What `mdns_sd`'s `ServiceInfo::get_port` returns of a description.
pub uninterp spec fn info_port(info: mdns_sd::ServiceInfo) -> u16;

/// The keys and values of what `mdns_sd`'s `ServiceInfo::get_properties` returns
/// of a description.
pub uninterp spec fn info_txt(info: mdns_sd::ServiceInfo) -> Seq<(Seq<char>, Seq<char>)>;

/// What `mdns_sd`'s `ServiceInfo::is_addr_auto` returns of a description: whether
/// its addresses follow those of the machine.
pub uninterp spec fn info_addr_auto(info: mdns_sd::ServiceInfo) -> bool;

/// A service that is ready to be announced, with what its description says.
pub struct Announcement {
    pub info: mdns_sd::ServiceInfo,
    /// The full name by which it is withdrawn.
    pub fullname: String,
    pub host_name: String,
    pub port: u16,
    /// The keys and values of its TXT record.
    pub properties: Vec<(String, String)>,
}

/// How `mdns_sd` words that a TXT record does not fit.
pub uninterp spec fn service_error_text(properties: Seq<(Seq<char>, Seq<char>)>) -> Seq<char>;

/// `mdns_sd`'s `ServiceInfo::new` with no addresses, then `enable_addr_auto`, with
/// what the description gives back of its full name, host name, port and TXT
/// record. It succeeds exactly where the TXT record fits. The full name is the
/// escaped instance name, a dot and the service type; the host name has at most
/// one `local.` at its end; port and TXT record are those of the plan, and the
/// addresses follow those of the machine.
#[verifier::external_body]
pub(crate) fn new_service_info(plan: &ServicePlan) -> (r: Result<Announcement, String>)
    requires
        plan.service_type@ == crate::protocol::mdns_discovery::SERVICE_TYPE@,
        txt_keys(txt_of(plan.properties@)) == seq!["id"@, "name"@, "type"@, "protocol"@],
    ensures
        match r {
            Ok(a) => {
                &&& txt_fits(txt_of(plan.properties@))
                &&& a.fullname@ == escaped_label(plan.instance_name@) + "."@ + plan.service_type@
                &&& a.host_name@ == normal_host(plan.host_name@)
                &&& a.port == plan.port
                &&& txt_of(a.properties@) == txt_of(plan.properties@)
                &&& a.fullname@ == info_fullname(a.info)
                &&& a.host_name@ == info_host(a.info)
                &&& a.port == info_port(a.info)
                &&& txt_of(a.properties@) == info_txt(a.info)
                &&& info_addr_auto(a.info)
            },
            Err(e) => !txt_fits(txt_of(plan.properties@)) && e@ == service_error_text(
                txt_of(plan.properties@),
            ),
        },
{
    let (ty, name, host) = (&plan.service_type, &plan.instance_name, &plan.host_name);
    let info = mdns_sd::ServiceInfo::new(ty, name, host, "", plan.port, &plan.properties[..])
        .map_err(|e| e.to_string())?
        .enable_addr_auto();
    let fullname = info.get_fullname().to_string();
    let host_name = info.get_hostname().to_string();
    let port = info.get_port();
    let properties =
        info.get_properties().iter().map(|p| (p.key().into(), p.val_str().into())).collect();
    Ok(Announcement { info, fullname, host_name, port, properties })
}

} // verus!
