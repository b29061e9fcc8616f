//! How refusals and failures are worded: which part stands where.

use vstd::prelude::*;
use vstd::utf8::{decode_utf8, is_ascii_chars, valid_utf8};

use crate::error::{Error, ErrorView};
use crate::outside::{
    base64_bytes, hex_text, ia5_error_text, pem_certificates_of, pem_private_key_of,
    private_key_public, sha256_of, signed_certificate, utf8_error_text, x509_of, Moment,
};
use crate::packet::Identity;
use crate::protocol::cert_store::DirView;
use crate::protocol::certificate::{
    certificate_of, common_name_of, generated, is_key_of, pair_error, plan_for, signature_kind,
    validity_from,
};
use crate::protocol::connection::framing::SteadyLine;
use crate::protocol::connection::inbound::{
    cert_refusal, echoed, exchange_error, inbound_link, inbound_refusal, ExchangeFault, Greeted,
};
use crate::protocol::connection::manager::{
    recv_outcome, send_error, LinksView, RecvEvent, SendOutcome,
};
use crate::protocol::connection::outbound::{
    dial_error, outbound_refusal, write_error, DialOutcome, Expected, WriteOutcome,
};
use crate::protocol::connection::tls::{handshake_error, identity_in};
use crate::protocol::crypto::{
    fingerprint_error, own_name, path_in, stored_fingerprint, unreadable_own,
};
use crate::protocol::device_id::device_id_error;
use crate::protocol::listener::{bind_error, exchange_refusal, Exchange};
use crate::protocol::pem::{armored_text, der_of_pem, occurrences, trimmed_lines};
use crate::text::decimal;

verus! {

/// A failed send names the device, and what failed.
pub proof fn law_failed_sends_are_worded(id: Seq<char>, cause: String)
    ensures
        send_error(id, SendOutcome::WriteFailed(cause)) == Some(
            ErrorView::ConnectionError("Failed to send packet to "@ + id + ": "@ + cause@),
        ),
        send_error(id, SendOutcome::FlushFailed(cause)) == Some(
            ErrorView::ConnectionError("Failed to flush packet to "@ + id + ": "@ + cause@),
        ),
        send_error(id, SendOutcome::WriteTimedOut) == Some(
            ErrorView::ConnectionTimeout("Timed out sending packet to "@ + id),
        ),
        send_error(id, SendOutcome::FlushTimedOut) == Some(
            ErrorView::ConnectionTimeout("Timed out flushing packet to "@ + id),
        ),
{
}

/// A failed read names the device, and what failed.
pub proof fn law_failed_reads_are_worded(id: Seq<char>, cause: String, line: Seq<u8>)
    ensures
        recv_outcome(id, RecvEvent::TimedOut, line) == Err::<bool, ErrorView>(
            ErrorView::ConnectionTimeout("Timed out receiving packet from "@ + id),
        ),
        recv_outcome(id, RecvEvent::Failed(cause), line) == Err::<bool, ErrorView>(
            ErrorView::ConnectionError("Failed to receive packet from "@ + id + ": "@ + cause@),
        ),
        recv_outcome(id, RecvEvent::Read(SteadyLine::Eof), line) == Err::<bool, ErrorView>(
            ErrorView::ConnectionError("Connection closed by "@ + id),
        ),
{
}

/// A reader whose link was replaced is told the generation that it holds, the
/// device, and the generation that is live, in this order.
pub proof fn law_outdated_readers_are_told_both_generations(
    links: LinksView,
    id: Seq<char>,
    held: u64,
)
    requires
        links.connections.contains_key(id),
        links.connections[id].generation != held,
    ensures
        links.recv_refusal(id, Some(held)) == Some(
            ErrorView::ConnectionError(
                "Stale generation "@ + decimal(held as nat) + " for device "@ + id
                    + " (link replaced; current generation "@ + decimal(
                    links.connections[id].generation as nat,
                ) + ")"@,
            ),
        ),
{
}

/// A refused identity in plain text tells whether it is ours, addressed to another
/// device or to another version.
pub proof fn law_refused_identities_are_worded(links: LinksView, identity: Identity)
    requires
        device_id_error(identity.device_id@) is None,
    ensures
        ({
            let id = identity.device_id@;
            let ours = id == links.device_id;
            let elsewhere = identity.target_device_id matches Some(t) && t@ != links.device_id && t@
                != echoed(links.device_id);
            let other_version = identity.target_protocol_version matches Some(v) && v != 8;
            &&& ours ==> inbound_refusal(links, identity) == Some(
                ErrorView::ConnectionError(
                    "Rejecting incoming connection from self (device_id "@ + id + ")"@,
                ),
            )
            &&& !ours && elsewhere ==> inbound_refusal(links, identity) == Some(
                ErrorView::ConnectionError(
                    "Received a connection request for a device that isn't us: "@
                        + identity.target_device_id->0@,
                ),
            )
            &&& !ours && !elsewhere && other_version ==> inbound_refusal(links, identity) == Some(
                ErrorView::ConnectionError(
                    "Received a connection request for a protocol version that isn't ours: "@
                        + decimal(identity.target_protocol_version->0 as nat),
                ),
            )
        }),
{
}

/// A certificate that bears another name tells that name before the device id; a
/// missing one names the device.
pub proof fn law_refused_certificates_are_worded(
    d: DirView,
    cert_dir: Seq<char>,
    id: Seq<char>,
    der: Seq<u8>,
    name: Seq<char>,
)
    ensures
        common_name_of(der) == Ok::<Seq<char>, ErrorView>(name) && name != id ==> cert_refusal(
            d,
            cert_dir,
            id,
            Some(der),
        ) == Some(
            ErrorView::CertificateError(
                "Certificate CN '"@ + name + "' does not match device ID '"@ + id
                    + "' from identity packet"@,
            ),
        ),
        common_name_of(der) matches Err(e) ==> cert_refusal(d, cert_dir, id, Some(der)) == Some(e),
        cert_refusal(d, cert_dir, id, None) is Some ==> cert_refusal(d, cert_dir, id, None) == Some(
            ErrorView::CertificateError(
                "Expected peer certificate for device "@ + id + " but none presented"@,
            ),
        ),
{
}

/// A connection that may not replace the link of its device is told so.
pub proof fn law_refused_replacements_are_worded(
    links: LinksView,
    d: DirView,
    cert_dir: Seq<char>,
    greeted: Greeted,
    cert: Option<Seq<u8>>,
    now: Moment,
)
    requires
        cert_refusal(d, cert_dir, greeted.identity().device_id@, cert) is None,
        links.connections.contains_key(greeted.identity().device_id@),
        cert is None || links.connections[greeted.identity().device_id@].peer_cert != cert,
    ensures
        inbound_link(links, d, cert_dir, greeted, cert, now).1 matches Err(e) && e
            == ErrorView::CertificateError(
            "Device "@ + greeted.identity().device_id@
                + " already connected and presented a different certificate, rejecting replacement"@,
        ),
{
}

/// A failed exchange is worded by its step.
pub proof fn law_failed_exchanges_are_worded(cause: String)
    ensures
        exchange_error(ExchangeFault::PlainReadFailed(cause)).message()
            == "Failed to read plaintext identity: "@ + cause@,
        exchange_error(ExchangeFault::SendFailed(cause)).message()
            == "Failed to send encrypted identity: "@ + cause@,
        exchange_error(ExchangeFault::FlushFailed(cause)).message()
            == "Failed to flush encrypted identity: "@ + cause@,
        exchange_error(ExchangeFault::ReadFailed(cause)).message()
            == "Failed to read encrypted identity: "@ + cause@,
        exchange_error(ExchangeFault::ReadTimedOut).message()
            == "Timed out reading encrypted identity"@,
        exchange_error(ExchangeFault::Closed).message()
            == "Connection closed during encrypted identity exchange"@,
{
}

/// A failed dial names the address, and a failed write which identity it was.
pub proof fn law_failed_dials_are_worded(addr: Seq<char>, which: Seq<char>, cause: String)
    ensures
        dial_error(addr, DialOutcome::Failed(cause)) == Some(
            ErrorView::ConnectionError("Failed to connect to "@ + addr + ": "@ + cause@),
        ),
        dial_error(addr, DialOutcome::TimedOut) == Some(
            ErrorView::ConnectionTimeout("TCP connect to "@ + addr + " timed out"@),
        ),
        write_error(which, WriteOutcome::WriteFailed(cause)) == Some(
            ErrorView::ConnectionError("Failed to send "@ + which + " identity: "@ + cause@),
        ),
        write_error(which, WriteOutcome::FlushFailed(cause)) == Some(
            ErrorView::ConnectionError("Failed to flush "@ + which + " identity: "@ + cause@),
        ),
{
}

/// A peer that is not who was dialed is told who it is before who it was.
pub proof fn law_changed_peers_are_worded(identity: Identity, expected: Expected)
    requires
        device_id_error(identity.device_id@) is None,
    ensures
        ({
            let refusal = outbound_refusal(identity, Some(expected));
            let same_device = identity.device_id@ == expected.device_id@;
            &&& !same_device ==> refusal == Some(
                ErrorView::InvalidPacket(
                    "Encrypted identity deviceId '"@ + identity.device_id@
                        + "' does not match pre-TLS identity '"@ + expected.device_id@ + "'"@,
                ),
            )
            &&& same_device && identity.protocol_version != expected.protocol_version ==> refusal
                == Some(
                ErrorView::InvalidPacket(
                    "Encrypted identity protocolVersion "@ + decimal(
                        identity.protocol_version as nat,
                    ) + " differs from pre-TLS "@ + decimal(expected.protocol_version as nat)
                        + " (mid-handshake change rejected)"@,
                ),
            )
        }),
{
}

/// A peer whose two identities differ is told the encrypted one before the plain
/// one.
pub proof fn law_differing_identities_are_worded(
    id: Seq<char>,
    version: u32,
    packet_type: String,
    identity: Identity,
    e: Error,
)
    ensures
        exchange_refusal(id, version, Exchange::Unread(e)) == Some(
            ErrorView::ConnectionError("Failed to read encrypted identity: "@ + e@.message()),
        ),
        packet_type@ != "kdeconnect.identity"@ ==> exchange_refusal(
            id,
            version,
            Exchange::Received { packet_type, parsed: Ok(identity) },
        ) == Some(
            ErrorView::InvalidPacket("Expected encrypted identity packet, got "@ + packet_type@),
        ),
        packet_type@ == "kdeconnect.identity"@ ==> exchange_refusal(
            id,
            version,
            Exchange::Received { packet_type, parsed: Err(e) },
        ) == Some(ErrorView::InvalidPacket("Malformed encrypted identity: "@ + e@.message())),
        packet_type@ == "kdeconnect.identity"@ && identity.device_id@ != id ==> exchange_refusal(
            id,
            version,
            Exchange::Received { packet_type, parsed: Ok(identity) },
        ) == Some(
            ErrorView::InvalidPacket(
                "Encrypted identity deviceId '"@ + identity.device_id@
                    + "' does not match plaintext identity '"@ + id + "'"@,
            ),
        ),
        packet_type@ == "kdeconnect.identity"@ && identity.device_id@ == id
            && identity.protocol_version != version ==> exchange_refusal(
            id,
            version,
            Exchange::Received { packet_type, parsed: Ok(identity) },
        ) == Some(
            ErrorView::InvalidPacket(
                "Encrypted identity protocolVersion "@ + decimal(identity.protocol_version as nat)
                    + " differs from plaintext "@ + decimal(version as nat)
                    + " (mid-handshake change rejected)"@,
            ),
        ),
{
}

/// A port that is not to be had is named, with the cause.
pub proof fn law_unbound_ports_are_worded(port: u16, cause: Seq<char>)
    ensures
        bind_error(port, cause) == "failed to bind protocol port "@ + decimal(port as nat) + ": "@
            + cause + "; another rust-connect instance is already running"@,
{
}

/// A handshake that failed names what failed, with whom, and the cause.
pub proof fn law_failed_handshakes_are_worded(
    what: Seq<char>,
    whom: Seq<char>,
    cause: Seq<char>,
)
    ensures
        handshake_error(what, whom, None) == ErrorView::ConnectionTimeout(
            what + " timed out for "@ + whom,
        ),
        handshake_error(what, whom, Some(cause)) == ErrorView::TlsError(
            what + " failed for "@ + whom + (": "@ + cause),
        ),
{
}

/// An own identity that cannot be made names the file that is to blame.
pub proof fn law_unusable_own_files_are_worded(cert_pem: Seq<u8>, key_pem: Seq<u8>)
    ensures
        pem_certificates_of(cert_pem) matches Err(e) ==> (identity_in(cert_pem, key_pem)
            matches Err(got) && got == ErrorView::TlsError(
            "Failed to parse own certificate PEM: "@ + e,
        )),
        pem_certificates_of(cert_pem) matches Ok(c) ==> (c.len() == 0 ==> (identity_in(
            cert_pem,
            key_pem,
        ) matches Err(got) && got == ErrorView::TlsError(
            "Own certificate file contains no certificates"@,
        ))),
        pem_certificates_of(cert_pem) matches Ok(c) ==> (c.len() > 0 ==> (pem_private_key_of(
            key_pem,
        ) matches Err(e) ==> (identity_in(cert_pem, key_pem) matches Err(got) && got
            == ErrorView::TlsError("Failed to parse own key PEM: "@ + e)))),
{
}

/// A certificate with another fingerprint tells the expected one before its own; a
/// missing or unreadable fingerprint names the device or the file.
pub proof fn law_differing_fingerprints_are_worded(
    d: DirView,
    cert_dir: Seq<char>,
    id: Seq<char>,
    der: Seq<u8>,
    stored: Seq<char>,
)
    requires
        crate::protocol::device_id::is_device_id(id),
    ensures
        ({
            let own = hex_text(sha256_of(der), 'a');
            let name = id + "_fingerprint.txt"@;
            &&& stored_fingerprint(d, cert_dir, id) == Ok::<Seq<char>, ErrorView>(stored) && stored
                != own ==> fingerprint_error(d, cert_dir, id, der) == Some(
                ErrorView::CertificateError(
                    "Certificate fingerprint mismatch for device "@ + id + ": expected "@ + (stored
                        + ", got "@ + own),
                ),
            )
            &&& !d.files.contains_key(name) ==> stored_fingerprint(d, cert_dir, id) == Err::<
                Seq<char>,
                ErrorView,
            >(
                ErrorView::NotFound {
                    resource: "No stored fingerprint for device"@,
                    id: Some(id),
                },
            )
            &&& d.files.contains_key(name) && !valid_utf8(d.files[name].contents)
                ==> stored_fingerprint(d, cert_dir, id) == Err::<Seq<char>, ErrorView>(
                ErrorView::Io {
                    message: "Failed to read peer fingerprint: stream did not contain valid UTF-8"@,
                    path: Some(path_in(cert_dir, name)),
                },
            )
        }),
{
    crate::protocol::device_id::law_accepts_exactly_device_ids(id);
}

/// A certificate that cannot be read says why.
pub proof fn law_unreadable_certificates_are_worded(der: Seq<u8>)
    ensures
        x509_of(der) matches Err(t) ==> (certificate_of(der) matches Err(got) && got
            == ErrorView::CertificateError("Failed to parse DER certificate: "@ + t)),
        x509_of(der) matches Ok(c) ==> (c.common_name is None ==> (common_name_of(der)
            matches Err(got) && got == ErrorView::CertificateError(
            "Certificate has no Common Name (CN)"@,
        ))),
{
}

/// A pair that does not belong together says which file is to blame, and why.
pub proof fn law_unfit_pairs_are_worded(cert_pem: Seq<u8>, key_pem: Seq<u8>)
    ensures
        der_of_pem(cert_pem) matches Err(e) ==> pair_error(cert_pem, key_pem) == Some(
            ErrorView::Validation {
                message: "Failed to parse certificate: "@ + e.message(),
                field: Some("cert_pem"@),
            },
        ),
        der_of_pem(cert_pem) matches Ok(der) ==> (x509_of(der) matches Ok(cert) ==> (
        private_key_public(key_pem) matches Err(e) ==> pair_error(cert_pem, key_pem) == Some(
            ErrorView::Validation {
                message: "Failed to parse private key: "@ + e,
                field: Some("key_pem"@),
            },
        ))),
        der_of_pem(cert_pem) matches Ok(der) ==> (x509_of(der) matches Ok(cert) ==> (
        private_key_public(key_pem) matches Ok(public) ==> (!is_key_of(cert, public) ==> pair_error(
            cert_pem,
            key_pem,
        ) == Some(
            ErrorView::Validation {
                message: "Certificate and private key do not match"@,
                field: Some("key_pem"@),
            },
        )))),
{
}

/// A certificate that was not made says at which step: the key, then the device
/// id, then the serial number, then the dates, then signing.
pub proof fn law_unmade_certificates_are_worded(
    id: Seq<char>,
    key: Result<Seq<char>, Seq<char>>,
    random: Result<Seq<u8>, Seq<char>>,
    now: int,
)
    ensures
        ({
            let made = generated(id, key, random, now);
            let ascii = is_ascii_chars(id);
            &&& key matches Err(e) ==> (made matches Err(got) && got.message()
                == "Failed to generate RSA key: "@ + e)
            &&& key is Ok && !ascii ==> (made matches Err(got) && got.message()
                == "device_id is not a valid IA5String for subjectAltName dNSName: "@
                + ia5_error_text(id))
            &&& key is Ok && ascii ==> (random matches Err(e) ==> (made matches Err(got)
                && got.message() == "Failed to generate serial: "@ + e))
            &&& key is Ok && ascii && random is Ok && validity_from(now) is None ==> (made
                matches Err(got) && got.message() == "Validity dates are out of range"@)
            &&& ascii ==> (key matches Ok(k) ==> (random matches Ok(bytes) ==> (validity_from(now)
                matches Some(dates) ==> (signed_certificate(
                plan_for(id, bytes, dates.0, dates.1),
                k,
                signature_kind(),
            ) matches Err(e) ==> (made matches Err(got) && got.message() == "Failed to sign cert: "@
                + e)))))
        }),
{
}

/// A PEM file that holds no one certificate says whether it is no text, holds more
/// than one, or armors no base64.
pub proof fn law_unreadable_pem_is_worded(pem: Seq<u8>)
    ensures
        !valid_utf8(pem) ==> (der_of_pem(pem) matches Err(e) && e == ErrorView::CertificateError(
            "Invalid UTF-8 in PEM: "@ + utf8_error_text(pem),
        )),
        ({
            let lines = trimmed_lines(decode_utf8(pem));
            let begins = occurrences(lines, "-----BEGIN CERTIFICATE-----"@);
            &&& valid_utf8(pem) && begins > 1 ==> (der_of_pem(pem) matches Err(e) && e
                == ErrorView::CertificateError(
                "PEM holds "@ + decimal(begins) + " certificates; exactly one is expected"@,
            ))
            &&& valid_utf8(pem) && begins <= 1 ==> (base64_bytes(armored_text(lines, false))
                matches Err(t) ==> (der_of_pem(pem) matches Err(e) && e
                == ErrorView::CertificateError("Failed to decode PEM base64: "@ + t)))
        }),
{
}

/// A missing own file is told with what was to be read and where.
pub proof fn law_missing_own_files_are_worded(what: Seq<char>, path: Seq<char>, d: DirView)
    ensures
        unreadable_own(what, path) == (ErrorView::Io {
            message: what + "No such file or directory (os error 2)"@,
            path: Some(path),
        }),
        d.files.contains_key("own.crt"@) ==> (der_of_pem(d.files["own.crt"@].contents) matches Err(
            e,
        ) ==> (own_name(d) matches Err(got) && got == ErrorView::CertificateError(
            "Failed to parse own certificate: "@ + e.message(),
        ))),
{
}

} // verus!
