//! What the TLS handshakes of links rest on: our own certificate, and which
//! certificates of peers are accepted.
//!
//! A stored fingerprint is a pin that is checked during the handshake, in both
//! roles. Where none is stored the peer's certificate is accepted, and it is up
//! to the caller to store it. As a server we always ask for the client's
//! certificate, and insist on it where the peer is known and pinned.

use vstd::prelude::*;

use crate::error::{Error, ErrorView};
use crate::outside::{
    byte_strings, pem_certificates, pem_certificates_of, pem_private_key, pem_private_key_of,
    KeyKind, PrivateKey,
};
use crate::protocol::crypto::{
    has_fingerprint, pair_at, path_in, peer_refusal, unreadable_own, CertificateManager, OWN_CERT,
    OWN_KEY,
};
use crate::text::{join2, join3, join4, maybe_text};

verus! {

/// The name that a client asks for. Peers are known by their certificates, so
/// it means nothing.
pub const TLS_SERVER_NAME: &'static str = "kdeconnect";

/// How long a handshake may take, in seconds.
pub const HANDSHAKE_TIMEOUT_SECS: u64 = 10;

/// The certificates and the private key that we present.
#[derive(Debug)]
pub struct OwnIdentity {
    pub certs: Vec<Vec<u8>>,
    pub key: PrivateKey,
}

/// The certificates and the private key of two PEM files.
pub open spec fn identity_in(cert_pem: Seq<u8>, key_pem: Seq<u8>) -> Result<
    (Seq<Seq<u8>>, (KeyKind, Seq<u8>)),
    ErrorView,
> {
    match pem_certificates_of(cert_pem) {
        Err(e) => Err(ErrorView::TlsError("Failed to parse own certificate PEM: "@ + e)),
        Ok(certs) => if certs.len() == 0 {
            Err(ErrorView::TlsError("Own certificate file contains no certificates"@))
        } else {
            match pem_private_key_of(key_pem) {
                Err(e) => Err(ErrorView::TlsError("Failed to parse own key PEM: "@ + e)),
                Ok(key) => Ok((certs, key)),
            }
        },
    }
}

/// An identity, by its contents.
pub open spec fn identity_result(r: Result<OwnIdentity, Error>) -> Result<
    (Seq<Seq<u8>>, (KeyKind, Seq<u8>)),
    ErrorView,
> {
    match r {
        Ok(i) => Ok((byte_strings(i.certs@), (i.key.kind, i.key.der@))),
        Err(e) => Err(e@),
    }
}

/// Makes an identity out of what two PEM files came to.
pub fn assemble_identity(
    certs: Result<Vec<Vec<u8>>, String>,
    key: Result<PrivateKey, String>,
) -> (r: Result<OwnIdentity, Error>)
    ensures
        match certs {
            Err(e) => r matches Err(got) && got@ == ErrorView::TlsError(
                "Failed to parse own certificate PEM: "@ + e@,
            ),
            Ok(c) => if c@.len() == 0 {
                r matches Err(got) && got@ == ErrorView::TlsError(
                    "Own certificate file contains no certificates"@,
                )
            } else {
                match key {
                    Err(e) => r matches Err(got) && got@ == ErrorView::TlsError(
                        "Failed to parse own key PEM: "@ + e@,
                    ),
                    Ok(k) => r matches Ok(i) && i.certs == c && i.key == k,
                }
            },
        },
{
    let certs = match certs {
        Ok(c) => c,
        Err(e) => {
            return Err(
                Error::TlsError(join2("Failed to parse own certificate PEM: ", e.as_str())),
            );
        },
    };
    if certs.len() == 0 {
        return Err(Error::TlsError("Own certificate file contains no certificates".to_owned()));
    }
    match key {
        Ok(key) => Ok(OwnIdentity { certs, key }),
        Err(e) => Err(Error::TlsError(join2("Failed to parse own key PEM: ", e.as_str()))),
    }
}

/// Loads the certificates and the private key that we present.
pub fn load_own_identity(certs: &CertificateManager) -> (r: Result<OwnIdentity, Error>)
    ensures
        match pair_at(certs.directory(), OWN_CERT@, OWN_KEY@) {
            Some(pair) => identity_result(r) == identity_in(pair.0, pair.1),
            None => r matches Err(e) && e@ == (if certs.directory().files.contains_key(OWN_CERT@) {
                unreadable_own("Failed to read own key: "@, path_in(certs.location(), OWN_KEY@))
            } else {
                unreadable_own(
                    "Failed to read own certificate: "@,
                    path_in(certs.location(), OWN_CERT@),
                )
            }),
        },
{
    match certs.load_own_certificate() {
        Ok((cert_pem, key_pem)) => assemble_identity(
            pem_certificates(cert_pem.as_slice()),
            pem_private_key(key_pem.as_slice()),
        ),
        Err(e) => Err(e),
    }
}

/// The identity that we present as a client: none where we have no certificate.
pub fn client_identity(certs: &CertificateManager) -> (r: Result<Option<OwnIdentity>, Error>)
    ensures
        match pair_at(certs.directory(), OWN_CERT@, OWN_KEY@) {
            None => r == Ok::<Option<OwnIdentity>, Error>(None),
            Some(pair) => match r {
                Ok(i) => i matches Some(own) && identity_result(Ok(own)) == identity_in(
                    pair.0,
                    pair.1,
                ),
                Err(e) => identity_result(Err(e)) == identity_in(pair.0, pair.1),
            },
        },
{
    if !certs.has_own_certificate() {
        return Ok(None);
    }
    match load_own_identity(certs) {
        Ok(own) => Ok(Some(own)),
        Err(e) => Err(e),
    }
}

/// Whether the certificate that a server presented is accepted.
pub fn verify_server_cert(certs: &CertificateManager, device_id: &str, end_entity: &[u8]) -> (r:
    Result<(), Error>)
    ensures
        match r {
            Ok(_) => peer_refusal(
                certs.directory(),
                certs.location(),
                device_id@,
                end_entity@,
            ) is None,
            Err(e) => peer_refusal(
                certs.directory(),
                certs.location(),
                device_id@,
                end_entity@,
            ) == Some(e@),
        },
{
    certs.verify_peer_certificate(device_id, end_entity)
}

/// Whether a client has to present a certificate: it does where it is known and
/// pinned.
pub open spec fn must_present(certs: CertificateManager, device_id: Option<Seq<char>>) -> bool {
    device_id matches Some(id) && has_fingerprint(certs.directory(), id)
}

/// Whether a client has to present a certificate.
pub fn client_auth_mandatory(certs: &CertificateManager, device_id: Option<&str>) -> (r: bool)
    ensures
        r == must_present(*certs, maybe_text(device_id)),
{
    match device_id {
        Some(id) => certs.has_peer_fingerprint(id),
        None => false,
    }
}

/// Whether the certificate that a client presented is accepted. One of a client
/// that is not known yet is, to be checked once it is.
pub fn verify_client_cert(
    certs: &CertificateManager,
    device_id: Option<&str>,
    end_entity: &[u8],
) -> (r: Result<(), Error>)
    ensures
        match maybe_text(device_id) {
            None => r is Ok,
            Some(id) => match peer_refusal(certs.directory(), certs.location(), id, end_entity@) {
                None => r is Ok,
                Some(e) => r matches Err(got) && got@ == e,
            },
        },
{
    match device_id {
        Some(id) => certs.verify_peer_certificate(id, end_entity),
        None => Ok(()),
    }
}

/// What is said of a handshake that failed, where `what` names it and `whom` it
/// was made with; without a cause it timed out.
pub open spec fn handshake_error(what: Seq<char>, whom: Seq<char>, cause: Option<Seq<char>>) -> ErrorView {
    match cause {
        None => ErrorView::ConnectionTimeout(what + " timed out for "@ + whom),
        Some(e) => ErrorView::TlsError(what + " failed for "@ + whom + (": "@ + e)),
    }
}

/// What is said of a handshake that failed.
pub fn handshake_failed(what: &str, whom: &str, cause: Option<String>) -> (r: Error)
    ensures
        r@ == handshake_error(what@, whom@, crate::error::text_of(cause)),
{
    match cause {
        None => Error::ConnectionTimeout(join3(what, " timed out for ", whom)),
        Some(e) => {
            let tail = join2(": ", e.as_str());
            Error::TlsError(join4(what, " failed for ", whom, tail.as_str()))
        },
    }
}

/// A pinned peer gets through no handshake with another certificate, nor as a
/// client without one; and the handshake is where it is stopped, in both roles.
pub proof fn law_pinned_peers_are_held_to_their_certificate(
    certs: CertificateManager,
    id: Seq<char>,
    der: Seq<u8>,
)
    requires
        has_fingerprint(certs.directory(), id),
    ensures
        must_present(certs, Some(id)),
        peer_refusal(certs.directory(), certs.location(), id, der) is None <==>
            crate::protocol::crypto::stored_fingerprint(certs.directory(), certs.location(), id)
            == Ok::<Seq<char>, ErrorView>(crate::protocol::certificate::fingerprint_of(der)),
{
}

} // verus!
