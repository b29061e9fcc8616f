//! What calls that store, load and check certificates come to, one after the
//! other.

use vstd::prelude::*;

use crate::error::{Error, ErrorView};
use crate::net::IpAddr;
use crate::outside::{hex_text, sha256_of, Moment};
use crate::packet::Identity;
use crate::protocol::certificate::covers;
use crate::protocol::connection::framing::{
    law_bounded_pieces, law_steady_pieces, read_line_bounded, read_steady_line, Fed, SteadyLine,
};
use crate::protocol::connection::tls::{
    client_auth_mandatory, verify_client_cert, verify_server_cert,
};
use crate::protocol::crypto::CertificateManager;
use crate::protocol::device_id::{is_device_id, law_accepts_exactly_device_ids};
use crate::protocol::mdns_discovery::{
    resolve_skip_reason, resolved_to_peer, service_plan, storm_verdict, usable_peer_address,
    MdnsPeer, Sample, Sampler, ServiceView, StormReport,
};
use crate::protocol::pem::{der_to_pem, pem_to_der};
use crate::table::Table;

verus! {

/// A certificate and key that were stored for a device are what is loaded next,
/// and the device then has a certificate.
pub proof fn law_what_was_stored_is_loaded(
    m: &mut CertificateManager,
    id: &str,
    cert: &[u8],
    key: &[u8],
    stored: Result<(), Error>,
    later: &CertificateManager,
    loaded: Result<(Vec<u8>, Vec<u8>), Error>,
    there: bool,
)
    requires
        call_ensures(CertificateManager::store_certificate, (m, id, cert, key), stored),
        later.directory() == final(m).directory(),
        call_ensures(CertificateManager::load_certificate, (later, id), loaded),
        call_ensures(CertificateManager::has_certificate, (later, id), there),
    ensures
        stored is Ok <==> is_device_id(id@),
        stored is Ok ==> there && (loaded matches Ok(pair) && pair.0@ == cert@ && pair.1@ == key@),
        stored is Err ==> !there && loaded is Err && final(m).directory().files
            == old(m).directory().files,
{
    law_accepts_exactly_device_ids(id@);
    crate::protocol::trust_laws::law_stored_pair_comes_back(old(m).directory(), id@, cert@, key@);
}

/// An own certificate and key that were stored are what is loaded next.
pub proof fn law_stored_own_pair_is_loaded(
    m: &mut CertificateManager,
    cert: &[u8],
    key: &[u8],
    stored: Result<(), Error>,
    later: &CertificateManager,
    loaded: Result<(Vec<u8>, Vec<u8>), Error>,
    there: bool,
)
    requires
        call_ensures(CertificateManager::store_own_certificate, (m, cert, key), stored),
        later.directory() == final(m).directory(),
        call_ensures(CertificateManager::load_own_certificate, (later,), loaded),
        call_ensures(CertificateManager::has_own_certificate, (later,), there),
    ensures
        stored is Ok,
        there,
        loaded matches Ok(pair) && pair.0@ == cert@ && pair.1@ == key@,
        final(m).directory().files["own.key"@].owner_only,
{
    crate::protocol::trust_laws::law_stored_own_pair_comes_back(old(m).directory(), cert@, key@);
}

/// After a device's certificate was deleted it has none.
pub proof fn law_what_was_deleted_is_gone(
    m: &mut CertificateManager,
    id: &str,
    deleted: Result<(), Error>,
    later: &CertificateManager,
    there: bool,
    other: Seq<char>,
)
    requires
        call_ensures(CertificateManager::delete_certificate, (m, id), deleted),
        later.directory() == final(m).directory(),
        call_ensures(CertificateManager::has_certificate, (later, id), there),
    ensures
        deleted is Ok <==> is_device_id(id@),
        !there,
        deleted is Ok && other != id@ + ".crt"@ && other != id@ + ".key"@
            ==> final(m).directory().files.contains_key(other)
            == old(m).directory().files.contains_key(other) && final(m).directory().files[other]
            == old(m).directory().files[other],
{
    law_accepts_exactly_device_ids(id@);
}

/// The first certificate of a peer is stored and pinned; from then on a
/// certificate is accepted of that peer if and only if it has the same digest in
/// hexadecimal.
pub proof fn law_first_certificate_pins_the_peer(
    m: &mut CertificateManager,
    id: &str,
    der: &[u8],
    stored: Result<(), Error>,
    known: bool,
    later: &CertificateManager,
    other: &[u8],
    accepted: Result<(), Error>,
    pinned: bool,
)
    requires
        is_device_id(id@),
        call_ensures(CertificateManager::has_peer_fingerprint, (&*old(m), id), known),
        !known,
        call_ensures(CertificateManager::store_peer_certificate, (m, id, der), stored),
        later.directory() == final(m).directory(),
        call_ensures(CertificateManager::verify_peer_certificate, (later, id, other), accepted),
        call_ensures(CertificateManager::has_peer_fingerprint, (later, id), pinned),
    ensures
        stored is Ok,
        pinned,
        accepted is Ok <==> hex_text(sha256_of(other@), 'a') == hex_text(sha256_of(der@), 'a'),
{
    crate::protocol::trust_laws::law_trust_on_first_use(
        old(m).directory(),
        later.location(),
        id@,
        der@,
        other@,
    );
    crate::protocol::trust_laws::law_trust_on_first_use(
        old(m).directory(),
        old(m).location(),
        id@,
        der@,
        other@,
    );
}

/// After a peer was deleted nothing of it is known, and any certificate of it is
/// accepted again.
pub proof fn law_deleted_peers_are_strangers(
    m: &mut CertificateManager,
    id: &str,
    deleted: Result<(), Error>,
    later: &CertificateManager,
    der: &[u8],
    accepted: Result<(), Error>,
    pinned: bool,
    there: bool,
)
    requires
        is_device_id(id@),
        call_ensures(CertificateManager::delete_peer_certificate, (m, id), deleted),
        later.directory() == final(m).directory(),
        call_ensures(CertificateManager::verify_peer_certificate, (later, id, der), accepted),
        call_ensures(CertificateManager::has_peer_fingerprint, (later, id), pinned),
        call_ensures(CertificateManager::has_peer_certificate, (later, id), there),
    ensures
        deleted is Ok,
        !pinned,
        !there,
        accepted is Ok,
{
    law_accepts_exactly_device_ids(id@);
}

/// A fingerprint is the SHA-256 digest in lower-case hexadecimal, and a
/// certificate is checked against the one that is stored.
pub proof fn law_fingerprints_are_digests(
    der: &[u8],
    fingerprint: Result<String, Error>,
    m: &CertificateManager,
    id: &str,
    stored: Result<String, Error>,
    checked: Result<(), Error>,
)
    requires
        call_ensures(CertificateManager::compute_fingerprint, (der,), fingerprint),
        call_ensures(CertificateManager::load_peer_fingerprint, (m, id), stored),
        call_ensures(CertificateManager::verify_peer_fingerprint, (m, id, der), checked),
    ensures
        fingerprint matches Ok(f) && f@ == hex_text(sha256_of(der@), 'a'),
        checked is Ok <==> (stored matches Ok(s) && fingerprint matches Ok(f) && s@ == f@),
{
}

/// The peers that are listed are those whose certificate is stored, each once.
pub proof fn law_listed_peers_have_certificates(
    m: &CertificateManager,
    listed: Result<Vec<String>, Error>,
    i: int,
    id: Seq<char>,
)
    requires
        call_ensures(CertificateManager::list_known_peers, (m,), listed),
        m.directory().present,
    ensures
        listed matches Ok(peers) && (crate::table::texts(peers@).contains(id)
            <==> m.directory().files.contains_key(id + "_peer.crt"@)),
{
}

/// The own certificate is valid at a moment if and only if its file holds a
/// certificate that is.
pub proof fn law_own_validity_is_read_from_the_file(
    m: &CertificateManager,
    now: Moment,
    valid: bool,
)
    requires
        call_ensures(CertificateManager::own_certificate_is_valid_at, (m, now), valid),
    ensures
        valid <==> m.directory().files.contains_key("own.crt"@)
            && (crate::protocol::pem::der_of_pem(m.directory().files["own.crt"@].contents)
            matches Ok(der) && (crate::outside::x509_of(der) matches Ok(cert) && covers(
            cert,
            now,
        ))),
{
}

/// The paths of a device's files are the directory, its id and an ending; there
/// is none for what is no device id.
pub proof fn law_paths_end_in_the_file_names(
    m: &CertificateManager,
    id: &str,
    cert: Result<String, Error>,
    key: Result<String, Error>,
    peer: Result<String, Error>,
    pin: Result<String, Error>,
)
    requires
        call_ensures(CertificateManager::cert_path, (m, id), cert),
        call_ensures(CertificateManager::key_path, (m, id), key),
        call_ensures(CertificateManager::peer_cert_path, (m, id), peer),
        call_ensures(CertificateManager::fingerprint_path, (m, id), pin),
        m.location().len() > 0,
        m.location().last() != '/',
    ensures
        ({
            let head = m.location() + seq!['/'] + id@;
            let good = is_device_id(id@);
            &&& cert is Ok <==> good
            &&& cert matches Ok(p) ==> p@ == head + ".crt"@
            &&& key is Ok <==> good
            &&& key matches Ok(p) ==> p@ == head + ".key"@
            &&& peer is Ok <==> good
            &&& peer matches Ok(p) ==> p@ == head + "_peer.crt"@
            &&& pin is Ok <==> good
            &&& pin matches Ok(p) ==> p@ == head + "_fingerprint.txt"@
        }),
{
    law_accepts_exactly_device_ids(id@);
    reveal_strlit("/");
    assert("/"@ =~= seq!['/']);
    let dir = m.location() + "/"@;
    assert(dir + (id@ + ".crt"@) =~= dir + id@ + ".crt"@);
    assert(dir + (id@ + ".key"@) =~= dir + id@ + ".key"@);
    assert(dir + (id@ + "_peer.crt"@) =~= dir + id@ + "_peer.crt"@);
    assert(dir + (id@ + "_fingerprint.txt"@) =~= dir + id@ + "_fingerprint.txt"@);
}

/// A certificate that was written as PEM is read back as it was.
pub proof fn law_pem_is_read_back(
    der: &[u8],
    pem: Vec<u8>,
    bytes: &[u8],
    read: Result<Vec<u8>, Error>,
)
    requires
        call_ensures(der_to_pem, (der,), Ok::<Vec<u8>, Error>(pem)),
        bytes@ == pem@,
        call_ensures(pem_to_der, (bytes,), read),
    ensures
        read matches Ok(v) && v@ == der@,
{
}

/// In both roles a pinned peer is held to its certificate; a client that is not
/// known yet need not present one, and whatever it presents is accepted.
pub proof fn law_handshakes_hold_peers_to_their_certificate(
    certs: &CertificateManager,
    id: &str,
    der: &[u8],
    checked: Result<(), Error>,
    as_server: Result<(), Error>,
    as_client: Result<(), Error>,
    pinned: bool,
    must: bool,
    stranger: Result<(), Error>,
    stranger_must: bool,
)
    requires
        call_ensures(CertificateManager::verify_peer_certificate, (certs, id, der), checked),
        call_ensures(verify_server_cert, (certs, id, der), as_server),
        call_ensures(verify_client_cert, (certs, Some(id), der), as_client),
        call_ensures(CertificateManager::has_peer_fingerprint, (certs, id), pinned),
        call_ensures(client_auth_mandatory, (certs, Some(id)), must),
        call_ensures(verify_client_cert, (certs, None::<&str>, der), stranger),
        call_ensures(client_auth_mandatory, (certs, None::<&str>), stranger_must),
    ensures
        as_server is Ok <==> checked is Ok,
        as_client is Ok <==> checked is Ok,
        must <==> pinned,
        stranger is Ok,
        !stranger_must,
{
}

/// One piece of a bounded line, of which the bytes up to the first newline belong
/// to the line: they are added while the line fits the cap, and the line is
/// complete with its newline or at the end of the stream.
pub proof fn law_bounded_lines_are_read_up_to_newlines(
    buf: &mut Vec<u8>,
    start: usize,
    available: &[u8],
    max_len: usize,
    fed: Fed<Result<usize, Error>>,
    i: int,
    take: nat,
)
    requires
        call_ensures(read_line_bounded, (buf, start, available, max_len), fed),
        start <= old(buf)@.len(),
        0 <= i <= available@.len(),
        forall|j: int| 0 <= j < i ==> available@[j] != 10,
        i < available@.len() ==> available@[i] == 10,
        take == (if i < available@.len() {
            i + 1
        } else {
            i
        }),
    ensures
        ({
            let over = available@.len() > 0 && old(buf)@.len() + take > max_len;
            &&& over ==> fed.consume == 0 && final(buf)@ == old(buf)@ && (fed.outcome
                matches Some(Err(e)) && (e@ matches ErrorView::PacketTooLarge { size, max } && size
                == old(buf)@.len() + take && max == max_len))
            &&& !over ==> fed.consume == take && final(buf)@ == old(buf)@ + available@.take(
                take as int,
            )
            &&& !over ==> (fed.outcome is None <==> i == available@.len() && available@.len() > 0)
            &&& !over && fed.outcome is Some ==> (fed.outcome->0 matches Ok(n) && n
                == old(buf)@.len() + take - start)
        }),
{
    law_bounded_pieces(old(buf)@, start as nat, available@, max_len as nat, i, take);
    if available@.len() == 0 {
        assert(old(buf)@ + available@.take(take as int) =~= old(buf)@);
    }
}

/// One piece of a line of an established link: its bytes are used in any case; a
/// line over the cap is dropped, and skipped once its newline has come.
pub proof fn law_steady_lines_are_read_up_to_newlines(
    buf: &mut Vec<u8>,
    start: usize,
    discarding: &mut bool,
    available: &[u8],
    max_len: usize,
    fed: Fed<SteadyLine>,
    i: int,
    take: nat,
)
    requires
        call_ensures(read_steady_line, (buf, start, discarding, available, max_len), fed),
        start <= old(buf)@.len() <= usize::MAX - available@.len(),
        available@.len() > 0,
        0 <= i <= available@.len(),
        forall|j: int| 0 <= j < i ==> available@[j] != 10,
        i < available@.len() ==> available@[i] == 10,
        take == (if i < available@.len() {
            i + 1
        } else {
            i
        }),
    ensures
        ({
            let keeps = !*old(discarding) && old(buf)@.len() + take <= max_len;
            &&& fed.consume == take
            &&& fed.outcome is None <==> i == available@.len()
            &&& *final(discarding) <==> !keeps
            &&& keeps ==> final(buf)@ == old(buf)@ + available@.take(take as int)
            &&& keeps && fed.outcome is Some ==> (fed.outcome->0 matches SteadyLine::Line(n) && n
                == old(buf)@.len() + take - start)
            &&& !keeps && fed.outcome is Some ==> fed.outcome->0 == SteadyLine::OversizeSkipped
            &&& !keeps && !*old(discarding) ==> final(buf)@ == old(buf)@.take(start as int)
        }),
{
    law_steady_pieces(
        old(buf)@,
        start as nat,
        *old(discarding),
        available@,
        max_len as nat,
        i,
        take,
    );
}

/// What is announced says who we are: the instance is the device id, and the TXT
/// record holds id, name, type and protocol version.
pub proof fn law_service_plans_say_who_we_are(
    identity: &Identity,
    host: Option<String>,
    plan: crate::outside::ServicePlan,
)
    requires
        call_ensures(service_plan, (identity, host), plan),
    ensures
        plan.service_type@ == "_kdeconnect._udp.local."@,
        plan.instance_name@ == identity.device_id@,
        host matches Some(h) ==> plan.host_name@ == h@ + ".local."@,
        host is None ==> plan.host_name@ == "rust-connect"@ + ".local."@,
        plan.port == (match identity.tcp_port {
            Some(p) => p,
            None => 1716,
        }),
        plan.properties@.len() == 4,
        plan.properties@[0].0@ == "id"@ && plan.properties@[0].1@ == identity.device_id@,
        plan.properties@[1].0@ == "name"@ && plan.properties@[1].1@ == identity.device_name@,
        plan.properties@[2].0@ == "type"@ && plan.properties@[2].1@ == identity.device_type@,
        plan.properties@[3].0@ == "protocol"@ && plan.properties@[3].1@ == crate::text::decimal(
            identity.protocol_version as nat,
        ),
{
    let t = crate::protocol::mdns_discovery::announced_txt(*identity);
    let seen = crate::outside::txt_of(plan.properties@);
    assert(seen == t);
    assert(seen.len() == plan.properties@.len());
    assert(seen[0] == (plan.properties@[0].0@, plan.properties@[0].1@));
    assert(seen[1] == (plan.properties@[1].0@, plan.properties@[1].1@));
    assert(seen[2] == (plan.properties@[2].0@, plan.properties@[2].1@));
    assert(seen[3] == (plan.properties@[3].0@, plan.properties@[3].1@));
}

/// A resolved service is a peer if and only if its id is a device id, its
/// protocol version a number, and the `i`th is its first private address of IPv4.
pub proof fn law_resolved_services_are_peers(
    service: &ServiceView,
    peer: Option<MdnsPeer>,
    i: int,
)
    requires
        call_ensures(resolved_to_peer, (service,), peer),
        0 <= i <= service.addresses@.len(),
        forall|j: int|
            0 <= j < i ==> !(((#[trigger] service.addresses@[j]) is V4) && crate::net::is_private(
                service.addresses@[j],
            )),
        i < service.addresses@.len() ==> service.addresses@[i] is V4 && crate::net::is_private(
            service.addresses@[i],
        ),
    ensures
        ({
            let txt = service.txt@;
            let id = if txt.contains_key("id"@) {
                txt["id"@]@
            } else {
                crate::protocol::mdns_discovery::instance_name(service.fullname@)
            };
            let version = crate::text::number_in(txt["protocol"@]@, u32::MAX as nat);
            &&& peer is Some <==> is_device_id(id) && txt.contains_key("protocol"@) && version
                is Some && i < service.addresses@.len()
            &&& peer matches Some(p) ==> p.device_id@ == id && p.address == service.addresses@[i]
                && p.srv_port == service.port && Some(p.protocol_version as nat) == version
                && p.device_name@ == (if txt.contains_key("name"@) {
                txt["name"@]@
            } else {
                id
            }) && p.device_type@ == (if txt.contains_key("type"@) {
                txt["type"@]@
            } else {
                "desktop"@
            })
        }),
{
    crate::protocol::mdns_discovery::law_first_usable_address_is_first(service.addresses@, i);
    crate::protocol::mdns_discovery::law_services_stand_for_peers(
        service.fullname@,
        service.port,
        service.addresses@,
        service.txt@,
    );
}

/// An address can be used if and only if it is a private one of IPv4.
pub proof fn law_usable_addresses_are_private_ipv4(ip: IpAddr, usable: bool, private: bool)
    requires
        call_ensures(usable_peer_address, (&ip,), usable),
        call_ensures(crate::net::is_private_address, (&ip,), private),
    ensures
        usable <==> ip is V4 && private,
{
}

/// A storm is reported if and only if the sends reach the threshold, with their
/// number.
pub proof fn law_storms_are_reported_at_the_threshold(
    prev: &Table<i64>,
    cur: &Table<i64>,
    threshold: i64,
    r: Option<StormReport>,
)
    requires
        call_ensures(storm_verdict, (prev, cur, threshold), r),
    ensures
        r is Some <==> crate::protocol::mdns_discovery::sends_between(prev@, cur@) >= threshold,
        r matches Some(report) ==> report.sends
            == crate::protocol::mdns_discovery::sends_between(prev@, cur@),
{
}

/// The first sample is only remembered; a later one makes a storm if and only if
/// at least 600 packets were sent since the one before. A sample that is missing
/// changes nothing.
pub proof fn law_samples_are_held_against_the_last(
    sampler: &mut Sampler,
    snapshot: Option<Table<i64>>,
    sample: Sample,
)
    requires
        call_ensures(Sampler::sample_metrics, (sampler, snapshot), sample),
    ensures
        snapshot is None ==> sample is Skipped && final(sampler).last == old(sampler).last,
        snapshot is Some ==> final(sampler).last == snapshot,
        snapshot is Some && old(sampler).last is None ==> sample is Baseline,
        snapshot matches Some(cur) ==> (old(sampler).last matches Some(prev) ==> (sample is Storm
            <==> crate::protocol::mdns_discovery::sends_between(prev@, cur@) >= 600) && (sample
            is Quiet <==> crate::protocol::mdns_discovery::sends_between(prev@, cur@) < 600)),
{
}

/// A service is passed over for having nothing but IPv6 if and only if it has an
/// address of IPv6 and no private one of IPv4.
pub proof fn law_skipped_services_say_why(addresses: &Vec<IpAddr>, reason: &'static str)
    requires
        call_ensures(resolve_skip_reason, (addresses,), reason),
    ensures
        ({
            let six = exists|i: int|
                0 <= i < addresses@.len() && ((#[trigger] addresses@[i]) is V6);
            let usable = exists|i: int|
                0 <= i < addresses@.len() && ((#[trigger] addresses@[i]) is V4)
                    && crate::net::is_private(addresses@[i]);
            &&& reason@ == "ipv6_only"@ <==> six && !usable
            &&& reason@ == "unusable"@ <==> !six || usable
        }),
{
    reveal_strlit("ipv6_only");
    reveal_strlit("unusable");
    assert("ipv6_only"@.len() != "unusable"@.len());
    if exists|i: int|
        0 <= i < addresses@.len() && ((#[trigger] addresses@[i]) is V4) && crate::net::is_private(
            addresses@[i],
        ) {
        let i = choose|i: int|
            0 <= i < addresses@.len() && ((#[trigger] addresses@[i]) is V4)
                && crate::net::is_private(addresses@[i]);
        assert(crate::protocol::mdns_discovery::is_usable(addresses@[i]));
    }
}

/// A certificate that is asked for is there afterwards or not at all: one that is
/// there is kept.
pub proof fn law_ensured_certificates_are_there(
    m: &mut CertificateManager,
    id: &str,
    name: &str,
    r: Result<String, Error>,
    before: &CertificateManager,
    was_there: bool,
    later: &CertificateManager,
    is_there: bool,
)
    requires
        call_ensures(CertificateManager::ensure_certificate, (m, id, name), r),
        before.directory() == old(m).directory(),
        call_ensures(CertificateManager::has_certificate, (before, id), was_there),
        later.directory() == final(m).directory(),
        call_ensures(CertificateManager::has_certificate, (later, id), is_there),
    ensures
        was_there ==> r is Ok && final(m).directory() == old(m).directory(),
        r matches Ok(got) ==> got@ == id@,
        r is Ok && is_device_id(id@) ==> is_there,
        !is_device_id(id@) ==> r is Err,
{
    law_accepts_exactly_device_ids(id@);
}

/// An own certificate that is there and valid is kept; after success there is one.
pub proof fn law_ensured_own_certificate_is_there(
    m: &mut CertificateManager,
    id: &str,
    name: &str,
    now: Moment,
    r: Result<(), Error>,
    before: &CertificateManager,
    was_there: bool,
    was_valid: bool,
    later: &CertificateManager,
    is_there: bool,
)
    requires
        call_ensures(CertificateManager::ensure_own_certificate_at, (m, id, name, now), r),
        before.directory() == old(m).directory(),
        call_ensures(CertificateManager::has_own_certificate, (before,), was_there),
        call_ensures(CertificateManager::own_certificate_is_valid_at, (before, now), was_valid),
        later.directory() == final(m).directory(),
        call_ensures(CertificateManager::has_own_certificate, (later,), is_there),
    ensures
        was_there && was_valid ==> r is Ok && final(m).directory() == old(m).directory(),
        r is Ok ==> is_there,
        r is Err ==> final(m).directory() == old(m).directory(),
{
    crate::view_laws::law_own_certificate_is_kept_or_replaced(*old(m), *final(m), id@, now, r);
}

/// A device's certificate is adopted as the own one if and only if there is no own
/// one and the device's bears its id; afterwards the own pair is what the device's
/// was.
pub proof fn law_adopted_certificates_are_own(
    m: &mut CertificateManager,
    id: &str,
    r: Result<bool, Error>,
    before: &CertificateManager,
    pair: Result<(Vec<u8>, Vec<u8>), Error>,
    own: bool,
    later: &CertificateManager,
    loaded: Result<(Vec<u8>, Vec<u8>), Error>,
)
    requires
        call_ensures(CertificateManager::adopt_legacy_own_certificate, (m, id), r),
        before.directory() == old(m).directory(),
        call_ensures(CertificateManager::load_certificate, (before, id), pair),
        call_ensures(CertificateManager::has_own_certificate, (before,), own),
        later.directory() == final(m).directory(),
        call_ensures(CertificateManager::load_own_certificate, (later,), loaded),
    ensures
        own ==> r == Ok::<bool, Error>(false),
        r == Ok::<bool, Error>(true) ==> (pair matches Ok(p) && (loaded matches Ok(q) && q.0@
            == p.0@ && q.1@ == p.1@)),
        r != Ok::<bool, Error>(true) ==> final(m).directory() == old(m).directory(),
        r is Err <==> !own && !is_device_id(id@),
{
    law_accepts_exactly_device_ids(id@);
    if r == Ok::<bool, Error>(true) {
        crate::protocol::store_laws::law_adopted_files_are_moved(
            old(m).directory(),
            id@,
            "own.crt"@,
        );
    }
}

/// The name on the own certificate is its common name.
pub proof fn law_own_name_is_read_from_the_certificate(
    m: &CertificateManager,
    r: Result<Option<String>, Error>,
)
    requires
        call_ensures(CertificateManager::own_certificate_cn, (m,), r),
    ensures
        r == Ok::<Option<String>, Error>(None) <==> !m.directory().files.contains_key("own.crt"@),
        r matches Ok(Some(name)) ==> (crate::protocol::pem::der_of_pem(
            m.directory().files["own.crt"@].contents,
        ) matches Ok(der) && (crate::outside::x509_of(der) matches Ok(cert) && cert.common_name
            == Some(name@))),
{
}

/// A fingerprint that was stored is loaded again, without the white space around
/// it, and what is stored of a peer's certificate is read back.
pub proof fn law_stored_fingerprints_are_loaded(
    m: &mut CertificateManager,
    id: &str,
    text: &str,
    stored: Result<(), Error>,
    later: &CertificateManager,
    loaded: Result<String, Error>,
)
    requires
        call_ensures(CertificateManager::store_peer_fingerprint, (m, id, text), stored),
        later.directory() == final(m).directory(),
        call_ensures(CertificateManager::load_peer_fingerprint, (later, id), loaded),
    ensures
        stored is Ok <==> is_device_id(id@),
        stored is Ok ==> (loaded matches Ok(t) && t@ == crate::text::trim(text@)),
{
    broadcast use vstd::utf8::group_utf8_lib;

    law_accepts_exactly_device_ids(id@);
    if stored is Ok {
        let contents = final(m).directory().files[id@ + "_fingerprint.txt"@].contents;
        assert(contents == vstd::utf8::encode_utf8(text@));
    }
}

/// The certificate that was stored of a peer is read back from its PEM file.
pub proof fn law_stored_peer_certificates_are_read_back(
    m: &mut CertificateManager,
    id: &str,
    der: &[u8],
    later: &CertificateManager,
    pem: Result<Vec<u8>, Error>,
    bytes: &[u8],
    read: Result<Vec<u8>, Error>,
    there: bool,
)
    requires
        call_ensures(
            CertificateManager::store_peer_certificate,
            (m, id, der),
            Ok::<(), Error>(()),
        ),
        later.directory() == final(m).directory(),
        call_ensures(CertificateManager::load_peer_certificate_pem, (later, id), pem),
        call_ensures(CertificateManager::has_peer_certificate, (later, id), there),
        pem matches Ok(p) ==> bytes@ == p@,
        call_ensures(pem_to_der, (bytes,), read),
    ensures
        there,
        pem is Ok,
        read matches Ok(v) && v@ == der@,
{
    law_accepts_exactly_device_ids(id@);
    reveal_strlit("_peer.crt");
    reveal_strlit("_fingerprint.txt");
    assert((id@ + "_peer.crt"@).len() != (id@ + "_fingerprint.txt"@).len());
}

/// The operations that are handed over are all that are outstanding, in order, and
/// none is left.
pub proof fn law_outstanding_operations_are_handed_over(
    m: &mut CertificateManager,
    ops: Vec<crate::protocol::cert_store::FileOp>,
    i: int,
)
    requires
        call_ensures(CertificateManager::take_pending, (m,), ops),
        0 <= i < ops@.len(),
    ensures
        ops@.len() == old(m).outstanding().len(),
        ops@[i]@ == old(m).outstanding()[i],
        final(m).outstanding().len() == 0,
        final(m).directory() == old(m).directory(),
{
    assert(crate::protocol::crypto::op_views(ops@)[i] == ops@[i]@);
}

/// A certificate is named, valid and fingerprinted by what it says and is.
pub proof fn law_certificates_are_read(
    der: &[u8],
    name: Result<String, Error>,
    print: String,
    cert: &crate::outside::ParsedCertificate,
    now: Moment,
    valid: bool,
    key: Result<Vec<u8>, Error>,
)
    requires
        call_ensures(crate::protocol::certificate::extract_cn_from_der, (der,), name),
        call_ensures(crate::protocol::certificate::fingerprint, (der,), print),
        call_ensures(crate::protocol::certificate::is_valid_at, (cert, now), valid),
        call_ensures(CertificateManager::extract_pubkey_der, (der,), key),
    ensures
        name matches Ok(n) ==> (crate::outside::x509_of(der@) matches Ok(c) && c.common_name
            == Some(n@)),
        name is Err ==> !(crate::outside::x509_of(der@) matches Ok(c) && c.common_name is Some),
        print@ == hex_text(sha256_of(der@), 'a'),
        valid <==> covers(cert@, now),
        key matches Ok(k) ==> (crate::outside::x509_of(der@) matches Ok(c) && c.public_key == k@),
        key is Err <==> crate::outside::x509_of(der@) is Err,
{
}

/// A certificate and a private key belong together if and only if both can be read
/// and the certificate holds the key's public half.
pub proof fn law_valid_pairs_belong_together(
    m: &CertificateManager,
    cert: &[u8],
    key: &[u8],
    r: Result<(), Error>,
)
    requires
        call_ensures(CertificateManager::validate_certificate, (m, cert, key), r),
    ensures
        ({
            let reads = crate::protocol::pem::der_of_pem(cert@) matches Ok(der)
                && crate::outside::x509_of(der) is Ok;
            let bits = crate::outside::x509_of(
                crate::protocol::pem::der_of_pem(cert@)->Ok_0,
            )->Ok_0.key_bits;
            let fits = crate::outside::private_key_public(key@) matches Ok(public) && (public
                == bits || crate::protocol::certificate::is_short_form(public, bits));
            r is Ok <==> reads && fits
        }),
{
}

/// The key that is shown is the first 4 bytes of a digest in upper-case
/// hexadecimal.
pub proof fn law_shown_keys_are_the_head_of_a_digest(digest: &[u8], r: String, k: int)
    requires
        call_ensures(crate::protocol::verification_key::key_of_digest, (digest,), r),
        digest@.len() >= 4,
        0 <= k < 4,
    ensures
        r@.len() == 8,
        r@[2 * k] == "0123456789ABCDEF"@[digest@[k] as int / 16],
        r@[2 * k + 1] == "0123456789ABCDEF"@[digest@[k] as int % 16],
{
    crate::text_laws::law_hex_digits_by_halves(digest@.take(4), k);
}

/// We present the own pair where there is one, and nothing as a client where there
/// is none.
pub proof fn law_clients_present_the_own_pair(
    certs: &CertificateManager,
    has_own: bool,
    own: Result<Option<crate::protocol::connection::tls::OwnIdentity>, Error>,
    loaded: Result<crate::protocol::connection::tls::OwnIdentity, Error>,
)
    requires
        call_ensures(CertificateManager::has_own_certificate, (certs,), has_own),
        call_ensures(crate::protocol::connection::tls::client_identity, (certs,), own),
        call_ensures(crate::protocol::connection::tls::load_own_identity, (certs,), loaded),
    ensures
        !has_own ==> own == Ok::<Option<crate::protocol::connection::tls::OwnIdentity>, Error>(None)
            && loaded is Err,
        has_own ==> (own is Ok <==> loaded is Ok),
        own matches Ok(Some(i)) ==> (loaded matches Ok(j) && crate::outside::byte_strings(i.certs@)
            == crate::outside::byte_strings(j.certs@) && i.key.der@ == j.key.der@ && i.certs@.len()
            > 0),
{
    if let Ok(Some(i)) = own {
        assert(crate::outside::byte_strings(i.certs@).len() == i.certs@.len());
    }
}

} // verus!
