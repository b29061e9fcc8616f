//! What holds of the certificate directory across operations: stored pairs come
//! back, keys stay their owner's, and peers are trusted on first use.

use vstd::prelude::*;
use vstd::utf8::encode_utf8;

use crate::outside::{hex_digit, hex_text, sha256_of};
use crate::protocol::cert_store::DirView;
use crate::protocol::certificate::fingerprint_of;
use crate::protocol::crypto::{
    adoptable, cert_file, fingerprint_file, has_fingerprint, initialized,
    is_known_peer, key_file, pair_at, peer_file, peer_refusal, peer_store_error,
    stored_fingerprint, with_adopted, with_pair, with_peer, OWN_CERT, OWN_KEY,
};
use crate::protocol::device_id::{is_device_id, law_accepts_exactly_device_ids};
use crate::text::{is_white_space, trim, trim_end, trim_start};

verus! {

/// The endings of the four kinds of file names.
proof fn lemma_endings()
    ensures
        ".crt"@.len() == 4,
        ".key"@.len() == 4,
        "_peer.crt"@.len() == 9,
        "_fingerprint.txt"@.len() == 16,
        OWN_CERT@.len() == 7,
        OWN_KEY@.len() == 7,
        forall|id: Seq<char>| (#[trigger] cert_file(id)).last() == 't',
        forall|id: Seq<char>| (#[trigger] key_file(id)).last() == 'y',
        forall|id: Seq<char>| (#[trigger] peer_file(id))[id.len() as int + 7] == 'r',
        forall|id: Seq<char>| (#[trigger] fingerprint_file(id))[id.len() as int + 14] == 'x',
{
    reveal_strlit(".crt");
    reveal_strlit(".key");
    reveal_strlit("_peer.crt");
    reveal_strlit("_fingerprint.txt");
    reveal_strlit("own.crt");
    reveal_strlit("own.key");
}

/// Whether `name` is one of the files that a device or peer can have.
pub open spec fn is_file_of(id: Seq<char>, name: Seq<char>) -> bool {
    name == cert_file(id) || name == key_file(id) || name == peer_file(id) || name
        == fingerprint_file(id)
}

/// No device, whatever its id, has a file that bears the name of the own
/// certificate or the own key.
pub proof fn law_own_files_are_no_device_files(id: Seq<char>)
    requires
        is_device_id(id),
    ensures
        forall|name: Seq<char>| #[trigger]
            is_file_of(id, name) ==> name != OWN_CERT@ && name != OWN_KEY@,
{
    lemma_endings();
}

/// A certificate and key that were stored for a device are loaded again, and
/// the key's file is its owner's alone, whatever was there before.
pub proof fn law_stored_pair_comes_back(d: DirView, id: Seq<char>, cert: Seq<u8>, key: Seq<u8>)
    ensures
        ({
            let after = with_pair(d, cert_file(id), cert, key_file(id), key);
            &&& pair_at(after, cert_file(id), key_file(id)) == Some((cert, key))
            &&& after.files[key_file(id)].owner_only
            &&& after.present && after.owner_only
        }),
{
    lemma_endings();
}

/// An own certificate and key that were stored are loaded again, and the key's
/// file is its owner's alone.
pub proof fn law_stored_own_pair_comes_back(d: DirView, cert: Seq<u8>, key: Seq<u8>)
    ensures
        ({
            let after = with_pair(d, OWN_CERT@, cert, OWN_KEY@, key);
            &&& pair_at(after, OWN_CERT@, OWN_KEY@) == Some((cert, key))
            &&& after.files[OWN_KEY@].owner_only
            &&& after.present && after.owner_only
        }),
{
    lemma_endings();
    reveal_strlit("own.crt");
    reveal_strlit("own.key");
    assert(OWN_CERT@[4] != OWN_KEY@[4]);
}

/// A new own certificate leaves what is stored of peers and devices as it is.
pub proof fn law_own_pair_disturbs_no_device(d: DirView, id: Seq<char>, cert: Seq<u8>, key: Seq<u8>)
    requires
        is_device_id(id),
    ensures
        forall|name: Seq<char>| #[trigger]
            is_file_of(id, name) ==> {
                let after = with_pair(d, OWN_CERT@, cert, OWN_KEY@, key).files;
                &&& after.contains_key(name) == d.files.contains_key(name)
                &&& after[name] == d.files[name]
            },
{
    law_own_files_are_no_device_files(id);
}

/// After a device's certificate and key were deleted they are gone.
pub proof fn law_deleted_pair_is_gone(d: DirView, id: Seq<char>)
    ensures
        pair_at(
            d.without(cert_file(id)).without(key_file(id)),
            cert_file(id),
            key_file(id),
        ) is None,
{
}

/// An adopted certificate is the own one from then on, its key is its owner's
/// alone, and nothing is left under the device's name.
pub proof fn law_adopted_pair_is_own(d: DirView, id: Seq<char>)
    requires
        adoptable(d, id),
    ensures
        ({
            let after = with_adopted(d, id);
            &&& pair_at(after, OWN_CERT@, OWN_KEY@) == pair_at(d, cert_file(id), key_file(id))
            &&& pair_at(after, cert_file(id), key_file(id)) is None
            &&& after.files[OWN_KEY@].owner_only
            &&& !adoptable(after, id)
        }),
{
    lemma_endings();
    law_own_files_are_no_device_files(id);
    reveal_strlit("own.crt");
    reveal_strlit("own.key");
    assert(OWN_CERT@[4] != OWN_KEY@[4]);
    assert(cert_file(id).last() != key_file(id).last());
}

/// The digits of a fingerprint are no white space.
proof fn lemma_fingerprint_is_trim(der: Seq<u8>)
    ensures
        trim(fingerprint_of(der)) == fingerprint_of(der),
{
    let bytes = sha256_of(der);
    let text = hex_text(bytes, 'a');
    assert forall|i: int| 0 <= i < text.len() implies !is_white_space(#[trigger] text[i]) by {
        let b = bytes[i / 2] as int;
        assert(0 <= b / 16 < 16 && 0 <= b % 16 < 16);
        let d = if i % 2 == 0 { b / 16 } else { b % 16 };
        assert(text[i] == hex_digit(d, 'a'));
    }
    assert(trim_start(text) == text);
    assert(trim_end(text) == text);
}

/// The first certificate of a peer is accepted, whatever it is, and from then
/// on exactly the certificates with its fingerprint are: the same one is
/// accepted again, and one with another fingerprint is refused.
pub proof fn law_trust_on_first_use(
    d: DirView,
    cert_dir: Seq<char>,
    id: Seq<char>,
    first: Seq<u8>,
    later: Seq<u8>,
)
    requires
        is_device_id(id),
        !has_fingerprint(d, id),
    ensures
        peer_store_error(d, cert_dir, id, first) is None,
        ({
            let after = with_peer(d, id, first);
            &&& has_fingerprint(after, id)
            &&& stored_fingerprint(after, cert_dir, id) == Ok::<
                Seq<char>,
                crate::error::ErrorView,
            >(fingerprint_of(first))
            &&& (peer_store_error(after, cert_dir, id, later) is None <==> fingerprint_of(later)
                == fingerprint_of(first))
            &&& peer_refusal(after, cert_dir, id, later) == peer_store_error(
                after,
                cert_dir,
                id,
                later,
            )
        }),
{
    broadcast use vstd::utf8::group_utf8_lib;

    law_accepts_exactly_device_ids(id);
    lemma_endings();
    lemma_fingerprint_is_trim(first);
    let after = with_peer(d, id, first);
    assert(after.files[fingerprint_file(id)].contents == encode_utf8(fingerprint_of(first)));
}

/// A certificate that was accepted later keeps the peer's fingerprint as it
/// was.
pub proof fn law_pin_is_kept(d: DirView, cert_dir: Seq<char>, id: Seq<char>, der: Seq<u8>)
    requires
        has_fingerprint(d, id),
        peer_store_error(d, cert_dir, id, der) is None,
    ensures
        stored_fingerprint(with_peer(d, id, der), cert_dir, id) == stored_fingerprint(
            d,
            cert_dir,
            id,
        ),
{
    lemma_endings();
    assert(peer_file(id) != fingerprint_file(id)) by {
        if peer_file(id) == fingerprint_file(id) {
            assert(peer_file(id).len() == fingerprint_file(id).len());
        }
    }
}

/// A refused certificate leaves every stored file as it was.
pub proof fn law_refused_certificate_changes_no_file(d: DirView)
    ensures
        initialized(d).files == d.files,
{
}

/// What is stored for one peer does not change what is known of another.
pub proof fn law_peers_are_independent(
    d: DirView,
    cert_dir: Seq<char>,
    stored: Seq<char>,
    der: Seq<u8>,
    other: Seq<char>,
)
    requires
        stored != other,
    ensures
        has_fingerprint(with_peer(d, stored, der), other) == has_fingerprint(d, other),
        stored_fingerprint(with_peer(d, stored, der), cert_dir, other) == stored_fingerprint(
            d,
            cert_dir,
            other,
        ),
{
    lemma_endings();
    let (p, f) = (peer_file(stored), fingerprint_file(other));
    assert(p != f) by {
        if p == f {
            assert(stored.len() + 9 == other.len() + 16);
            assert(p[stored.len() as int + 7] == f[other.len() as int + 14]);
        }
    }
    assert(fingerprint_file(stored) != f) by {
        if fingerprint_file(stored) == f {
            assert(stored =~= fingerprint_file(stored).take(stored.len() as int));
            assert(other =~= f.take(other.len() as int));
        }
    }
}

/// After a peer was deleted it is unknown, and its next certificate counts as
/// the first.
pub proof fn law_deleted_peer_is_unknown(
    d: DirView,
    cert_dir: Seq<char>,
    id: Seq<char>,
    der: Seq<u8>,
)
    requires
        is_device_id(id),
    ensures
        ({
            let after = d.without(peer_file(id)).without(fingerprint_file(id));
            &&& !is_known_peer(after, id)
            &&& !has_fingerprint(after, id)
            &&& peer_store_error(after, cert_dir, id, der) is None
        }),
{
    law_accepts_exactly_device_ids(id);
}

} // verus!
