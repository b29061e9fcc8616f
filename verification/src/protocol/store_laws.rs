//! What is stored in the certificate directory, file by file.

use vstd::prelude::*;
use vstd::utf8::{decode_utf8, encode_utf8, valid_utf8};

use crate::error::ErrorView;
use crate::outside::sha256_of;
use crate::protocol::cert_store::{DirView, FileView, OpView};
use crate::protocol::certificate::{common_name_of, fingerprint_of};
use crate::protocol::crypto::{
    adopt_ops, adoptable, cert_file, fingerprint_error, fingerprint_file, has_fingerprint,
    id_refusal, init_ops, initialized, is_known_peer, key_file, own_name, pair_at, path_in,
    peer_file, peer_refusal, peer_store_error, pem_file, remove_ops, store_fingerprint_ops,
    store_pair_ops, store_peer_ops, stored_fingerprint, with_adopted, with_pair, with_peer,
};
use crate::protocol::device_id::{is_device_id, law_accepts_exactly_device_ids};
use crate::protocol::pem::der_of_pem;
use crate::text::trim;

verus! {

/// A written file has the contents that were written, and is closed to others if
/// and only if it was, or was written as a secret. No other file changes.
pub proof fn law_writes_touch_one_file(
    d: DirView,
    name: Seq<char>,
    contents: Seq<u8>,
    other: Seq<char>,
)
    ensures
        ({
            let open_file = d.apply(OpView::Write { name, contents });
            let secret = d.apply(OpView::WriteSecret { name, contents });
            &&& open_file.files.contains_key(name) && open_file.files[name].contents == contents
            &&& open_file.files[name].owner_only <==> d.files.contains_key(name)
                && d.files[name].owner_only
            &&& secret.files.contains_key(name) && secret.files[name].contents == contents
            &&& secret.files[name].owner_only
            &&& other != name ==> open_file.files.contains_key(other) == d.files.contains_key(other)
                && open_file.files[other] == d.files[other]
            &&& other != name ==> secret.files.contains_key(other) == d.files.contains_key(other)
                && secret.files[other] == d.files[other]
            &&& open_file.present == d.present && open_file.owner_only == d.owner_only
            &&& secret.present == d.present && secret.owner_only == d.owner_only
        }),
{
}

/// A file that is closed to others keeps its contents; a file that is moved
/// keeps both and is no longer under its old name; a removed file is gone. No
/// other file changes.
pub proof fn law_other_operations_touch_their_files(
    d: DirView,
    name: Seq<char>,
    to: Seq<char>,
    other: Seq<char>,
)
    requires
        name != to,
    ensures
        ({
            let closed_file = d.apply(OpView::Restrict { name });
            let moved = d.apply(OpView::Rename { from: name, to });
            let removed = d.apply(OpView::Remove { name });
            &&& closed_file.files.contains_key(other) == d.files.contains_key(other)
            &&& closed_file.files.contains_key(other) ==> closed_file.files[other].contents
                == d.files[other].contents && (closed_file.files[other].owner_only
                <==> d.files[other].owner_only || other == name)
            &&& d.files.contains_key(name) ==> moved.files.contains_key(to) && moved.files[to]
                == d.files[name] && !moved.files.contains_key(name)
            &&& !d.files.contains_key(name) ==> moved == d
            &&& other != name && other != to ==> moved.files.contains_key(other)
                == d.files.contains_key(other) && moved.files[other] == d.files[other]
            &&& !removed.files.contains_key(name)
            &&& other != name ==> removed.files.contains_key(other) == d.files.contains_key(other)
                && removed.files[other] == d.files[other]
        }),
{
}

/// Making the directory makes it be there, closing it closes it to others, and
/// neither changes a file.
pub proof fn law_directory_operations_change_no_file(d: DirView)
    ensures
        d.apply(OpView::CreateDirectory).present,
        d.apply(OpView::CreateDirectory).owner_only == d.owner_only,
        d.apply(OpView::CreateDirectory).files == d.files,
        d.apply(OpView::RestrictDirectory).owner_only,
        d.apply(OpView::RestrictDirectory).present == d.present,
        d.apply(OpView::RestrictDirectory).files == d.files,
{
}

/// Operations are replayed one after the other, the oldest first.
pub proof fn law_operations_are_replayed_in_order(d: DirView, ops: Seq<OpView>, op: OpView)
    ensures
        d.replay(Seq::<OpView>::empty()) == d,
        d.replay(ops.push(op)) == d.replay(ops).apply(op),
{
    assert(ops.push(op).drop_last() =~= ops);
}

/// The files of a device are named by its id and an ending.
pub proof fn law_files_are_named_by_device(id: Seq<char>)
    ensures
        cert_file(id).take(id.len() as int) == id && cert_file(id).skip(id.len() as int)
            == ".crt"@,
        key_file(id).take(id.len() as int) == id && key_file(id).skip(id.len() as int) == ".key"@,
        peer_file(id).take(id.len() as int) == id && peer_file(id).skip(id.len() as int)
            == "_peer.crt"@,
        fingerprint_file(id).take(id.len() as int) == id && fingerprint_file(id).skip(
            id.len() as int,
        ) == "_fingerprint.txt"@,
{
    assert(cert_file(id).take(id.len() as int) =~= id);
    assert(cert_file(id).skip(id.len() as int) =~= ".crt"@);
    assert(key_file(id).take(id.len() as int) =~= id);
    assert(key_file(id).skip(id.len() as int) =~= ".key"@);
    assert(peer_file(id).take(id.len() as int) =~= id);
    assert(peer_file(id).skip(id.len() as int) =~= "_peer.crt"@);
    assert(fingerprint_file(id).take(id.len() as int) =~= id);
    assert(fingerprint_file(id).skip(id.len() as int) =~= "_fingerprint.txt"@);
}

/// A path is the directory, a slash where the directory is neither empty nor
/// ends with one, and the name.
pub proof fn law_paths_join_directory_and_name(dir: Seq<char>, name: Seq<char>)
    ensures
        dir.len() > 0 && dir.last() != '/' ==> path_in(dir, name) == dir + seq!['/'] + name,
        dir.len() == 0 ==> path_in(dir, name) == name,
        dir.len() > 0 && dir.last() == '/' ==> path_in(dir, name) == dir + name,
{
    reveal_strlit("/");
    assert("/"@ =~= seq!['/']);
    if dir.len() == 0 {
        assert(dir + name =~= name);
    }
}

/// A text is refused as a device id if and only if it is none, and the refusal
/// tells where.
pub proof fn law_only_device_ids_name_files(place: Seq<char>, id: Seq<char>)
    ensures
        id_refusal(place, id) is None <==> is_device_id(id),
        id_refusal(place, id) matches Some(e) ==> (e matches ErrorView::InvalidRequest(m) && (
        "Invalid device_id in "@ + place + ": "@).is_prefix_of(m)),
{
    law_accepts_exactly_device_ids(id);
    if let Some(e) = crate::protocol::device_id::device_id_error(id) {
        let head = "Invalid device_id in "@ + place + ": "@;
        assert(head.is_prefix_of(head + e.message()));
    }
}

/// The directory is made if and only if it is not there, and is closed to others
/// in any case, last; its files stay as they are.
pub proof fn law_directory_is_made_and_closed(d: DirView)
    ensures
        init_ops(d).last() == OpView::RestrictDirectory,
        init_ops(d).len() == (if d.present {
            1nat
        } else {
            2nat
        }),
        !d.present ==> init_ops(d)[0] == OpView::CreateDirectory,
        initialized(d).present,
        initialized(d).owner_only,
        initialized(d).files == d.files,
        d.replay(init_ops(d)) == initialized(d),
{
    reveal_with_fuel(DirView::replay, 3);
    if d.present {
        assert(init_ops(d).drop_last() =~= Seq::<OpView>::empty());
    } else {
        assert(init_ops(d).drop_last() =~= seq![OpView::CreateDirectory]);
        assert(init_ops(d).drop_last().drop_last() =~= Seq::<OpView>::empty());
    }
    assert(d.replay(init_ops(d)) =~= initialized(d));
}

/// A pair is stored certificate first. The key is only ever written as a secret:
/// a key file that is there is closed to others before it is written, and the
/// key's file is closed once more after it was.
pub proof fn law_keys_are_closed_before_and_after_writing(
    d: DirView,
    cert_name: Seq<char>,
    cert: Seq<u8>,
    key_name: Seq<char>,
    key: Seq<u8>,
)
    ensures
        ({
            let ops = store_pair_ops(d, cert_name, cert, key_name, key);
            let there = d.files.contains_key(key_name);
            &&& ops.len() == (if there {
                4nat
            } else {
                3nat
            })
            &&& ops[0] == (OpView::Write { name: cert_name, contents: cert })
            &&& there ==> ops[1] == (OpView::Restrict { name: key_name })
            &&& ops[ops.len() - 2] == (OpView::WriteSecret { name: key_name, contents: key })
            &&& ops[ops.len() - 1] == (OpView::Restrict { name: key_name })
        }),
{
}

/// A stored pair stands in its two files, the key's closed to others; no other
/// file changes, and the directory is there and closed to others.
pub proof fn law_stored_pairs_stand_in_their_files(
    d: DirView,
    cert_name: Seq<char>,
    cert: Seq<u8>,
    key_name: Seq<char>,
    key: Seq<u8>,
    other: Seq<char>,
)
    requires
        cert_name != key_name,
    ensures
        ({
            let after = with_pair(d, cert_name, cert, key_name, key);
            &&& after.files.contains_key(cert_name) && after.files[cert_name].contents == cert
            &&& after.files.contains_key(key_name) && after.files[key_name].contents == key
            &&& after.files[key_name].owner_only
            &&& other != cert_name && other != key_name ==> after.files.contains_key(other)
                == d.files.contains_key(other) && after.files[other] == d.files[other]
            &&& after.present && after.owner_only
        }),
{
}

/// There is a pair if and only if both files are there, and then it is what they
/// hold, the certificate first.
pub proof fn law_pairs_are_what_two_files_hold(
    d: DirView,
    cert_name: Seq<char>,
    key_name: Seq<char>,
    cert: Seq<u8>,
    key: Seq<u8>,
)
    ensures
        pair_at(d, cert_name, key_name) == Some((cert, key)) <==> d.files.contains_key(cert_name)
            && d.files.contains_key(key_name) && d.files[cert_name].contents == cert
            && d.files[key_name].contents == key,
{
}

/// A fingerprint is stored if and only if the peer has a device id and a file
/// for it; it is what the file says, without the white space around it, where
/// that is text.
pub proof fn law_fingerprints_are_read_from_their_file(
    d: DirView,
    cert_dir: Seq<char>,
    id: Seq<char>,
    text: Seq<char>,
)
    ensures
        ({
            let name = id + "_fingerprint.txt"@;
            let there = is_device_id(id) && d.files.contains_key(name);
            &&& has_fingerprint(d, id) <==> there
            &&& stored_fingerprint(d, cert_dir, id) == Ok::<Seq<char>, ErrorView>(text) <==> there
                && valid_utf8(d.files[name].contents) && text == trim(
                decode_utf8(d.files[name].contents),
            )
        }),
{
    law_accepts_exactly_device_ids(id);
}

/// A certificate matches the stored fingerprint if and only if that is the
/// digest of the certificate in lower-case hexadecimal; a peer's certificate is
/// refused if and only if a fingerprint is stored that it does not match.
pub proof fn law_certificates_match_by_digest(
    d: DirView,
    cert_dir: Seq<char>,
    id: Seq<char>,
    der: Seq<u8>,
)
    ensures
        ({
            let matching = stored_fingerprint(d, cert_dir, id) == Ok::<Seq<char>, ErrorView>(
                crate::outside::hex_text(sha256_of(der), 'a'),
            );
            &&& fingerprint_error(d, cert_dir, id, der) is None <==> matching
            &&& peer_refusal(d, cert_dir, id, der) is None <==> !has_fingerprint(d, id) || matching
            &&& peer_store_error(d, cert_dir, id, der) is None <==> is_device_id(id) && (
            !has_fingerprint(d, id) || matching)
            &&& stored_fingerprint(d, cert_dir, id) is Ok && !matching ==> (fingerprint_error(
                d,
                cert_dir,
                id,
                der,
            ) matches Some(e) && e is CertificateError)
        }),
{
    law_accepts_exactly_device_ids(id);
}

/// Two certificates with the same fingerprint are treated alike, whatever is
/// stored.
pub proof fn law_equal_fingerprints_are_treated_alike(
    d: DirView,
    cert_dir: Seq<char>,
    id: Seq<char>,
    a: Seq<u8>,
    b: Seq<u8>,
)
    requires
        fingerprint_of(a) == fingerprint_of(b),
    ensures
        peer_refusal(d, cert_dir, id, a) == peer_refusal(d, cert_dir, id, b),
{
}

/// An accepted peer's certificate stands in its own file, in PEM; its
/// fingerprint is stored if and only if none was, and an earlier one is kept. No
/// other file changes.
pub proof fn law_accepted_peers_are_stored(
    d: DirView,
    id: Seq<char>,
    der: Seq<u8>,
    other: Seq<char>,
)
    requires
        is_device_id(id),
    ensures
        ({
            let after = with_peer(d, id, der);
            let cert_name = id + "_peer.crt"@;
            let pin_name = id + "_fingerprint.txt"@;
            &&& after.present && after.owner_only
            &&& after.files.contains_key(cert_name) && after.files[cert_name].contents == pem_file(
                der,
            )
            &&& after.files.contains_key(pin_name)
            &&& d.files.contains_key(pin_name) ==> after.files[pin_name] == d.files[pin_name]
            &&& !d.files.contains_key(pin_name) ==> after.files[pin_name].contents == encode_utf8(
                fingerprint_of(der),
            )
            &&& other != cert_name && other != pin_name ==> after.files.contains_key(other)
                == d.files.contains_key(other) && after.files[other] == d.files[other]
        }),
{
    reveal_strlit("_peer.crt");
    reveal_strlit("_fingerprint.txt");
    assert(peer_file(id).len() != fingerprint_file(id).len());
}

/// The operations that store an accepted peer make and close the directory,
/// write the certificate, and on first use close the directory again and write
/// the fingerprint.
pub proof fn law_peers_are_stored_certificate_first(d: DirView, id: Seq<char>, der: Seq<u8>)
    ensures
        ({
            let ops = store_peer_ops(d, id, der);
            let n = init_ops(d).len() as int;
            let first_use = !has_fingerprint(d, id);
            &&& ops.take(n) == init_ops(d)
            &&& ops[n] == (OpView::Write { name: id + "_peer.crt"@, contents: pem_file(der) })
            &&& ops.len() == (if first_use {
                n + 3
            } else {
                n + 1
            })
            &&& first_use ==> ops[n + 1] == OpView::RestrictDirectory && ops[n + 2] == (
            OpView::Write {
                name: id + "_fingerprint.txt"@,
                contents: encode_utf8(fingerprint_of(der)),
            })
        }),
{
    assert(store_peer_ops(d, id, der).take(init_ops(d).len() as int) =~= init_ops(d));
}

/// A fingerprint is stored as the text that it is.
pub proof fn law_fingerprints_are_stored_as_text(d: DirView, id: Seq<char>, text: Seq<char>)
    ensures
        store_fingerprint_ops(d, id, text).drop_last() == init_ops(d),
        store_fingerprint_ops(d, id, text).last() == (OpView::Write {
            name: id + "_fingerprint.txt"@,
            contents: encode_utf8(text),
        }),
{
    assert(store_fingerprint_ops(d, id, text).drop_last() =~= init_ops(d));
}

/// Of two files those that are there are removed, in order, and nothing else.
pub proof fn law_files_are_removed_where_they_are(d: DirView, first: Seq<char>, second: Seq<char>)
    ensures
        ({
            let ops = remove_ops(d, first, second);
            let a = d.files.contains_key(first);
            let b = d.files.contains_key(second);
            &&& ops.len() == (if a {
                1int
            } else {
                0
            }) + (if b {
                1int
            } else {
                0
            })
            &&& a ==> ops[0] == (OpView::Remove { name: first })
            &&& b ==> ops.last() == (OpView::Remove { name: second })
        }),
{
}

/// A device's certificate is adopted if and only if there is no own pair, the
/// device has a pair, and the certificate bears its id.
pub proof fn law_certificates_are_adopted_by_name(d: DirView, id: Seq<char>)
    ensures
        ({
            let own = d.files.contains_key("own.crt"@) && d.files.contains_key("own.key"@);
            let there = d.files.contains_key(id + ".crt"@) && d.files.contains_key(id + ".key"@);
            let named = der_of_pem(d.files[id + ".crt"@].contents) matches Ok(der)
                && common_name_of(der) == Ok::<Seq<char>, ErrorView>(id);
            adoptable(d, id) <==> is_device_id(id) && !own && there && named
        }),
{
}

/// An adopted certificate and key are moved to the own files, certificate first,
/// and the key's file is closed to others. No other file changes.
pub proof fn law_adopted_files_are_moved(d: DirView, id: Seq<char>, other: Seq<char>)
    requires
        adoptable(d, id),
    ensures
        ({
            let after = with_adopted(d, id);
            let (cert, key) = (id + ".crt"@, id + ".key"@);
            &&& adopt_ops(id).len() == 3
            &&& adopt_ops(id)[0] == (OpView::Rename { from: cert, to: "own.crt"@ })
            &&& adopt_ops(id)[1] == (OpView::Rename { from: key, to: "own.key"@ })
            &&& adopt_ops(id)[2] == (OpView::Restrict { name: "own.key"@ })
            &&& after.files.contains_key("own.crt"@) && after.files["own.crt"@]
                == d.files[cert]
            &&& after.files.contains_key("own.key"@) && after.files["own.key"@] == (FileView {
                contents: d.files[key].contents,
                owner_only: true,
            })
            &&& !after.files.contains_key(cert) && !after.files.contains_key(key)
            &&& other != cert && other != key && other != "own.crt"@ && other != "own.key"@
                ==> after.files.contains_key(other) == d.files.contains_key(other)
                && after.files[other] == d.files[other]
        }),
{
    crate::protocol::trust_laws::law_own_files_are_no_device_files(id);
    assert(crate::protocol::trust_laws::is_file_of(id, cert_file(id)));
    assert(crate::protocol::trust_laws::is_file_of(id, key_file(id)));
    reveal_strlit("own.crt");
    reveal_strlit("own.key");
    reveal_strlit(".crt");
    reveal_strlit(".key");
    assert("own.crt"@[4] != "own.key"@[4]);
    assert(cert_file(id)[id.len() as int + 1] != key_file(id)[id.len() as int + 1]);
}

/// The name on the own certificate is its common name; there is none where there
/// is no own certificate.
pub proof fn law_own_name_is_the_common_name(d: DirView, name: Seq<char>)
    ensures
        own_name(d) == Ok::<Option<Seq<char>>, ErrorView>(None) <==> !d.files.contains_key(
            "own.crt"@,
        ),
        own_name(d) == Ok::<Option<Seq<char>>, ErrorView>(Some(name)) <==> d.files.contains_key(
            "own.crt"@,
        ) && (der_of_pem(d.files["own.crt"@].contents) matches Ok(der) && common_name_of(der)
            == Ok::<Seq<char>, ErrorView>(name)),
{
}

/// A peer is known if and only if the directory is there and holds its
/// certificate.
pub proof fn law_known_peers_have_a_certificate(d: DirView, id: Seq<char>)
    ensures
        is_known_peer(d, id) <==> d.present && d.files.contains_key(id + "_peer.crt"@),
{
}

} // verus!
