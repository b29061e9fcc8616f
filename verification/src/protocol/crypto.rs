//! Certificate management for TLS connections.
//!
//! The manager decides on an image of the certificate directory and lists the
//! file operations that carry its decisions out. Peer certificates are trusted
//! on first use: the first one's fingerprint is kept, and later ones must match
//! it.

use vstd::prelude::*;
use vstd::string::*;
use vstd::utf8::{decode_utf8, encode_utf8, valid_utf8};

use crate::error::{text_of, Error, ErrorView};
use crate::outside::{base64_text, in_calendar, utc_now, utf8_text, CertificateView, Moment};
use crate::protocol::cert_store::{DirView, Directory, FileOp, OpView};
use crate::protocol::certificate::{
    certificate_of, common_name_of, covers, extract_cn_from_der, fingerprint, fingerprint_of,
    found_text, generate, generated_pair, is_generated, is_valid_at, pair_error, parse_x509_der,
    validate_pair,
};
use crate::protocol::device_id::{
    device_id_error, is_device_id, law_accepts_exactly_device_ids, validate_device_id,
};
use crate::protocol::pem::{der_of_pem, der_to_pem, pem_text, pem_to_der};
use crate::protocol::verification_key;
use crate::table::{lists_keys, texts};
use crate::text::{join2, join3, join4, same_text, suffix_stripped, trim, trimmed};

verus! {

/// The own certificate's file.
pub const OWN_CERT: &'static str = "own.crt";

/// The own private key's file.
pub const OWN_KEY: &'static str = "own.key";

/// The file of a device's certificate.
pub open spec fn cert_file(id: Seq<char>) -> Seq<char> {
    id + ".crt"@
}

/// The file of a device's private key.
pub open spec fn key_file(id: Seq<char>) -> Seq<char> {
    id + ".key"@
}

/// The file of a peer's certificate.
pub open spec fn peer_file(id: Seq<char>) -> Seq<char> {
    id + "_peer.crt"@
}

/// The file of a peer's fingerprint.
pub open spec fn fingerprint_file(id: Seq<char>) -> Seq<char> {
    id + "_fingerprint.txt"@
}

/// A file's path in a directory.
pub open spec fn path_in(dir: Seq<char>, name: Seq<char>) -> Seq<char> {
    if dir.len() == 0 || dir.last() == '/' {
        dir + name
    } else {
        dir + "/"@ + name
    }
}

/// What `place` says of a text that is no device id.
pub open spec fn id_refusal(place: Seq<char>, id: Seq<char>) -> Option<ErrorView> {
    match device_id_error(id) {
        Some(e) => Some(
            ErrorView::InvalidRequest("Invalid device_id in "@ + place + ": "@ + e.message()),
        ),
        None => None,
    }
}

/// A file that is not there, by its path.
pub open spec fn missing(resource: Seq<char>, id: Seq<char>) -> ErrorView {
    ErrorView::NotFound { resource, id: Some(id) }
}

/// What opening a file that is not there says.
pub open spec fn no_such_file() -> Seq<char> {
    "No such file or directory (os error 2)"@
}

/// The operations of `init`.
pub open spec fn init_ops(d: DirView) -> Seq<OpView> {
    if d.present {
        seq![OpView::RestrictDirectory]
    } else {
        seq![OpView::CreateDirectory, OpView::RestrictDirectory]
    }
}

/// The directory after `init`: there, and its owner's alone.
pub open spec fn initialized(d: DirView) -> DirView {
    DirView { present: true, owner_only: true, ..d }
}

/// The operations that store a certificate and its key in two files.
pub open spec fn store_pair_ops(
    d: DirView,
    cert_name: Seq<char>,
    cert: Seq<u8>,
    key_name: Seq<char>,
    key: Seq<u8>,
) -> Seq<OpView> {
    let write = seq![OpView::Write { name: cert_name, contents: cert }];
    let tighten = if d.files.contains_key(key_name) {
        seq![OpView::Restrict { name: key_name }]
    } else {
        seq![]
    };
    write + tighten + seq![
        OpView::WriteSecret { name: key_name, contents: key },
        OpView::Restrict { name: key_name },
    ]
}

/// The directory with a certificate and its key in two files.
pub open spec fn with_pair(
    d: DirView,
    cert_name: Seq<char>,
    cert: Seq<u8>,
    key_name: Seq<char>,
    key: Seq<u8>,
) -> DirView {
    initialized(d).with_file(cert_name, cert).with_secret(key_name, key)
}

/// The certificate and key in two files of the directory.
pub open spec fn pair_at(d: DirView, cert_name: Seq<char>, key_name: Seq<char>) -> Option<
    (Seq<u8>, Seq<u8>),
> {
    if d.files.contains_key(cert_name) && d.files.contains_key(key_name) {
        Some((d.files[cert_name].contents, d.files[key_name].contents))
    } else {
        None
    }
}

/// Whether the directory holds an own certificate that is valid at `now`.
pub open spec fn own_is_valid(d: DirView, now: Moment) -> bool {
    &&& d.files.contains_key(OWN_CERT@)
    &&& der_of_pem(d.files[OWN_CERT@].contents) matches Ok(der) && certificate_of(
        der,
    ) matches Ok(cert) && covers(cert, now)
}

/// The fingerprint that is stored for a peer.
pub open spec fn stored_fingerprint(d: DirView, cert_dir: Seq<char>, id: Seq<char>) -> Result<
    Seq<char>,
    ErrorView,
> {
    match id_refusal("fingerprint_path"@, id) {
        Some(e) => Err(e),
        None => {
            let name = fingerprint_file(id);
            if !d.files.contains_key(name) {
                Err(missing("No stored fingerprint for device"@, id))
            } else if !valid_utf8(d.files[name].contents) {
                Err(
                    ErrorView::Io {
                        message:
                            "Failed to read peer fingerprint: stream did not contain valid UTF-8"@,
                        path: Some(path_in(cert_dir, name)),
                    },
                )
            } else {
                Ok(trim(decode_utf8(d.files[name].contents)))
            }
        },
    }
}

/// Whether a fingerprint is stored for a peer.
pub open spec fn has_fingerprint(d: DirView, id: Seq<char>) -> bool {
    is_device_id(id) && d.files.contains_key(fingerprint_file(id))
}

/// Why a certificate does not match the stored fingerprint, if it does not.
pub open spec fn fingerprint_error(
    d: DirView,
    cert_dir: Seq<char>,
    id: Seq<char>,
    der: Seq<u8>,
) -> Option<ErrorView> {
    match stored_fingerprint(d, cert_dir, id) {
        Err(e) => Some(e),
        Ok(stored) => if stored == fingerprint_of(der) {
            None
        } else {
            Some(
                ErrorView::CertificateError(
                    "Certificate fingerprint mismatch for device "@ + id + ": expected "@ + (stored
                        + ", got "@ + fingerprint_of(der)),
                ),
            )
        },
    }
}

/// Why a peer's certificate is refused, if it is: a stored fingerprint pins it,
/// and no stored fingerprint accepts it.
pub open spec fn peer_refusal(
    d: DirView,
    cert_dir: Seq<char>,
    id: Seq<char>,
    der: Seq<u8>,
) -> Option<ErrorView> {
    if has_fingerprint(d, id) {
        fingerprint_error(d, cert_dir, id, der)
    } else {
        None
    }
}

/// The PEM file of a certificate.
pub open spec fn pem_file(der: Seq<u8>) -> Seq<u8> {
    encode_utf8(pem_text(base64_text(der)))
}

/// The directory after a peer's certificate was accepted: the certificate is
/// stored, and on first use its fingerprint too.
pub open spec fn with_peer(d: DirView, id: Seq<char>, der: Seq<u8>) -> DirView {
    let stored = initialized(d).with_file(peer_file(id), pem_file(der));
    if has_fingerprint(d, id) {
        stored
    } else {
        stored.with_file(fingerprint_file(id), encode_utf8(fingerprint_of(der)))
    }
}

/// The operations that store an accepted peer's certificate.
pub open spec fn store_peer_ops(d: DirView, id: Seq<char>, der: Seq<u8>) -> Seq<OpView> {
    let write = init_ops(d).push(OpView::Write { name: peer_file(id), contents: pem_file(der) });
    if has_fingerprint(d, id) {
        write
    } else {
        write.push(OpView::RestrictDirectory).push(
            OpView::Write {
                name: fingerprint_file(id),
                contents: encode_utf8(fingerprint_of(der)),
            },
        )
    }
}

/// The operations that remove two files, where they are there.
pub open spec fn remove_ops(d: DirView, first: Seq<char>, second: Seq<char>) -> Seq<OpView> {
    (if d.files.contains_key(first) {
        seq![OpView::Remove { name: first }]
    } else {
        seq![]
    }) + (if d.files.contains_key(second) {
        seq![OpView::Remove { name: second }]
    } else {
        seq![]
    })
}

/// Manages the certificates of the daemon and its peers.
///
/// It does not make TLS connections, nor does it exchange certificates.
pub struct CertificateManager {
    cert_dir: String,
    dir: Directory,
    pending: Vec<FileOp>,
}

/// The operations of a list, by their contents.
pub open spec fn op_views(ops: Seq<FileOp>) -> Seq<OpView> {
    ops.map_values(|op: FileOp| op@)
}

impl CertificateManager {
    /// The path of the certificate directory.
    pub closed spec fn location(&self) -> Seq<char> {
        self.cert_dir@
    }

    /// The certificate directory.
    pub closed spec fn directory(&self) -> DirView {
        self.dir@
    }

    /// The operations that the disk has yet to see.
    pub closed spec fn outstanding(&self) -> Seq<OpView> {
        op_views(self.pending@)
    }

    /// Nothing changed but for the operations `ops`, which lead to `after`.
    pub open spec fn did(&self, before: &Self, ops: Seq<OpView>, after: DirView) -> bool {
        &&& self.location() == before.location()
        &&& self.outstanding() == before.outstanding() + ops
        &&& self.directory() == after
        &&& before.directory().replay(ops) == after
    }

    /// Nothing changed.
    pub open spec fn unchanged(&self, before: &Self) -> bool {
        &&& self.location() == before.location()
        &&& self.outstanding() == before.outstanding()
        &&& self.directory() == before.directory()
    }

    /// A manager of the directory at `cert_dir`, which is taken to be missing
    /// until its image is loaded.
    pub fn new(cert_dir: String) -> (r: Self)
        ensures
            r.location() == cert_dir@,
            r.directory() == (DirView { present: false, owner_only: false, files: Map::empty() }),
            r.outstanding() == Seq::<OpView>::empty(),
    {
        let r = CertificateManager { cert_dir, dir: Directory::absent(), pending: Vec::new() };
        assert(r.outstanding() =~= Seq::<OpView>::empty());
        r
    }

    /// Replaces the image of the directory by what was found on the disk.
    pub fn load(&mut self, dir: Directory)
        ensures
            final(self).location() == old(self).location(),
            final(self).outstanding() == old(self).outstanding(),
            final(self).directory() == dir@,
    {
        self.dir = dir;
    }

    /// Hands over the operations that the disk has yet to see, oldest first.
    pub fn take_pending(&mut self) -> (r: Vec<FileOp>)
        ensures
            op_views(r@) == old(self).outstanding(),
            final(self).outstanding() == Seq::<OpView>::empty(),
            final(self).location() == old(self).location(),
            final(self).directory() == old(self).directory(),
    {
        let mut out: Vec<FileOp> = Vec::new();
        std::mem::swap(&mut out, &mut self.pending);
        assert(self.outstanding() =~= Seq::<OpView>::empty());
        out
    }

    /// Carries out one operation on the image and notes it for the disk.
    fn perform(&mut self, op: FileOp)
        ensures
            final(self).did(
                old(self),
                seq![op@],
                old(self).directory().apply(op@),
            ),
    {
        self.dir.apply(&op);
        self.pending.push(op);
        proof {
            let d = old(self).directory();
            assert(seq![op@].drop_last() =~= Seq::<OpView>::empty());
            reveal_with_fuel(DirView::replay, 2);
            assert(self.outstanding() =~= old(self).outstanding() + seq![op@]);
        }
    }

    /// Create the certificate directory if it is not there, and close it to
    /// everyone but its owner, each time: it holds private keys.
    pub fn init(&mut self) -> (r: Result<(), Error>)
        ensures
            r is Ok,
            final(self).did(
                old(self),
                init_ops(old(self).directory()),
                initialized(old(self).directory()),
            ),
    {
        let ghost d = self.directory();
        if !self.dir.present {
            self.perform(FileOp::CreateDirectory);
        }
        self.perform(FileOp::RestrictDirectory);
        proof {
            lemma_replay_init(d);
            assert(self.outstanding() =~= old(self).outstanding() + init_ops(d));
            assert(self.directory() =~= initialized(d));
        }
        Ok(())
    }
}

proof fn lemma_replay_init(d: DirView)
    ensures
        d.replay(init_ops(d)) == initialized(d),
{
    reveal_with_fuel(DirView::replay, 3);
    assert(seq![OpView::CreateDirectory, OpView::RestrictDirectory].drop_last()
        =~= seq![OpView::CreateDirectory]);
    assert(seq![OpView::RestrictDirectory].drop_last() =~= Seq::<OpView>::empty());
    assert(seq![OpView::CreateDirectory].drop_last() =~= Seq::<OpView>::empty());
    assert(d.replay(init_ops(d)) =~= initialized(d));
}

/// Replaying two sequences is replaying one after the other.
pub proof fn lemma_replay_append(d: DirView, first: Seq<OpView>, second: Seq<OpView>)
    ensures
        d.replay(first + second) == d.replay(first).replay(second),
    decreases second.len(),
{
    if second.len() == 0 {
        assert(first + second =~= first);
    } else {
        lemma_replay_append(d, first, second.drop_last());
        assert((first + second).drop_last() =~= first + second.drop_last());
        assert((first + second).last() == second.last());
    }
}

/// One step after another is both steps.
proof fn lemma_did_then(
    before: &CertificateManager,
    between: &CertificateManager,
    after: &CertificateManager,
    first: Seq<OpView>,
    second: Seq<OpView>,
)
    requires
        between.did(before, first, between.directory()),
        after.did(between, second, after.directory()),
    ensures
        after.did(before, first + second, after.directory()),
{
    lemma_replay_append(before.directory(), first, second);
    assert(after.outstanding() =~= before.outstanding() + (first + second));
}

/// Doing nothing is a step.
proof fn lemma_did_nothing(before: &CertificateManager, after: &CertificateManager)
    requires
        after.unchanged(before),
    ensures
        after.did(before, Seq::empty(), before.directory()),
{
    assert(after.outstanding() =~= before.outstanding() + Seq::<OpView>::empty());
}

/// The file names of a certificate and its key differ.
proof fn lemma_pair_names(id: Seq<char>)
    ensures
        cert_file(id) != key_file(id),
        peer_file(id) != fingerprint_file(id),
        OWN_CERT@ != OWN_KEY@,
{
    reveal_strlit(".crt");
    reveal_strlit(".key");
    reveal_strlit("_peer.crt");
    reveal_strlit("_fingerprint.txt");
    reveal_strlit("own.crt");
    reveal_strlit("own.key");
    assert(cert_file(id).last() == 't');
    assert(key_file(id).last() == 'y');
    assert(peer_file(id)[id.len() as int + 1] == 'p');
    assert(fingerprint_file(id)[id.len() as int + 1] == 'f');
    assert(OWN_CERT@[4] == 'c');
    assert(OWN_KEY@[4] == 'k');
}

impl CertificateManager {
    /// The path of the file `name`.
    fn path_of(&self, name: &str) -> (r: String)
        ensures
            r@ == path_in(self.location(), name@),
    {
        let n = self.cert_dir.as_str().unicode_len();
        if n == 0 || self.cert_dir.as_str().get_char(n - 1) == '/' {
            join2(self.cert_dir.as_str(), name)
        } else {
            join3(self.cert_dir.as_str(), "/", name)
        }
    }

    /// The name of a device's file, where the device id is one.
    fn file_of(&self, place: &str, device_id: &str, suffix: &str) -> (r: Result<String, Error>)
        ensures
            match r {
                Ok(name) => id_refusal(place@, device_id@) is None && is_device_id(device_id@)
                    && name@ == device_id@ + suffix@,
                Err(e) => id_refusal(place@, device_id@) == Some(e@) && !is_device_id(device_id@),
            },
    {
        match validate_device_id(device_id) {
            Ok(_) => Ok(join2(device_id, suffix)),
            Err(e) => {
                let message = e.message();
                let mut text = join3("Invalid device_id in ", place, ": ");
                text.append(message.as_str());
                Err(Error::InvalidRequest(text))
            },
        }
    }

    /// A device's path, where the device id is one.
    fn checked_path(&self, place: &str, device_id: &str, suffix: &str) -> (r: Result<String, Error>)
        ensures
            found_text(r) == match id_refusal(place@, device_id@) {
                Some(e) => Err::<Seq<char>, ErrorView>(e),
                None => Ok(path_in(self.location(), device_id@ + suffix@)),
            },
    {
        match self.file_of(place, device_id, suffix) {
            Ok(name) => Ok(self.path_of(name.as_str())),
            Err(e) => Err(e),
        }
    }

    /// The path of a device's certificate.
    pub fn cert_path(&self, device_id: &str) -> (r: Result<String, Error>)
        ensures
            found_text(r) == match id_refusal("cert_path"@, device_id@) {
                Some(e) => Err::<Seq<char>, ErrorView>(e),
                None => Ok(path_in(self.location(), cert_file(device_id@))),
            },
    {
        self.checked_path("cert_path", device_id, ".crt")
    }

    /// The path of a device's private key.
    pub fn key_path(&self, device_id: &str) -> (r: Result<String, Error>)
        ensures
            found_text(r) == match id_refusal("key_path"@, device_id@) {
                Some(e) => Err::<Seq<char>, ErrorView>(e),
                None => Ok(path_in(self.location(), key_file(device_id@))),
            },
    {
        self.checked_path("key_path", device_id, ".key")
    }

    /// The path of a peer's certificate.
    pub fn peer_cert_path(&self, device_id: &str) -> (r: Result<String, Error>)
        ensures
            found_text(r) == match id_refusal("peer_cert_path"@, device_id@) {
                Some(e) => Err::<Seq<char>, ErrorView>(e),
                None => Ok(path_in(self.location(), peer_file(device_id@))),
            },
    {
        self.checked_path("peer_cert_path", device_id, "_peer.crt")
    }

    /// The path of a peer's fingerprint.
    pub fn fingerprint_path(&self, device_id: &str) -> (r: Result<String, Error>)
        ensures
            found_text(r) == match id_refusal("fingerprint_path"@, device_id@) {
                Some(e) => Err::<Seq<char>, ErrorView>(e),
                None => Ok(path_in(self.location(), fingerprint_file(device_id@))),
            },
    {
        self.checked_path("fingerprint_path", device_id, "_fingerprint.txt")
    }

    /// The path of the own certificate. It is fixed, so that no device id can
    /// take its place.
    pub fn own_cert_path(&self) -> (r: String)
        ensures
            r@ == path_in(self.location(), OWN_CERT@),
    {
        self.path_of(OWN_CERT)
    }

    /// The path of the own private key.
    pub fn own_key_path(&self) -> (r: String)
        ensures
            r@ == path_in(self.location(), OWN_KEY@),
    {
        self.path_of(OWN_KEY)
    }

    /// Generate a self-signed certificate and its private key, both in PEM.
    pub fn generate_certificate(&self, device_id: &str, _device_name: &str) -> (r: Result<
        (Vec<u8>, Vec<u8>),
        Error,
    >)
        ensures
            is_generated(device_id@, generated_pair(r)),
    {
        generate(device_id)
    }

    /// Stores a certificate and its key in two files; the key's is its owner's
    /// alone before the key reaches it.
    fn store_pair(&mut self, cert_name: String, cert: &[u8], key_name: String, key: &[u8])
        requires
            cert_name@ != key_name@,
        ensures
            final(self).did(
                old(self),
                store_pair_ops(old(self).directory(), cert_name@, cert@, key_name@, key@),
                old(self).directory().with_file(cert_name@, cert@).with_secret(key_name@, key@),
            ),
    {
        let ghost m0 = *self;
        let ghost d = self.directory();
        let ghost write = OpView::Write { name: cert_name@, contents: cert@ };
        let ghost tighten = OpView::Restrict { name: key_name@ };
        let ghost secret = OpView::WriteSecret { name: key_name@, contents: key@ };
        self.perform(
            FileOp::Write {
                name: cert_name.clone(),
                contents: vstd::slice::slice_to_vec(cert),
            },
        );
        let ghost m1 = *self;
        let ghost done = seq![write];
        if self.dir.has(key_name.as_str()) {
            self.perform(FileOp::Restrict { name: key_name.clone() });
            proof {
                lemma_did_then(&m0, &m1, self, done, seq![tighten]);
            }
        } else {
            proof {
                lemma_did_nothing(&m1, self);
                lemma_did_then(&m0, &m1, self, done, Seq::empty());
            }
        }
        let ghost m2 = *self;
        let ghost done2 = if d.files.contains_key(key_name@) {
            seq![write] + seq![tighten]
        } else {
            seq![write] + Seq::empty()
        };
        self.perform(
            FileOp::WriteSecret {
                name: key_name.clone(),
                contents: vstd::slice::slice_to_vec(key),
            },
        );
        proof {
            lemma_did_then(&m0, &m2, self, done2, seq![secret]);
        }
        let ghost m3 = *self;
        self.perform(FileOp::Restrict { name: key_name });
        proof {
            lemma_did_then(&m0, &m3, self, done2 + seq![secret], seq![tighten]);
            assert(done2 + seq![secret] + seq![tighten] =~= store_pair_ops(
                d,
                cert_name@,
                cert@,
                key_name@,
                key@,
            ));
            assert(self.directory() =~= d.with_file(cert_name@, cert@).with_secret(
                key_name@,
                key@,
            ));
        }
    }

    /// Initializes the directory and stores a certificate and its key.
    fn store_pair_fresh(&mut self, cert_name: String, cert: &[u8], key_name: String, key: &[u8])
        requires
            cert_name@ != key_name@,
        ensures
            final(self).did(
                old(self),
                init_ops(old(self).directory()) + store_pair_ops(
                    old(self).directory(),
                    cert_name@,
                    cert@,
                    key_name@,
                    key@,
                ),
                with_pair(old(self).directory(), cert_name@, cert@, key_name@, key@),
            ),
    {
        let ghost m0 = *self;
        let _ = self.init();
        let ghost m1 = *self;
        self.store_pair(cert_name, cert, key_name, key);
        proof {
            lemma_did_then(
                &m0,
                &m1,
                self,
                init_ops(m0.directory()),
                store_pair_ops(m1.directory(), cert_name@, cert@, key_name@, key@),
            );
        }
    }

    /// Store a device's certificate and private key. The key's file is its
    /// owner's alone.
    pub fn store_certificate(&mut self, device_id: &str, cert_pem: &[u8], key_pem: &[u8]) -> (r:
        Result<(), Error>)
        ensures
            match id_refusal("cert_path"@, device_id@) {
                Some(e) => r matches Err(got) && got@ == e && final(self).did(
                    old(self),
                    init_ops(old(self).directory()),
                    initialized(old(self).directory()),
                ),
                None => r is Ok && final(self).did(
                    old(self),
                    init_ops(old(self).directory()) + store_pair_ops(
                        old(self).directory(),
                        cert_file(device_id@),
                        cert_pem@,
                        key_file(device_id@),
                        key_pem@,
                    ),
                    with_pair(
                        old(self).directory(),
                        cert_file(device_id@),
                        cert_pem@,
                        key_file(device_id@),
                        key_pem@,
                    ),
                ),
            },
    {
        let cert_name = match self.file_of("cert_path", device_id, ".crt") {
            Ok(name) => name,
            Err(e) => {
                let _ = self.init();
                return Err(e);
            },
        };
        let key_name = join2(device_id, ".key");
        proof {
            lemma_pair_names(device_id@);
        }
        self.store_pair_fresh(cert_name, cert_pem, key_name, key_pem);
        Ok(())
    }

    /// Load a device's certificate and private key.
    pub fn load_certificate(&self, device_id: &str) -> (r: Result<(Vec<u8>, Vec<u8>), Error>)
        ensures
            generated_pair(r) == match id_refusal("cert_path"@, device_id@) {
                Some(e) => Err::<(Seq<u8>, Seq<u8>), ErrorView>(e),
                None => {
                    let files = self.directory().files;
                    let cert = cert_file(device_id@);
                    let key = key_file(device_id@);
                    if !files.contains_key(cert) {
                        Err(missing("Certificate file not found"@, path_in(self.location(), cert)))
                    } else if !files.contains_key(key) {
                        Err(missing("Private key file not found"@, path_in(self.location(), key)))
                    } else {
                        Ok((files[cert].contents, files[key].contents))
                    }
                },
            },
    {
        let cert_name = match self.file_of("cert_path", device_id, ".crt") {
            Ok(name) => name,
            Err(e) => {
                return Err(e);
            },
        };
        let key_name = join2(device_id, ".key");
        let cert_pem = match self.dir.read(cert_name.as_str()) {
            Some(v) => v,
            None => {
                return Err(
                    Error::NotFound {
                        resource: "Certificate file not found".to_owned(),
                        id: Some(self.path_of(cert_name.as_str())),
                    },
                );
            },
        };
        match self.dir.read(key_name.as_str()) {
            Some(key_pem) => Ok((cert_pem, key_pem)),
            None => Err(
                Error::NotFound {
                    resource: "Private key file not found".to_owned(),
                    id: Some(self.path_of(key_name.as_str())),
                },
            ),
        }
    }

    /// Validate a certificate: it parses, its private key parses, and the two
    /// belong together.
    pub fn validate_certificate(&self, cert_pem: &[u8], key_pem: &[u8]) -> (r: Result<(), Error>)
        ensures
            match r {
                Ok(_) => pair_error(cert_pem@, key_pem@) is None,
                Err(e) => pair_error(cert_pem@, key_pem@) == Some(e@),
            },
    {
        validate_pair(cert_pem, key_pem)
    }

    /// Whether a device's certificate and private key are stored.
    pub fn has_certificate(&self, device_id: &str) -> (r: bool)
        ensures
            r == (is_device_id(device_id@) && pair_at(
                self.directory(),
                cert_file(device_id@),
                key_file(device_id@),
            ) is Some),
    {
        match self.file_of("cert_path", device_id, ".crt") {
            Ok(cert_name) => {
                let key_name = join2(device_id, ".key");
                self.dir.has(cert_name.as_str()) && self.dir.has(key_name.as_str())
            },
            Err(_) => false,
        }
    }

    /// Stores a certificate that was generated for a device, or passes on why
    /// there is none.
    pub fn store_generated(
        &mut self,
        device_id: &str,
        pair: Result<(Vec<u8>, Vec<u8>), Error>,
    ) -> (r: Result<String, Error>)
        ensures
            match generated_pair(pair) {
                Err(e) => r matches Err(got) && got@ == e && final(self).unchanged(old(self)),
                Ok(p) => match id_refusal("cert_path"@, device_id@) {
                    Some(e) => r matches Err(got) && got@ == e && final(self).did(
                        old(self),
                        init_ops(old(self).directory()),
                        initialized(old(self).directory()),
                    ),
                    None => r matches Ok(id) && id@ == device_id@ && final(self).did(
                        old(self),
                        init_ops(old(self).directory()) + store_pair_ops(
                            old(self).directory(),
                            cert_file(device_id@),
                            p.0,
                            key_file(device_id@),
                            p.1,
                        ),
                        with_pair(
                            old(self).directory(),
                            cert_file(device_id@),
                            p.0,
                            key_file(device_id@),
                            p.1,
                        ),
                    ),
                },
            },
    {
        match pair {
            Ok((cert_pem, key_pem)) => match self.store_certificate(
                device_id,
                cert_pem.as_slice(),
                key_pem.as_slice(),
            ) {
                Ok(_) => Ok(device_id.to_owned()),
                Err(e) => Err(e),
            },
            Err(e) => Err(e),
        }
    }

    /// Make sure that a certificate is stored for a device: one that is there
    /// is kept, else one is generated.
    pub fn ensure_certificate(&mut self, device_id: &str, device_name: &str) -> (r: Result<
        String,
        Error,
    >)
        ensures
            is_device_id(device_id@) && pair_at(
                old(self).directory(),
                cert_file(device_id@),
                key_file(device_id@),
            ) is Some ==> r is Ok && final(self).unchanged(old(self)),
            r matches Ok(id) ==> id@ == device_id@ && pair_at(
                final(self).directory(),
                cert_file(device_id@),
                key_file(device_id@),
            ) is Some,
            !(is_device_id(device_id@) && pair_at(
                old(self).directory(),
                cert_file(device_id@),
                key_file(device_id@),
            ) is Some) ==> exists|pair: Result<(Seq<u8>, Seq<u8>), ErrorView>| #[trigger]
                is_generated(device_id@, pair) && match pair {
                    Err(e) => r matches Err(got) && got@ == e && final(self).unchanged(old(self)),
                    Ok(p) => match id_refusal("cert_path"@, device_id@) {
                        Some(e) => r matches Err(got) && got@ == e && final(self).did(
                            old(self),
                            init_ops(old(self).directory()),
                            initialized(old(self).directory()),
                        ),
                        None => r is Ok && final(self).did(
                            old(self),
                            init_ops(old(self).directory()) + store_pair_ops(
                                old(self).directory(),
                                cert_file(device_id@),
                                p.0,
                                key_file(device_id@),
                                p.1,
                            ),
                            with_pair(
                                old(self).directory(),
                                cert_file(device_id@),
                                p.0,
                                key_file(device_id@),
                                p.1,
                            ),
                        ),
                    },
                },
    {
        if self.has_certificate(device_id) {
            return Ok(device_id.to_owned());
        }
        let pair = self.generate_certificate(device_id, device_name);
        assert(is_generated(device_id@, generated_pair(pair)));
        let r = self.store_generated(device_id, pair);
        proof {
            lemma_pair_names(device_id@);
        }
        r
    }
}

/// The two names under which the own certificate may have been stored for a
/// device before the fixed names came into use.
pub open spec fn adoptable(d: DirView, id: Seq<char>) -> bool {
    &&& is_device_id(id)
    &&& pair_at(d, OWN_CERT@, OWN_KEY@) is None
    &&& pair_at(d, cert_file(id), key_file(id)) matches Some(pair) && der_of_pem(
        pair.0,
    ) matches Ok(der) && common_name_of(der) == Ok::<Seq<char>, ErrorView>(id)
}

/// The operations that adopt a device's certificate as the own one.
pub open spec fn adopt_ops(id: Seq<char>) -> Seq<OpView> {
    seq![
        OpView::Rename { from: cert_file(id), to: OWN_CERT@ },
        OpView::Rename { from: key_file(id), to: OWN_KEY@ },
        OpView::Restrict { name: OWN_KEY@ },
    ]
}

/// The directory after a device's certificate was adopted as the own one.
pub open spec fn with_adopted(d: DirView, id: Seq<char>) -> DirView {
    d.with_renamed(cert_file(id), OWN_CERT@).with_renamed(key_file(id), OWN_KEY@).with_restricted(
        OWN_KEY@,
    )
}

/// The common name of the stored own certificate, where one is stored.
pub open spec fn own_name(d: DirView) -> Result<Option<Seq<char>>, ErrorView> {
    if !d.files.contains_key(OWN_CERT@) {
        Ok(None)
    } else {
        match der_of_pem(d.files[OWN_CERT@].contents) {
            Err(e) => Err(
                ErrorView::CertificateError("Failed to parse own certificate: "@ + e.message()),
            ),
            Ok(der) => match common_name_of(der) {
                Ok(name) => Ok(Some(name)),
                Err(e) => Err(e),
            },
        }
    }
}

/// What is said of an own file that is not there.
pub open spec fn unreadable_own(what: Seq<char>, path: Seq<char>) -> ErrorView {
    ErrorView::Io { message: what + no_such_file(), path: Some(path) }
}

impl CertificateManager {
    /// Whether the own certificate and key are stored.
    pub fn has_own_certificate(&self) -> (r: bool)
        ensures
            r == (pair_at(self.directory(), OWN_CERT@, OWN_KEY@) is Some),
    {
        self.dir.has(OWN_CERT) && self.dir.has(OWN_KEY)
    }

    /// Load the own certificate and key.
    pub fn load_own_certificate(&self) -> (r: Result<(Vec<u8>, Vec<u8>), Error>)
        ensures
            generated_pair(r) == {
                let files = self.directory().files;
                if !files.contains_key(OWN_CERT@) {
                    Err::<(Seq<u8>, Seq<u8>), ErrorView>(
                        unreadable_own(
                            "Failed to read own certificate: "@,
                            path_in(self.location(), OWN_CERT@),
                        ),
                    )
                } else if !files.contains_key(OWN_KEY@) {
                    Err(
                        unreadable_own(
                            "Failed to read own key: "@,
                            path_in(self.location(), OWN_KEY@),
                        ),
                    )
                } else {
                    Ok((files[OWN_CERT@].contents, files[OWN_KEY@].contents))
                }
            },
    {
        let cert_pem = match self.dir.read(OWN_CERT) {
            Some(v) => v,
            None => {
                return Err(
                    Error::Io {
                        message: join2(
                            "Failed to read own certificate: ",
                            "No such file or directory (os error 2)",
                        ),
                        path: Some(self.own_cert_path()),
                    },
                );
            },
        };
        match self.dir.read(OWN_KEY) {
            Some(key_pem) => Ok((cert_pem, key_pem)),
            None => Err(
                Error::Io {
                    message: join2(
                        "Failed to read own key: ",
                        "No such file or directory (os error 2)",
                    ),
                    path: Some(self.own_key_path()),
                },
            ),
        }
    }

    /// Store the own certificate and key. The key's file is its owner's alone.
    pub fn store_own_certificate(&mut self, cert_pem: &[u8], key_pem: &[u8]) -> (r: Result<
        (),
        Error,
    >)
        ensures
            r is Ok,
            final(self).did(
                old(self),
                init_ops(old(self).directory()) + store_pair_ops(
                    old(self).directory(),
                    OWN_CERT@,
                    cert_pem@,
                    OWN_KEY@,
                    key_pem@,
                ),
                with_pair(old(self).directory(), OWN_CERT@, cert_pem@, OWN_KEY@, key_pem@),
            ),
    {
        proof {
            lemma_pair_names(Seq::empty());
        }
        self.store_pair_fresh(OWN_CERT.to_owned(), cert_pem, OWN_KEY.to_owned(), key_pem);
        Ok(())
    }

    /// Whether the stored own certificate is valid at `now`. One that cannot be
    /// read is not.
    pub fn own_certificate_is_valid_at(&self, now: Moment) -> (r: bool)
        ensures
            r == own_is_valid(self.directory(), now),
    {
        let pem = match self.dir.read(OWN_CERT) {
            Some(pem) => pem,
            None => {
                return false;
            },
        };
        let der = match pem_to_der(pem.as_slice()) {
            Ok(der) => der,
            Err(_) => {
                return false;
            },
        };
        match parse_x509_der(der.as_slice()) {
            Ok(cert) => is_valid_at(&cert, now),
            Err(_) => false,
        }
    }

    /// Stores a certificate that was generated as the own one, or passes on why
    /// there is none.
    pub fn store_generated_own(&mut self, pair: Result<(Vec<u8>, Vec<u8>), Error>) -> (r: Result<
        (),
        Error,
    >)
        ensures
            match generated_pair(pair) {
                Err(e) => r matches Err(got) && got@ == e && final(self).unchanged(old(self)),
                Ok(p) => r is Ok && final(self).did(
                    old(self),
                    init_ops(old(self).directory()) + store_pair_ops(
                        old(self).directory(),
                        OWN_CERT@,
                        p.0,
                        OWN_KEY@,
                        p.1,
                    ),
                    with_pair(old(self).directory(), OWN_CERT@, p.0, OWN_KEY@, p.1),
                ),
            },
    {
        match pair {
            Ok((cert_pem, key_pem)) => self.store_own_certificate(
                cert_pem.as_slice(),
                key_pem.as_slice(),
            ),
            Err(e) => Err(e),
        }
    }

    /// Make sure that there is an own certificate that is valid at `now`: one
    /// that is expired, not yet valid or unreadable is replaced. Stored peers
    /// stay as they are.
    pub fn ensure_own_certificate_at(
        &mut self,
        device_id: &str,
        device_name: &str,
        now: Moment,
    ) -> (r: Result<(), Error>)
        ensures
            ensured_own(*old(self), *final(self), device_id@, now, r),
    {
        if self.has_own_certificate() && self.own_certificate_is_valid_at(now) {
            return Ok(());
        }
        let pair = self.generate_certificate(device_id, device_name);
        assert(is_generated(device_id@, generated_pair(pair)));
        self.store_generated_own(pair)
    }

    /// Make sure that there is an own certificate that is valid now.
    pub fn ensure_own_certificate(&mut self, device_id: &str, device_name: &str) -> (r: Result<
        (),
        Error,
    >)
        ensures
            exists|now: Moment|
                0 <= now.seconds && in_calendar(now.seconds as int) && #[trigger] ensured_own(
                    *old(self),
                    *final(self),
                    device_id@,
                    now,
                    r,
                ),
    {
        let now = utc_now();
        self.ensure_own_certificate_at(device_id, device_name, now)
    }

    /// The common name of the stored own certificate, where one is stored.
    pub fn own_certificate_cn(&self) -> (r: Result<Option<String>, Error>)
        ensures
            match r {
                Ok(name) => own_name(self.directory()) == Ok::<Option<Seq<char>>, ErrorView>(
                    text_of(name),
                ),
                Err(e) => own_name(self.directory()) == Err::<Option<Seq<char>>, ErrorView>(e@),
            },
    {
        let pem = match self.dir.read(OWN_CERT) {
            Some(pem) => pem,
            None => {
                return Ok(None);
            },
        };
        match pem_to_der(pem.as_slice()) {
            Err(e) => {
                let message = e.message();
                Err(
                    Error::CertificateError(
                        join2("Failed to parse own certificate: ", message.as_str()),
                    ),
                )
            },
            Ok(der) => match extract_cn_from_der(der.as_slice()) {
                Ok(name) => Ok(Some(name)),
                Err(e) => Err(e),
            },
        }
    }

    /// Adopt a certificate that was stored under the device's own id as the own
    /// one, but only where there is no own one yet and its common name is the
    /// device id; one with another name is left untouched. Tells whether it was
    /// adopted. The adopted key's file is closed to everyone but its owner,
    /// however loosely it was stored.
    pub fn adopt_legacy_own_certificate(&mut self, device_id: &str) -> (r: Result<bool, Error>)
        ensures
            match r {
                Ok(true) => adoptable(old(self).directory(), device_id@) && final(self).did(
                    old(self),
                    adopt_ops(device_id@),
                    with_adopted(old(self).directory(), device_id@),
                ),
                Ok(false) => !adoptable(old(self).directory(), device_id@) && (pair_at(
                    old(self).directory(),
                    OWN_CERT@,
                    OWN_KEY@,
                ) is Some || is_device_id(device_id@)) && final(self).unchanged(old(self)),
                Err(e) => pair_at(old(self).directory(), OWN_CERT@, OWN_KEY@) is None
                    && id_refusal("cert_path"@, device_id@) == Some(e@) && final(self).unchanged(
                    old(self),
                ),
            },
    {
        let ghost m0 = *self;
        if self.has_own_certificate() {
            return Ok(false);
        }
        let cert_name = match self.file_of("cert_path", device_id, ".crt") {
            Ok(name) => name,
            Err(e) => {
                return Err(e);
            },
        };
        let key_name = join2(device_id, ".key");
        let pem = match self.dir.read(cert_name.as_str()) {
            Some(pem) => pem,
            None => {
                return Ok(false);
            },
        };
        if !self.dir.has(key_name.as_str()) {
            return Ok(false);
        }
        let der = match pem_to_der(pem.as_slice()) {
            Ok(der) => der,
            Err(_) => {
                return Ok(false);
            },
        };
        let name = match extract_cn_from_der(der.as_slice()) {
            Ok(name) => name,
            Err(_) => {
                return Ok(false);
            },
        };
        if !same_text(name.as_str(), device_id) {
            return Ok(false);
        }
        self.perform(FileOp::Rename { from: cert_name, to: OWN_CERT.to_owned() });
        let ghost m1 = *self;
        self.perform(FileOp::Rename { from: key_name, to: OWN_KEY.to_owned() });
        let ghost m2 = *self;
        self.perform(FileOp::Restrict { name: OWN_KEY.to_owned() });
        proof {
            let ops = adopt_ops(device_id@);
            lemma_did_then(&m0, &m1, &m2, seq![ops[0]], seq![ops[1]]);
            lemma_did_then(&m0, &m2, self, seq![ops[0]] + seq![ops[1]], seq![ops[2]]);
            assert(seq![ops[0]] + seq![ops[1]] + seq![ops[2]] =~= ops);
        }
        Ok(true)
    }

    /// Delete a device's certificate and private key, where they are there.
    pub fn delete_certificate(&mut self, device_id: &str) -> (r: Result<(), Error>)
        ensures
            match id_refusal("cert_path"@, device_id@) {
                Some(e) => r matches Err(got) && got@ == e && final(self).unchanged(old(self)),
                None => r is Ok && final(self).did(
                    old(self),
                    remove_ops(
                        old(self).directory(),
                        cert_file(device_id@),
                        key_file(device_id@),
                    ),
                    old(self).directory().without(cert_file(device_id@)).without(
                        key_file(device_id@),
                    ),
                ),
            },
    {
        let cert_name = match self.file_of("cert_path", device_id, ".crt") {
            Ok(name) => name,
            Err(e) => {
                return Err(e);
            },
        };
        proof {
            lemma_pair_names(device_id@);
        }
        let key_name = join2(device_id, ".key");
        self.remove_two(cert_name, key_name);
        Ok(())
    }

    /// Removes two files, where they are there.
    fn remove_two(&mut self, first: String, second: String)
        requires
            first@ != second@,
        ensures
            final(self).did(
                old(self),
                remove_ops(old(self).directory(), first@, second@),
                old(self).directory().without(first@).without(second@),
            ),
    {
        let ghost m0 = *self;
        let ghost d = self.directory();
        let ghost (a, b) = (first@, second@);
        let ghost one: Seq<OpView> = if d.files.contains_key(a) {
            seq![OpView::Remove { name: a }]
        } else {
            seq![]
        };
        let ghost two: Seq<OpView> = if d.files.contains_key(b) {
            seq![OpView::Remove { name: b }]
        } else {
            seq![]
        };
        if self.dir.has(first.as_str()) {
            self.perform(FileOp::Remove { name: first });
        } else {
            assert(d.without(a) =~= d);
            proof {
                lemma_did_nothing(&m0, self);
            }
        }
        assert(self.did(&m0, one, d.without(a)));
        let ghost m1 = *self;
        if self.dir.has(second.as_str()) {
            self.perform(FileOp::Remove { name: second });
        } else {
            assert(d.without(a).without(b) =~= d.without(a));
            proof {
                lemma_did_nothing(&m1, self);
            }
        }
        assert(self.did(&m1, two, d.without(a).without(b)));
        proof {
            lemma_did_then(&m0, &m1, self, one, two);
        }
    }
}

/// `after` is `before` once an own certificate valid at `now` was ensured for
/// `device_id`, with the outcome `r`.
pub open spec fn ensured_own(
    before: CertificateManager,
    after: CertificateManager,
    device_id: Seq<char>,
    now: Moment,
    r: Result<(), Error>,
) -> bool {
    if pair_at(before.directory(), OWN_CERT@, OWN_KEY@) is Some && own_is_valid(
        before.directory(),
        now,
    ) {
        r is Ok && after.unchanged(&before)
    } else {
        exists|pair: Result<(Seq<u8>, Seq<u8>), ErrorView>| #[trigger]
            is_generated(device_id, pair) && match pair {
                Err(e) => r matches Err(got) && got@ == e && after.unchanged(&before),
                Ok(p) => r is Ok && after.did(
                    &before,
                    init_ops(before.directory()) + store_pair_ops(
                        before.directory(),
                        OWN_CERT@,
                        p.0,
                        OWN_KEY@,
                        p.1,
                    ),
                    with_pair(before.directory(), OWN_CERT@, p.0, OWN_KEY@, p.1),
                ),
            }
    }
}

/// What a store of a fingerprint does.
pub open spec fn store_fingerprint_ops(d: DirView, id: Seq<char>, text: Seq<char>) -> Seq<OpView> {
    init_ops(d).push(OpView::Write { name: fingerprint_file(id), contents: encode_utf8(text) })
}

/// Whether `id` is a peer whose certificate the directory holds.
pub open spec fn is_known_peer(d: DirView, id: Seq<char>) -> bool {
    d.present && d.files.contains_key(peer_file(id))
}

impl CertificateManager {
    /// Whether a peer's certificate is stored.
    pub fn has_peer_certificate(&self, device_id: &str) -> (r: bool)
        ensures
            r == (is_device_id(device_id@) && self.directory().files.contains_key(
                peer_file(device_id@),
            )),
    {
        match self.file_of("peer_cert_path", device_id, "_peer.crt") {
            Ok(name) => self.dir.has(name.as_str()),
            Err(_) => false,
        }
    }

    /// The fingerprint of a certificate: its SHA-256 digest in lower-case
    /// hexadecimal.
    pub fn compute_fingerprint(cert_der: &[u8]) -> (r: Result<String, Error>)
        ensures
            r matches Ok(text) && text@ == fingerprint_of(cert_der@) && text@.len() == 64,
    {
        Ok(fingerprint(cert_der))
    }

    /// Whether a peer's fingerprint is stored.
    pub fn has_peer_fingerprint(&self, device_id: &str) -> (r: bool)
        ensures
            r == has_fingerprint(self.directory(), device_id@),
    {
        match self.file_of("fingerprint_path", device_id, "_fingerprint.txt") {
            Ok(name) => self.dir.has(name.as_str()),
            Err(_) => false,
        }
    }

    /// Store a peer's fingerprint.
    pub fn store_peer_fingerprint(&mut self, device_id: &str, fingerprint: &str) -> (r: Result<
        (),
        Error,
    >)
        ensures
            match id_refusal("fingerprint_path"@, device_id@) {
                Some(e) => r matches Err(got) && got@ == e && final(self).did(
                    old(self),
                    init_ops(old(self).directory()),
                    initialized(old(self).directory()),
                ),
                None => r is Ok && final(self).did(
                    old(self),
                    store_fingerprint_ops(old(self).directory(), device_id@, fingerprint@),
                    initialized(old(self).directory()).with_file(
                        fingerprint_file(device_id@),
                        encode_utf8(fingerprint@),
                    ),
                ),
            },
    {
        let ghost m0 = *self;
        let _ = self.init();
        let ghost m1 = *self;
        let name = match self.file_of("fingerprint_path", device_id, "_fingerprint.txt") {
            Ok(name) => name,
            Err(e) => {
                return Err(e);
            },
        };
        self.perform(FileOp::Write { name, contents: fingerprint.as_bytes_vec() });
        proof {
            let write = OpView::Write {
                name: fingerprint_file(device_id@),
                contents: encode_utf8(fingerprint@),
            };
            lemma_did_then(&m0, &m1, self, init_ops(m0.directory()), seq![write]);
            assert(init_ops(m0.directory()) + seq![write] =~= store_fingerprint_ops(
                m0.directory(),
                device_id@,
                fingerprint@,
            ));
        }
        Ok(())
    }

    /// Load a peer's fingerprint, without white space around it.
    pub fn load_peer_fingerprint(&self, device_id: &str) -> (r: Result<String, Error>)
        ensures
            found_text(r) == stored_fingerprint(self.directory(), self.location(), device_id@),
    {
        let name = match self.file_of("fingerprint_path", device_id, "_fingerprint.txt") {
            Ok(name) => name,
            Err(e) => {
                return Err(e);
            },
        };
        let contents = match self.dir.read(name.as_str()) {
            Some(contents) => contents,
            None => {
                return Err(
                    Error::NotFound {
                        resource: "No stored fingerprint for device".to_owned(),
                        id: Some(device_id.to_owned()),
                    },
                );
            },
        };
        match utf8_text(contents.as_slice()) {
            Ok(text) => Ok(trimmed(text)),
            Err(_) => Err(
                Error::Io {
                    message:
                        "Failed to read peer fingerprint: stream did not contain valid UTF-8".to_owned(),
                    path: Some(self.path_of(name.as_str())),
                },
            ),
        }
    }

    /// Verify that a certificate has the fingerprint that is stored for a peer.
    pub fn verify_peer_fingerprint(&self, device_id: &str, cert_der: &[u8]) -> (r: Result<
        (),
        Error,
    >)
        ensures
            match r {
                Ok(_) => fingerprint_error(
                    self.directory(),
                    self.location(),
                    device_id@,
                    cert_der@,
                ) is None,
                Err(e) => fingerprint_error(
                    self.directory(),
                    self.location(),
                    device_id@,
                    cert_der@,
                ) == Some(e@),
            },
    {
        let stored = match self.load_peer_fingerprint(device_id) {
            Ok(text) => text,
            Err(e) => {
                return Err(e);
            },
        };
        let presented = fingerprint(cert_der);
        if same_text(stored.as_str(), presented.as_str()) {
            Ok(())
        } else {
            let got = join3(stored.as_str(), ", got ", presented.as_str());
            Err(
                Error::CertificateError(
                    join4(
                        "Certificate fingerprint mismatch for device ",
                        device_id,
                        ": expected ",
                        got.as_str(),
                    ),
                ),
            )
        }
    }

    /// The public key info of a certificate, in DER.
    pub fn extract_pubkey_der(cert_der: &[u8]) -> (r: Result<Vec<u8>, Error>)
        ensures
            match r {
                Ok(key) => certificate_of(cert_der@) matches Ok(cert) && key@ == cert.public_key,
                Err(e) => certificate_of(cert_der@) == Err::<CertificateView, ErrorView>(e@),
            },
    {
        match parse_x509_der(cert_der) {
            Ok(cert) => Ok(cert.public_key),
            Err(e) => Err(e),
        }
    }

    /// The key that both sides of a pairing show to their users.
    pub fn compute_verification_key(
        our_pubkey_der: &[u8],
        peer_pubkey_der: &[u8],
        timestamp: i64,
    ) -> (r: String)
        ensures
            r@ == verification_key::verification_key(
                our_pubkey_der@,
                peer_pubkey_der@,
                timestamp as int,
            ),
            r@.len() == 8,
    {
        verification_key::compute_verification_key(our_pubkey_der, peer_pubkey_der, timestamp)
    }

    /// Verify a peer's certificate: it has the stored fingerprint, where one is
    /// stored.
    pub fn verify_peer_certificate(&self, device_id: &str, cert_der: &[u8]) -> (r: Result<
        (),
        Error,
    >)
        ensures
            match r {
                Ok(_) => peer_refusal(
                    self.directory(),
                    self.location(),
                    device_id@,
                    cert_der@,
                ) is None,
                Err(e) => peer_refusal(
                    self.directory(),
                    self.location(),
                    device_id@,
                    cert_der@,
                ) == Some(e@),
            },
    {
        if self.has_peer_fingerprint(device_id) {
            self.verify_peer_fingerprint(device_id, cert_der)
        } else {
            Ok(())
        }
    }

    /// Store a peer's certificate. On first use its fingerprint is stored with
    /// it; later a certificate with another fingerprint is refused before
    /// anything is written over the stored one.
    pub fn store_peer_certificate(&mut self, device_id: &str, cert_der: &[u8]) -> (r: Result<
        (),
        Error,
    >)
        ensures
            match peer_store_error(old(self).directory(), old(self).location(), device_id@, cert_der@) {
                Some(e) => r matches Err(got) && got@ == e && final(self).did(
                    old(self),
                    init_ops(old(self).directory()),
                    initialized(old(self).directory()),
                ),
                None => r is Ok && final(self).did(
                    old(self),
                    store_peer_ops(old(self).directory(), device_id@, cert_der@),
                    with_peer(old(self).directory(), device_id@, cert_der@),
                ),
            },
            r is Ok ==> der_of_pem(
                final(self).directory().files[peer_file(device_id@)].contents,
            ) == Ok::<Seq<u8>, ErrorView>(cert_der@),
    {
        let ghost m0 = *self;
        let ghost d0 = self.directory();
        let _ = self.init();
        let ghost m1 = *self;
        let pem = match der_to_pem(cert_der) {
            Ok(pem) => pem,
            Err(e) => {
                return Err(e);
            },
        };
        let print = fingerprint(cert_der);
        let first_use = !self.has_peer_fingerprint(device_id);
        proof {
            law_accepts_exactly_device_ids(device_id@);
        }
        if !first_use {
            match self.verify_peer_fingerprint(device_id, cert_der) {
                Ok(_) => {},
                Err(e) => {
                    return Err(e);
                },
            }
        }
        let name = match self.file_of("peer_cert_path", device_id, "_peer.crt") {
            Ok(name) => name,
            Err(e) => {
                return Err(e);
            },
        };
        let ghost write = OpView::Write { name: peer_file(device_id@), contents: pem@ };
        let ghost stored = initialized(d0).with_file(peer_file(device_id@), pem@);
        self.perform(FileOp::Write { name, contents: pem });
        let ghost m2 = *self;
        proof {
            lemma_did_then(&m0, &m1, &m2, init_ops(d0), seq![write]);
            assert(init_ops(d0) + seq![write] =~= init_ops(d0).push(write));
        }
        if first_use {
            proof {
                lemma_pair_names(device_id@);
                assert(initialized(stored) =~= stored);
            }
            let r = self.store_peer_fingerprint(device_id, print.as_str());
            proof {
                let more = store_fingerprint_ops(stored, device_id@, print@);
                lemma_did_then(&m0, &m2, self, init_ops(d0).push(write), more);
                assert(init_ops(d0).push(write) + more =~= store_peer_ops(
                    d0,
                    device_id@,
                    cert_der@,
                ));
            }
            r
        } else {
            Ok(())
        }
    }

    /// Load a peer's certificate, in PEM.
    pub fn load_peer_certificate_pem(&self, device_id: &str) -> (r: Result<Vec<u8>, Error>)
        ensures
            match id_refusal("peer_cert_path"@, device_id@) {
                Some(e) => r matches Err(got) && got@ == e,
                None => if self.directory().files.contains_key(peer_file(device_id@)) {
                    r matches Ok(pem) && pem@ == self.directory().files[peer_file(
                        device_id@,
                    )].contents
                } else {
                    r matches Err(got) && got@ == missing(
                        "Peer certificate not found"@,
                        path_in(self.location(), peer_file(device_id@)),
                    )
                },
            },
    {
        let name = match self.file_of("peer_cert_path", device_id, "_peer.crt") {
            Ok(name) => name,
            Err(e) => {
                return Err(e);
            },
        };
        match self.dir.read(name.as_str()) {
            Some(pem) => Ok(pem),
            None => Err(
                Error::NotFound {
                    resource: "Peer certificate not found".to_owned(),
                    id: Some(self.path_of(name.as_str())),
                },
            ),
        }
    }

    /// Delete a peer's certificate and fingerprint, where they are there.
    pub fn delete_peer_certificate(&mut self, device_id: &str) -> (r: Result<(), Error>)
        ensures
            match id_refusal("peer_cert_path"@, device_id@) {
                Some(e) => r matches Err(got) && got@ == e && final(self).unchanged(old(self)),
                None => r is Ok && final(self).did(
                    old(self),
                    remove_ops(
                        old(self).directory(),
                        peer_file(device_id@),
                        fingerprint_file(device_id@),
                    ),
                    old(self).directory().without(peer_file(device_id@)).without(
                        fingerprint_file(device_id@),
                    ),
                ),
            },
    {
        let peer_name = match self.file_of("peer_cert_path", device_id, "_peer.crt") {
            Ok(name) => name,
            Err(e) => {
                return Err(e);
            },
        };
        proof {
            lemma_pair_names(device_id@);
        }
        let fingerprint_name = join2(device_id, "_fingerprint.txt");
        self.remove_two(peer_name, fingerprint_name);
        Ok(())
    }

    /// The peers whose certificates are stored, each once, in no particular
    /// order.
    pub fn list_known_peers(&self) -> (r: Result<Vec<String>, Error>)
        ensures
            r is Ok,
            r matches Ok(peers) ==> peers@.len() == texts(peers@).to_set().len() && forall|
                id: Seq<char>,
            | #[trigger]
                texts(peers@).contains(id) <==> is_known_peer(self.directory(), id),
    {
        let mut peers: Vec<String> = Vec::new();
        if !self.dir.present {
            assert(texts(peers@) =~= Seq::empty());
            assert(texts(peers@).to_set() =~= Set::empty());
            return Ok(peers);
        }
        let names = self.dir.files.keys();
        let mut i: usize = 0;
        while i < names.len()
            invariant
                i <= names@.len(),
                lists_keys(names@, self.dir.files@),
                texts(peers@).no_duplicates(),
                forall|id: Seq<char>| #[trigger]
                    texts(peers@).contains(id) <==> exists|j: int|
                        0 <= j < i && (#[trigger] names@[j])@ == peer_file(id),
            decreases names@.len() - i,
        {
            let ghost before = peers@;
            match suffix_stripped(names[i].as_str(), "_peer.crt") {
                Some(id) => {
                    proof {
                        assert(names@[i as int]@ =~= peer_file(id@));
                        assert(!texts(before).contains(id@)) by {
                            if texts(before).contains(id@) {
                                let j = choose|j: int|
                                    0 <= j < i && (#[trigger] names@[j])@ == peer_file(id@);
                                assert(names@[j]@ != names@[i as int]@);
                            }
                        }
                    }
                    let ghost text = id@;
                    peers.push(id);
                    proof {
                        assert(texts(peers@) =~= texts(before).push(text));
                        assert forall|other: Seq<char>| #[trigger]
                            texts(peers@).contains(other) <==> exists|j: int|
                            0 <= j < i + 1 && (#[trigger] names@[j])@ == peer_file(other) by {
                            lemma_peer_files_differ(text, other);
                            if texts(peers@).contains(other) {
                                if other != text {
                                    let k = choose|k: int|
                                        0 <= k < texts(peers@).len() && texts(peers@)[k] == other;
                                    assert(texts(before)[k] == other);
                                    assert(texts(before).contains(other));
                                } else {
                                    assert(names@[i as int]@ == peer_file(other));
                                }
                            }
                            if exists|j: int|
                                0 <= j < i + 1 && (#[trigger] names@[j])@ == peer_file(other) {
                                if other == text {
                                    assert(texts(peers@)[before.len() as int] == other);
                                } else {
                                    let j = choose|j: int|
                                        0 <= j < i + 1 && (#[trigger] names@[j])@ == peer_file(
                                            other,
                                        );
                                    assert(texts(before).contains(other));
                                    let k = choose|k: int|
                                        0 <= k < texts(before).len() && texts(before)[k] == other;
                                    assert(texts(peers@)[k] == other);
                                }
                            }
                        }
                    }
                },
                None => {
                    assert forall|id: Seq<char>| names@[i as int]@ != #[trigger] peer_file(id) by {
                        if names@[i as int]@ == peer_file(id) {
                            let s = names@[i as int]@;
                            let t = "_peer.crt"@;
                            assert(t =~= s.subrange((s.len() - t.len()) as int, s.len() as int));
                        }
                    }
                },
            }
            i = i + 1;
        }
        proof {
            texts(peers@).unique_seq_to_set();
            assert forall|id: Seq<char>| #[trigger]
                texts(peers@).contains(id) <==> is_known_peer(self.directory(), id) by {
                if texts(peers@).contains(id) {
                    let j = choose|j: int|
                        0 <= j < i && (#[trigger] names@[j])@ == peer_file(id);
                    assert(self.dir.files@.contains_key(names@[j]@));
                }
                if is_known_peer(self.directory(), id) {
                    assert(self.dir.files@.contains_key(peer_file(id)));
                }
            }
        }
        Ok(peers)
    }
}

/// Different peers have different files.
proof fn lemma_peer_files_differ(a: Seq<char>, b: Seq<char>)
    ensures
        a != b ==> peer_file(a) != peer_file(b),
{
    if peer_file(a) == peer_file(b) {
        let n = "_peer.crt"@.len();
        assert(peer_file(a).len() == peer_file(b).len());
        assert(a.len() == b.len());
        assert(a =~= peer_file(a).take(a.len() as int));
        assert(b =~= peer_file(b).take(b.len() as int));
    }
}

/// Why a peer's certificate is not stored, if it is not.
pub open spec fn peer_store_error(
    d: DirView,
    cert_dir: Seq<char>,
    id: Seq<char>,
    der: Seq<u8>,
) -> Option<ErrorView> {
    match id_refusal("peer_cert_path"@, id) {
        Some(e) => Some(e),
        None => peer_refusal(d, cert_dir, id, der),
    }
}

} // verus!
