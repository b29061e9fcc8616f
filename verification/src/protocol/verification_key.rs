//! The short key that both sides of a pairing display.

use vstd::prelude::*;
use vstd::string::*;
use vstd::utf8::encode_utf8;

use crate::outside::{hex_text, hex_upper, sha256, sha256_of};
use crate::text::{signed_decimal, signed_decimal_text};

verus! {

/// Whether `a` comes after `b` in the unsigned order of their bytes.
pub open spec fn bytes_after(a: Seq<u8>, b: Seq<u8>) -> bool
    decreases a.len(),
{
    if a.len() == 0 {
        false
    } else if b.len() == 0 {
        true
    } else if a[0] == b[0] {
        bytes_after(a.drop_first(), b.drop_first())
    } else {
        a[0] > b[0]
    }
}

/// The two keys in one, the larger first.
pub open spec fn sorted_concat(a: Seq<u8>, b: Seq<u8>) -> Seq<u8> {
    if bytes_after(a, b) {
        a + b
    } else {
        b + a
    }
}

/// The verification key of two public keys and a pairing timestamp: the digest
/// of the sorted keys and the decimal timestamp, cut to 4 bytes, in upper-case
/// hexadecimal.
pub open spec fn verification_key(ours: Seq<u8>, peers: Seq<u8>, timestamp: int) -> Seq<char> {
    let input = sorted_concat(ours, peers) + encode_utf8(signed_decimal(timestamp));
    hex_text(sha256_of(input).take(4), 'A')
}

proof fn lemma_after_asymmetric(a: Seq<u8>, b: Seq<u8>)
    ensures
        !(bytes_after(a, b) && bytes_after(b, a)),
    decreases a.len(),
{
    if a.len() > 0 && b.len() > 0 && a[0] == b[0] {
        lemma_after_asymmetric(a.drop_first(), b.drop_first());
    }
}

proof fn lemma_after_total(a: Seq<u8>, b: Seq<u8>)
    ensures
        a == b || bytes_after(a, b) || bytes_after(b, a),
    decreases a.len(),
{
    if a.len() == 0 && b.len() == 0 {
        assert(a =~= b);
    } else if a.len() > 0 && b.len() > 0 && a[0] == b[0] {
        lemma_after_total(a.drop_first(), b.drop_first());
        if a.drop_first() == b.drop_first() {
            assert(a =~= seq![a[0]] + a.drop_first());
            assert(b =~= seq![b[0]] + b.drop_first());
        }
    }
}

/// Both sides of a pairing compute the same key, whichever side passes its own
/// key first.
pub proof fn law_verification_key_is_symmetric(a: Seq<u8>, b: Seq<u8>, timestamp: int)
    ensures
        verification_key(a, b, timestamp) == verification_key(b, a, timestamp),
{
    lemma_after_asymmetric(a, b);
    lemma_after_total(a, b);
}

/// Where two keys share a prefix, the byte after it decides which comes later.
proof fn lemma_first_difference_decides(a: Seq<u8>, b: Seq<u8>, i: int)
    requires
        0 <= i < a.len(),
        i < b.len(),
        forall|j: int| 0 <= j < i ==> a[j] == b[j],
        a[i] > b[i],
    ensures
        bytes_after(a, b),
        !bytes_after(b, a),
    decreases i,
{
    if i > 0 {
        assert(a[0] == b[0]);
        assert forall|j: int| 0 <= j < i - 1 implies a.drop_first()[j] == b.drop_first()[j] by {
            assert(a[j + 1] == b[j + 1]);
        }
        lemma_first_difference_decides(a.drop_first(), b.drop_first(), i - 1);
    }
}

/// Where one key begins with the other, the longer one comes later.
proof fn lemma_longer_comes_after(a: Seq<u8>, b: Seq<u8>)
    requires
        b.len() < a.len(),
        forall|j: int| 0 <= j < b.len() ==> a[j] == b[j],
    ensures
        bytes_after(a, b),
        !bytes_after(b, a),
    decreases b.len(),
{
    if b.len() > 0 {
        assert(a[0] == b[0]);
        assert forall|j: int| 0 <= j < b.drop_first().len() implies a.drop_first()[j]
            == b.drop_first()[j] by {
            assert(a[j + 1] == b[j + 1]);
        }
        lemma_longer_comes_after(a.drop_first(), b.drop_first());
    }
}

/// Where two public keys share a prefix and differ at the byte after it, the one
/// with the greater byte there comes first in what is hashed, on either side of
/// the pairing; the decimal timestamp follows, and the first 4 bytes of the
/// digest are shown.
pub proof fn law_greater_key_comes_first(a: Seq<u8>, b: Seq<u8>, i: int, timestamp: int)
    requires
        0 <= i < a.len(),
        i < b.len(),
        forall|j: int| 0 <= j < i ==> a[j] == b[j],
        a[i] > b[i],
    ensures
        sorted_concat(a, b) == a + b,
        sorted_concat(b, a) == a + b,
        verification_key(a, b, timestamp) == hex_text(
            sha256_of(a + b + encode_utf8(signed_decimal(timestamp))).take(4),
            'A',
        ),
        verification_key(b, a, timestamp) == verification_key(a, b, timestamp),
{
    lemma_first_difference_decides(a, b, i);
}

/// Where one public key begins with the other, the longer one comes first in
/// what is hashed, on either side of the pairing.
pub proof fn law_longer_key_comes_first(a: Seq<u8>, b: Seq<u8>, timestamp: int)
    requires
        b.len() < a.len(),
        forall|j: int| 0 <= j < b.len() ==> a[j] == b[j],
    ensures
        sorted_concat(a, b) == a + b,
        sorted_concat(b, a) == a + b,
        verification_key(a, b, timestamp) == hex_text(
            sha256_of(a + b + encode_utf8(signed_decimal(timestamp))).take(4),
            'A',
        ),
        verification_key(b, a, timestamp) == verification_key(a, b, timestamp),
{
    lemma_longer_comes_after(a, b);
}

/// A key paired with itself is hashed twice over.
pub proof fn law_equal_keys_are_hashed_twice(a: Seq<u8>, timestamp: int)
    ensures
        sorted_concat(a, a) == a + a,
        verification_key(a, a, timestamp) == hex_text(
            sha256_of(a + a + encode_utf8(signed_decimal(timestamp))).take(4),
            'A',
        ),
{
}

/// Whether `a` comes after `b` in the unsigned order of their bytes.
fn is_after(a: &[u8], b: &[u8]) -> (r: bool)
    ensures
        r == bytes_after(a@, b@),
{
    let mut i: usize = 0;
    assert(a@.skip(0) =~= a@);
    assert(b@.skip(0) =~= b@);
    while i < a.len() && i < b.len() && a[i] == b[i]
        invariant
            i <= a.len(),
            i <= b.len(),
            bytes_after(a@, b@) == bytes_after(a@.skip(i as int), b@.skip(i as int)),
        decreases a.len() - i,
    {
        assert(a@.skip(i as int).drop_first() =~= a@.skip(i + 1));
        assert(b@.skip(i as int).drop_first() =~= b@.skip(i + 1));
        i = i + 1;
    }
    if i == a.len() {
        false
    } else if i == b.len() {
        true
    } else {
        a[i] > b[i]
    }
}

/// The first 4 bytes of a digest, in upper-case hexadecimal.
pub fn key_of_digest(digest: &[u8]) -> (r: String)
    requires
        digest@.len() >= 4,
    ensures
        r@ == hex_text(digest@.take(4), 'A'),
{
    let head = vstd::slice::slice_subrange(digest, 0, 4);
    assert(head@ =~= digest@.take(4));
    hex_upper(head)
}

/// The short authentication string of a pairing. Both sides must display the
/// identical key, or the user cannot verify it.
pub fn compute_verification_key(our_pubkey_der: &[u8], peer_pubkey_der: &[u8], timestamp: i64) -> (r:
    String)
    ensures
        r@ == verification_key(our_pubkey_der@, peer_pubkey_der@, timestamp as int),
        r@.len() == 8,
{
    let (first, second) = if is_after(our_pubkey_der, peer_pubkey_der) {
        (our_pubkey_der, peer_pubkey_der)
    } else {
        (peer_pubkey_der, our_pubkey_der)
    };
    let mut input = vstd::slice::slice_to_vec(first);
    let mut rest = vstd::slice::slice_to_vec(second);
    let mut stamp = signed_decimal_text(timestamp).as_str().as_bytes_vec();
    input.append(&mut rest);
    input.append(&mut stamp);
    assert(input@ =~= sorted_concat(our_pubkey_der@, peer_pubkey_der@) + encode_utf8(
        signed_decimal(timestamp as int),
    ));
    let digest = sha256(input.as_slice());
    key_of_digest(digest.as_slice())
}

} // verus!
