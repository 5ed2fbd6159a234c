//! Trusted adapters around the group, hash and randomness collaborators.
//!
//! Every item here is believed, not proved: each wrapper's contract states
//! what the named outside function is documented to do, over uninterpreted
//! names for results that no short formula can state (a digest, a group
//! element, a scalar multiplication).

use vstd::prelude::*;

use curve25519_dalek::ristretto::CompressedRistretto;
use curve25519_dalek::ristretto::RistrettoPoint;
use curve25519_dalek::scalar::Scalar;
use getrandom::Error as RandomSourceError;

verus! {

/// The SHA-512 digest of a byte sequence; 64 bytes.
pub uninterp spec fn sha512_of(m: Seq<u8>) -> Seq<u8>;

/// The canonical encoding of the Ristretto255 element that the uniform
/// hash-to-group map assigns to a 64-byte input.
pub uninterp spec fn element_from_uniform(h: Seq<u8>) -> Seq<u8>;

/// The canonical encoding of the Ristretto255 element obtained by
/// multiplying the element encoded by `p` with the scalar encoded by `s`
/// (the scalar bytes are reduced modulo the group order first).
pub uninterp spec fn smul(p: Seq<u8>, s: Seq<u8>) -> Seq<u8>;

/// Whether 32 bytes are the canonical encoding of some Ristretto255 element.
pub uninterp spec fn decompresses(p: Seq<u8>) -> bool;

/// The canonical 32-byte encoding of the scalar obtained by wide reduction
/// of 64 bytes modulo the group order.
pub uninterp spec fn scalar_from_wide(b: Seq<u8>) -> Seq<u8>;

#[verifier::external_type_specification]
#[verifier::external_body]
pub struct ExGetrandomError(RandomSourceError);

/// Relies on `hmac_sha512::Hash::hash`: the one-shot SHA-512 digest of the
/// input bytes, 64 bytes long, a function of the input alone.
#[verifier::external_body]
pub(crate) fn sha512(m: &Vec<u8>) -> (h: [u8; 64])
    ensures
        h@ == sha512_of(m@),
{
    hmac_sha512::Hash::hash(m.as_slice())
}

/// Relies on `curve25519_dalek::ristretto::RistrettoPoint::from_uniform_bytes`,
/// the uniform hash-to-group map: every 64-byte input yields some element,
/// a function of the input alone; and on `compress`, whose output is the
/// canonical encoding, which `decompress` accepts.
#[verifier::external_body]
pub(crate) fn point_from_uniform(h: &[u8; 64]) -> (p: [u8; 32])
    ensures
        p@ == element_from_uniform(h@),
        decompresses(p@),
{
    RistrettoPoint::from_uniform_bytes(h).compress().to_bytes()
}

/// Relies on `curve25519_dalek::scalar::Scalar::from_bytes_mod_order_wide`:
/// wide reduction of 64 bytes modulo the group order, a function of the
/// input alone; `to_bytes` returns its canonical encoding.
#[verifier::external_body]
pub(crate) fn scalar_from_uniform(b: &[u8; 64]) -> (s: [u8; 32])
    ensures
        s@ == scalar_from_wide(b@),
{
    Scalar::from_bytes_mod_order_wide(b).to_bytes()
}

/// Relies on `curve25519_dalek::ristretto::CompressedRistretto::decompress`:
/// it returns `Some` exactly on canonical encodings of group elements.
#[verifier::external_body]
pub(crate) fn element_is_valid(p: &[u8; 32]) -> (b: bool)
    ensures
        b == decompresses(p@),
{
    CompressedRistretto(*p).decompress().is_some()
}

/// Relies on the scalar multiplication `RistrettoPoint * Scalar` of
/// `curve25519_dalek`, with `decompress`/`compress` converting between the
/// canonical 32-byte encoding and the group element at either end, and
/// `Scalar::from_bytes_mod_order` reading the scalar bytes.
///
/// The last clause is the commutativity of scalar multiplication in a group
/// of prime order, written at the level of canonical encodings: multiplying
/// an element first by `t` and then by `s` reaches the same element, hence
/// the same canonical bytes, as multiplying first by `s` and then by `t`.
#[verifier::external_body]
pub(crate) fn mul_element(p: &[u8; 32], s: &[u8; 32]) -> (r: [u8; 32])
    requires
        decompresses(p@),
    ensures
        r@ == smul(p@, s@),
        decompresses(r@),
        forall|g: Seq<u8>, t: Seq<u8>| p@ == #[trigger] smul(g, t) ==> r@ == smul(
            smul(g, s@),
            t,
        ),
{
    let point = CompressedRistretto(*p).decompress().unwrap();
    let scalar = Scalar::from_bytes_mod_order(*s);
    (point * scalar).compress().to_bytes()
}

/// Relies on `getrandom::getrandom`: on success the whole buffer is filled
/// with cryptographically secure random bytes; nothing can be promised of
/// the bytes themselves.
#[verifier::external_body]
pub(crate) fn fill_random(buf: &mut Vec<u8>) -> (r: Result<(), getrandom::Error>)
    ensures
        final(buf)@.len() == old(buf)@.len(),
{
    getrandom::getrandom(buf.as_mut_slice()).map(|_| ())
}

} // verus!
