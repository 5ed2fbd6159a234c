//! The mathematical model of the protocol: what bytes each hash consumes and
//! what each derived value is, as functions of the inputs.

use vstd::prelude::*;

use crate::adapters::element_from_uniform;
use crate::adapters::sha512_of;
use crate::adapters::smul;
use crate::bytes::zeros;

verus! {

/// Internal block size of the hash, in bytes; the generator transcript pads
/// the tag and the password to a multiple of it.
pub const BLOCK_BYTES: usize = 128;

/// Length of the domain-separation tag, in bytes.
pub const DSI_BYTES: usize = 19;

/// The domain-separation tag `"CPaceRistretto255-1"`, as bytes. The protocol
/// uses this one tag both for the generator derivation and for the final key
/// confirmation.
pub open spec fn dsi() -> Seq<u8> {
    seq![
        0x43u8,
        0x50u8,
        0x61u8,
        0x63u8,
        0x65u8,
        0x52u8,
        0x69u8,
        0x73u8,
        0x74u8,
        0x72u8,
        0x65u8,
        0x74u8,
        0x74u8,
        0x6fu8,
        0x32u8,
        0x35u8,
        0x35u8,
        0x2du8,
        0x31u8,
    ]
}

/// How many zero bytes follow the password, so that tag, password and
/// padding together end exactly at a block boundary.
pub open spec fn pad_len(password_len: int) -> int {
    (BLOCK_BYTES - ((DSI_BYTES + password_len) % (BLOCK_BYTES as int))) % (BLOCK_BYTES as int)
}

/// The associated data a caller handed in, or empty bytes when it passed
/// none.
pub open spec fn ad_bytes(ad: Option<&[u8]>) -> Seq<u8> {
    match ad {
        Some(a) => a@,
        None => Seq::<u8>::empty(),
    }
}

/// The exact byte sequence the generator derivation hashes: tag, password,
/// zero padding to a block boundary, session id, each identity prefixed by
/// its length in one byte, then the associated data raw.
pub open spec fn generator_input(
    password: Seq<u8>,
    session_id: Seq<u8>,
    id_a: Seq<u8>,
    id_b: Seq<u8>,
    ad: Seq<u8>,
) -> Seq<u8> {
    dsi() + password + zeros(pad_len(password.len() as int)) + session_id + seq![
        id_a.len() as u8,
    ] + id_a + seq![id_b.len() as u8] + id_b + ad
}

/// The generator: the digest of the transcript, mapped uniformly onto the
/// group. Deterministic in all five inputs.
pub open spec fn generator_of(
    password: Seq<u8>,
    session_id: Seq<u8>,
    id_a: Seq<u8>,
    id_b: Seq<u8>,
    ad: Seq<u8>,
) -> Seq<u8> {
    element_from_uniform(sha512_of(generator_input(password, session_id, id_a, id_b, ad)))
}

/// The exact byte sequence the key-confirmation hash consumes: tag, the
/// combined Diffie-Hellman element, then the two public elements in fixed
/// role order, initiator first.
pub open spec fn confirm_input(k: Seq<u8>, ya: Seq<u8>, yb: Seq<u8>) -> Seq<u8> {
    dsi() + k + ya + yb
}

/// The first derived key: the first half of the confirmation digest.
pub open spec fn key1_of(k: Seq<u8>, ya: Seq<u8>, yb: Seq<u8>) -> Seq<u8> {
    sha512_of(confirm_input(k, ya, yb)).subrange(0, 32)
}

/// The second derived key: the second half of the confirmation digest.
pub open spec fn key2_of(k: Seq<u8>, ya: Seq<u8>, yb: Seq<u8>) -> Seq<u8> {
    sha512_of(confirm_input(k, ya, yb)).subrange(32, 64)
}

/// The first key of a completed run over generator `g` with the initiator's
/// scalar `ra` and the responder's scalar `rb`: both roles derive this one
/// value.
pub open spec fn session_key1(g: Seq<u8>, ra: Seq<u8>, rb: Seq<u8>) -> Seq<u8> {
    key1_of(smul(smul(g, ra), rb), smul(g, ra), smul(g, rb))
}

/// The second key of a completed run, the counterpart of `session_key1`.
pub open spec fn session_key2(g: Seq<u8>, ra: Seq<u8>, rb: Seq<u8>) -> Seq<u8> {
    key2_of(smul(smul(g, ra), rb), smul(g, ra), smul(g, rb))
}

} // verus!
