//! Verified construction of the two byte sequences the protocol hashes: the
//! generator transcript and the key-confirmation transcript.

use vstd::prelude::*;

use crate::bytes::append_bytes;
use crate::bytes::append_zeros;
use crate::bytes::zeros;
use crate::model::ad_bytes;
use crate::model::confirm_input;
use crate::model::dsi;
use crate::model::generator_input;
use crate::model::pad_len;
use crate::model::BLOCK_BYTES;
use crate::model::DSI_BYTES;
use vstd::arithmetic::div_mod::lemma_add_mod_noop;

verus! {

/// Appends the domain-separation tag `"CPaceRistretto255-1"`.
fn append_dsi(out: &mut Vec<u8>)
    ensures
        final(out)@ == old(out)@ + dsi(),
{
    out.push(0x43);
    out.push(0x50);
    out.push(0x61);
    out.push(0x63);
    out.push(0x65);
    out.push(0x52);
    out.push(0x69);
    out.push(0x73);
    out.push(0x74);
    out.push(0x72);
    out.push(0x65);
    out.push(0x74);
    out.push(0x74);
    out.push(0x6f);
    out.push(0x32);
    out.push(0x35);
    out.push(0x35);
    out.push(0x2d);
    out.push(0x31);
    proof {
        assert(out@ =~= old(out)@ + dsi());
    }
}

/// Computes how many zero bytes pad the tag and the password to a block
/// boundary, without overflowing on any password length.
fn compute_pad_len(password_len: usize) -> (r: usize)
    ensures
        r as int == pad_len(password_len as int),
        r < BLOCK_BYTES,
{
    let rem = (DSI_BYTES + password_len % BLOCK_BYTES) % BLOCK_BYTES;
    proof {
        lemma_add_mod_noop(DSI_BYTES as int, password_len as int, BLOCK_BYTES as int);
    }
    (BLOCK_BYTES - rem) % BLOCK_BYTES
}

/// Builds the generator transcript: tag, password, zero padding to a block
/// boundary, session id, the two identities each preceded by its length in
/// one byte, then the associated data raw and last.
pub(crate) fn build_generator_input(
    password: &[u8],
    session_id: &[u8; 16],
    id_a: &[u8],
    id_b: &[u8],
    ad: Option<&[u8]>,
) -> (v: Vec<u8>)
    requires
        id_a@.len() <= 255,
        id_b@.len() <= 255,
    ensures
        v@ == generator_input(password@, session_id@, id_a@, id_b@, ad_bytes(ad)),
{
    let mut v: Vec<u8> = Vec::new();
    append_dsi(&mut v);
    append_bytes(&mut v, password);
    let pad = compute_pad_len(password.len());
    append_zeros(&mut v, pad);
    append_bytes(&mut v, session_id.as_slice());
    v.push(id_a.len() as u8);
    append_bytes(&mut v, id_a);
    v.push(id_b.len() as u8);
    append_bytes(&mut v, id_b);
    match ad {
        Some(a) => append_bytes(&mut v, a),
        None => (),
    }
    proof {
        assert(v@ =~= generator_input(password@, session_id@, id_a@, id_b@, ad_bytes(ad)));
    }
    v
}

/// Builds the key-confirmation transcript: tag, the combined Diffie-Hellman
/// element, then the two public elements in fixed role order.
pub(crate) fn build_confirm_input(k: &[u8; 32], ya: &[u8; 32], yb: &[u8; 32]) -> (v: Vec<u8>)
    ensures
        v@ == confirm_input(k@, ya@, yb@),
{
    let mut v: Vec<u8> = Vec::new();
    append_dsi(&mut v);
    append_bytes(&mut v, k.as_slice());
    append_bytes(&mut v, ya.as_slice());
    append_bytes(&mut v, yb.as_slice());
    proof {
        assert(v@ =~= confirm_input(k@, ya@, yb@));
    }
    v
}

} // verus!
