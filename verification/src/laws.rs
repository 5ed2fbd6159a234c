//! Protocol-wide properties, stated and proved over the spec functions the
//! step contracts use.

use vstd::prelude::*;

use crate::adapters::smul;
use crate::errors::Error;
use crate::model::confirm_input;
use crate::model::generator_input;
use crate::model::key1_of;
use crate::model::key2_of;
use crate::model::pad_len;
use crate::model::session_key1;
use crate::model::session_key2;
use crate::protocol::CPace;
use crate::protocol::SharedKeys;
use vstd::string::StringSliceAdditionalSpecFns;

verus! {

/// Agreement, end to end: runs both roles over the same inputs. Whenever a
/// run completes, the initiator's keys equal the responder's — the first
/// ensures clause — and a run only fails on an over-long identity or a
/// failing random source, never in the protocol itself: the emitted packets
/// always validate on the peer's side.
pub fn complete_run(password: &str, id_a: &str, id_b: &str, ad: Option<&[u8]>) -> (res: Result<
    (SharedKeys, SharedKeys),
    Error,
>)
    ensures
        res matches Ok((initiator, responder)) ==> initiator.k1@ == responder.k1@
            && initiator.k2@ == responder.k2@,
        res matches Err(e) ==> e is Overflow || e is Random,
        (res matches Err(e) && e is Overflow) ==> (id_a.spec_bytes().len() > 255
            || id_b.spec_bytes().len() > 255),
{
    let client = match CPace::step1(password, id_a, id_b, ad) {
        Ok(c) => c,
        Err(e) => {
            return Err(e);
        },
    };
    let step1_packet = client.packet();
    proof {
        assert(step1_packet@.subrange(0, 16) =~= client.spec_ctx().spec_session_id());
        assert(step1_packet@.subrange(16, 48) =~= client.spec_ctx().spec_element());
    }
    let server = match CPace::step2(&step1_packet, password, id_a, id_b, ad) {
        Ok(s) => s,
        Err(e) => {
            proof {
                assert(!(e is InvalidPublicKey));
            }
            return Err(e);
        },
    };
    let step2_packet = server.packet();
    let initiator_keys = match client.step3(&step2_packet) {
        Ok(k) => k,
        Err(_) => {
            proof {
                assert(false);
            }
            return Err(Error::InvalidPublicKey);
        },
    };
    let responder_keys = server.shared_keys();
    Ok((initiator_keys, responder_keys))
}

/// Agreement: the session keys — the values the initiator's final step
/// ensures — are exactly what the responder's derivation yields when the
/// element it received is the generator raised by the initiator's scalar.
/// Together with the step contracts, a completed run gives both roles the
/// same `k1` and the same `k2`.
pub proof fn lemma_agreement(g: Seq<u8>, ra: Seq<u8>, rb: Seq<u8>)
    ensures
        session_key1(g, ra, rb) == key1_of(smul(smul(g, ra), rb), smul(g, ra), smul(g, rb)),
        session_key2(g, ra, rb) == key2_of(smul(smul(g, ra), rb), smul(g, ra), smul(g, rb)),
{
}

/// Role-order sensitivity: whenever the two public elements differ, feeding
/// them to the key confirmation in swapped order changes the hashed
/// transcript. The derived keys then only collide if the hash does.
pub proof fn lemma_role_order_sensitivity(k: Seq<u8>, ya: Seq<u8>, yb: Seq<u8>)
    requires
        ya.len() == 32,
        yb.len() == 32,
        ya != yb,
    ensures
        confirm_input(k, ya, yb) != confirm_input(k, yb, ya),
{
    lemma_diff_index(ya, yb);
    let i = choose|i: int| 0 <= i < 32 && ya[i] != yb[i];
    let off = 19 + k.len() + i;
    assert(confirm_input(k, ya, yb)[off] == ya[i]);
    assert(confirm_input(k, yb, ya)[off] == yb[i]);
}

/// Two sequences of equal length that differ, differ at some index.
proof fn lemma_diff_index(a: Seq<u8>, b: Seq<u8>)
    requires
        a.len() == b.len(),
        a != b,
    ensures
        exists|i: int| 0 <= i < a.len() && a[i] != b[i],
{
    if forall|i: int| 0 <= i < a.len() ==> a[i] == b[i] {
        assert(a =~= b);
    }
}

/// Distinct passwords of equal length give distinct generator transcripts:
/// the zero padding then has the same length on both sides, and the two
/// transcripts differ inside the password field. (Passwords of different
/// lengths are not covered: the padding is not a length prefix, so a
/// password and the same password extended by zero bytes within one block
/// produce the same transcript.)
pub proof fn lemma_distinct_passwords(
    pw1: Seq<u8>,
    pw2: Seq<u8>,
    sid: Seq<u8>,
    id_a: Seq<u8>,
    id_b: Seq<u8>,
    ad: Seq<u8>,
)
    requires
        pw1.len() == pw2.len(),
        pw1 != pw2,
    ensures
        generator_input(pw1, sid, id_a, id_b, ad) != generator_input(pw2, sid, id_a, id_b, ad),
{
    lemma_diff_index(pw1, pw2);
    let i = choose|i: int| 0 <= i < pw1.len() && pw1[i] != pw2[i];
    assert(generator_input(pw1, sid, id_a, id_b, ad)[19 + i] == pw1[i]);
    assert(generator_input(pw2, sid, id_a, id_b, ad)[19 + i] == pw2[i]);
}

/// Distinct initiator identities of equal length give distinct generator
/// transcripts.
pub proof fn lemma_distinct_id_a(
    password: Seq<u8>,
    sid: Seq<u8>,
    ida1: Seq<u8>,
    ida2: Seq<u8>,
    id_b: Seq<u8>,
    ad: Seq<u8>,
)
    requires
        ida1.len() == ida2.len(),
        ida1 != ida2,
    ensures
        generator_input(password, sid, ida1, id_b, ad) != generator_input(
            password,
            sid,
            ida2,
            id_b,
            ad,
        ),
{
    lemma_diff_index(ida1, ida2);
    let i = choose|i: int| 0 <= i < ida1.len() && ida1[i] != ida2[i];
    let off = 19 + password.len() + pad_len(password.len() as int) + sid.len() + 1 + i;
    assert(generator_input(password, sid, ida1, id_b, ad)[off] == ida1[i]);
    assert(generator_input(password, sid, ida2, id_b, ad)[off] == ida2[i]);
}

/// Distinct responder identities of equal length give distinct generator
/// transcripts.
pub proof fn lemma_distinct_id_b(
    password: Seq<u8>,
    sid: Seq<u8>,
    id_a: Seq<u8>,
    idb1: Seq<u8>,
    idb2: Seq<u8>,
    ad: Seq<u8>,
)
    requires
        idb1.len() == idb2.len(),
        idb1 != idb2,
    ensures
        generator_input(password, sid, id_a, idb1, ad) != generator_input(
            password,
            sid,
            id_a,
            idb2,
            ad,
        ),
{
    lemma_diff_index(idb1, idb2);
    let i = choose|i: int| 0 <= i < idb1.len() && idb1[i] != idb2[i];
    let off = 19 + password.len() + pad_len(password.len() as int) + sid.len() + 1 + id_a.len() + 1
        + i;
    assert(generator_input(password, sid, id_a, idb1, ad)[off] == idb1[i]);
    assert(generator_input(password, sid, id_a, idb2, ad)[off] == idb2[i]);
}

/// Distinct associated data gives distinct generator transcripts: the field
/// is hashed last, so two transcripts equal elsewhere differ in length or
/// inside it.
pub proof fn lemma_distinct_ad(
    password: Seq<u8>,
    sid: Seq<u8>,
    id_a: Seq<u8>,
    id_b: Seq<u8>,
    ad1: Seq<u8>,
    ad2: Seq<u8>,
)
    requires
        ad1 != ad2,
    ensures
        generator_input(password, sid, id_a, id_b, ad1) != generator_input(
            password,
            sid,
            id_a,
            id_b,
            ad2,
        ),
{
    let t1 = generator_input(password, sid, id_a, id_b, ad1);
    let t2 = generator_input(password, sid, id_a, id_b, ad2);
    if ad1.len() != ad2.len() {
        assert(t1.len() != t2.len());
    } else {
        lemma_diff_index(ad1, ad2);
        let i = choose|i: int| 0 <= i < ad1.len() && ad1[i] != ad2[i];
        let off = 19 + password.len() + pad_len(password.len() as int) + sid.len() + 1
            + id_a.len() + 1 + id_b.len() + i;
        assert(t1[off] == ad1[i]);
        assert(t2[off] == ad2[i]);
    }
}

/// Distinct session ids give distinct generator transcripts: with all other
/// inputs equal, two runs whose 16-byte session ids differ hash different
/// byte sequences, so their generators only collide if hash-to-group does.
pub proof fn lemma_distinct_session_ids(
    password: Seq<u8>,
    sid1: Seq<u8>,
    sid2: Seq<u8>,
    id_a: Seq<u8>,
    id_b: Seq<u8>,
    ad: Seq<u8>,
)
    requires
        sid1.len() == 16,
        sid2.len() == 16,
        sid1 != sid2,
    ensures
        generator_input(password, sid1, id_a, id_b, ad) != generator_input(
            password,
            sid2,
            id_a,
            id_b,
            ad,
        ),
{
    lemma_diff_index(sid1, sid2);
    let i = choose|i: int| 0 <= i < 16 && sid1[i] != sid2[i];
    let off = 19 + password.len() + pad_len(password.len() as int) + i;
    assert(generator_input(password, sid1, id_a, id_b, ad)[off] == sid1[i]);
    assert(generator_input(password, sid2, id_a, id_b, ad)[off] == sid2[i]);
}

} // verus!
