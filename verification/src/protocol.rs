//! The two-message protocol: context creation, the initiating role's two
//! steps, and the responding role's single step.

use vstd::prelude::*;

use crate::adapters::decompresses;
use crate::adapters::element_is_valid;
use crate::adapters::fill_random;
use crate::adapters::mul_element;
use crate::adapters::point_from_uniform;
use crate::adapters::scalar_from_uniform;
use crate::adapters::sha512;
use crate::adapters::smul;
use crate::bytes::append_zeros;
use crate::bytes::concat_16_32;
use crate::bytes::read_array;
use crate::errors::Error;
use crate::model::ad_bytes;
use crate::model::generator_of;
use crate::model::key1_of;
use crate::model::key2_of;
use crate::model::session_key1;
use crate::model::session_key2;
use crate::transcript::build_confirm_input;
use crate::transcript::build_generator_input;
use vstd::string::StringSliceAdditionalSpecFns;

verus! {

/// The two 32-byte secrets a completed run hands to the caller.
#[derive(Debug, Copy, Clone)]
pub struct SharedKeys {
    pub k1: [u8; 32],
    pub k2: [u8; 32],
}

/// One run's state on the initiating side: the session id it drew, its own
/// public element and the private scalar. The scalar never leaves this
/// struct.
#[derive(Debug, Clone)]
pub struct CPace {
    session_id: [u8; 16],
    p: [u8; 32],
    r: [u8; 32],
}

/// What the initiating role's first step yields: the retained context and
/// the first wire packet.
pub struct Step1Out {
    ctx: CPace,
    step1_packet: [u8; 48],
}

/// What the responding role's single step yields: the derived keys and the
/// second wire packet, produced atomically.
pub struct Step2Out {
    shared_keys: SharedKeys,
    step2_packet: [u8; 32],
}

impl CPace {
    /// The session id this context was created with.
    pub closed spec fn spec_session_id(&self) -> Seq<u8> {
        self.session_id@
    }

    /// The encoding of this side's public element.
    pub closed spec fn spec_element(&self) -> Seq<u8> {
        self.p@
    }

    /// The encoding of this side's private scalar.
    pub closed spec fn spec_scalar(&self) -> Seq<u8> {
        self.r@
    }

    /// A context is well formed when its element is the generator of its run
    /// raised by its own scalar, and validly encoded.
    pub open spec fn wf(&self, password: Seq<u8>, id_a: Seq<u8>, id_b: Seq<u8>, ad: Seq<u8>) -> bool {
        &&& self.spec_element() == smul(
            generator_of(password, self.spec_session_id(), id_a, id_b, ad),
            self.spec_scalar(),
        )
        &&& decompresses(self.spec_element())
    }

    /// Derives the generator for the given inputs, draws a fresh scalar and
    /// computes this side's public element.
    fn new(
        session_id: [u8; 16],
        password: &str,
        id_a: &str,
        id_b: &str,
        ad: Option<&[u8]>,
    ) -> (res: Result<CPace, Error>)
        ensures
            res matches Ok(ctx) ==> {
                &&& ctx.spec_session_id() == session_id@
                &&& ctx.wf(password.spec_bytes(), id_a.spec_bytes(), id_b.spec_bytes(), ad_bytes(ad))
            },
            (res matches Err(e) && e is Overflow) <==> (id_a.spec_bytes().len() > 255
                || id_b.spec_bytes().len() > 255),
            res matches Err(e) ==> e is Overflow || e is Random,
    {
        let id_a_bytes = id_a.as_bytes();
        let id_b_bytes = id_b.as_bytes();
        if id_a_bytes.len() > 255 || id_b_bytes.len() > 255 {
            return Err(Error::Overflow("Identifiers must be at most 255 bytes long"));
        }
        let input = build_generator_input(
            password.as_bytes(),
            &session_id,
            id_a_bytes,
            id_b_bytes,
            ad,
        );
        let h = sha512(&input);
        let gen = point_from_uniform(&h);
        let mut seed: Vec<u8> = Vec::new();
        append_zeros(&mut seed, 64);
        match fill_random(&mut seed) {
            Ok(_) => (),
            Err(e) => {
                return Err(Error::Random(e));
            },
        }
        let seed_arr: [u8; 64] = read_array::<64>(seed.as_slice(), 0);
        let r = scalar_from_uniform(&seed_arr);
        let p = mul_element(&gen, &r);
        Ok(CPace { session_id, p, r })
    }

    /// The initiating role's first step: draws a fresh session id, derives
    /// the generator and an ephemeral pair, and emits the first packet,
    /// session id followed by this side's public element.
    pub fn step1(password: &str, id_a: &str, id_b: &str, ad: Option<&[u8]>) -> (res: Result<
        Step1Out,
        Error,
    >)
        ensures
            res matches Ok(out) ==> {
                &&& out.spec_ctx().wf(
                    password.spec_bytes(),
                    id_a.spec_bytes(),
                    id_b.spec_bytes(),
                    ad_bytes(ad),
                )
                &&& out.spec_ctx().spec_session_id().len() == 16
                &&& out.spec_ctx().spec_element().len() == 32
                &&& out.spec_packet() == out.spec_ctx().spec_session_id()
                    + out.spec_ctx().spec_element()
            },
            res is Ok ==> id_a.spec_bytes().len() <= 255 && id_b.spec_bytes().len() <= 255,
            (res matches Err(e) && e is Overflow) ==> (id_a.spec_bytes().len() > 255
                || id_b.spec_bytes().len() > 255),
            res matches Err(e) ==> e is Overflow || e is Random,
    {
        let mut sid: Vec<u8> = Vec::new();
        append_zeros(&mut sid, 16);
        match fill_random(&mut sid) {
            Ok(_) => (),
            Err(e) => {
                return Err(Error::Random(e));
            },
        }
        let session_id: [u8; 16] = read_array::<16>(sid.as_slice(), 0);
        let ctx = CPace::new(session_id, password, id_a, id_b, ad)?;
        let step1_packet = concat_16_32(&ctx.session_id, &ctx.p);
        Ok(Step1Out { ctx, step1_packet })
    }

    /// The responding role's single step: reads the session id and the
    /// initiator's element from the first packet, derives the generator and
    /// its own ephemeral pair, validates the received element, and emits the
    /// second packet together with the derived keys.
    ///
    /// On success there is a responder scalar `rb` such that the emitted
    /// element is the generator raised by `rb` and the keys are derived, in
    /// fixed role order, from the received element raised by `rb`. Whenever
    /// the received element is the generator raised by some scalar `ra` —
    /// which is what the initiating role sends — the keys are exactly the
    /// session keys of `(generator, ra, rb)`, the same values the
    /// initiator's final step ensures: the two roles agree.
    pub fn step2(
        step1_packet: &[u8; 48],
        password: &str,
        id_a: &str,
        id_b: &str,
        ad: Option<&[u8]>,
    ) -> (res: Result<Step2Out, Error>)
        ensures
            res matches Ok(out) ==> {
                let g = generator_of(
                    password.spec_bytes(),
                    step1_packet@.subrange(0, 16),
                    id_a.spec_bytes(),
                    id_b.spec_bytes(),
                    ad_bytes(ad),
                );
                let ya = step1_packet@.subrange(16, 48);
                &&& decompresses(ya)
                &&& decompresses(out.spec_packet())
                &&& exists|rb: Seq<u8>|
                    {
                        &&& out.spec_packet() == #[trigger] smul(g, rb)
                        &&& out.spec_keys().k1@ == key1_of(smul(ya, rb), ya, smul(g, rb))
                        &&& out.spec_keys().k2@ == key2_of(smul(ya, rb), ya, smul(g, rb))
                        &&& forall|ra: Seq<u8>|
                            ya == #[trigger] smul(g, ra) ==> out.spec_keys().k1@ == session_key1(
                                g,
                                ra,
                                rb,
                            ) && out.spec_keys().k2@ == session_key2(g, ra, rb)
                    }
            },
            (res matches Err(e) && e is Overflow) <==> (id_a.spec_bytes().len() > 255
                || id_b.spec_bytes().len() > 255),
            res matches Err(e) && e is InvalidPublicKey ==> !decompresses(
                step1_packet@.subrange(16, 48),
            ),
            res is Ok ==> id_a.spec_bytes().len() <= 255 && id_b.spec_bytes().len() <= 255,
    {
        let session_id: [u8; 16] = read_array::<16>(step1_packet.as_slice(), 0);
        let ya: [u8; 32] = read_array::<32>(step1_packet.as_slice(), 16);
        let ctx = CPace::new(session_id, password, id_a, id_b, ad)?;
        if !element_is_valid(&ya) {
            return Err(Error::InvalidPublicKey);
        }
        let shared_keys = ctx.finalize(&ya, &ya, &ctx.p);
        let out = Step2Out { shared_keys, step2_packet: ctx.p };
        proof {
            assert(session_id@ =~= step1_packet@.subrange(0, 16));
            assert(ya@ =~= step1_packet@.subrange(16, 48));
        }
        Ok(out)
    }

    /// The initiating role's final step: validates the responder's element
    /// and derives the keys, treating its own stored element as the
    /// initiator's and the received one as the responder's.
    ///
    /// On success the keys are derived, in fixed role order, from the
    /// received element raised by this context's scalar. Whenever the
    /// received element is this run's generator raised by some scalar `rb` —
    /// which is what the responding role sends — the keys are exactly the
    /// session keys of `(generator, ra, rb)`, the same values the
    /// responder's step ensures: the two roles agree.
    pub fn step3(&self, step2_packet: &[u8; 32]) -> (res: Result<SharedKeys, Error>)
        ensures
            res is Ok <==> decompresses(step2_packet@),
            res matches Ok(keys) ==> {
                &&& keys.k1@ == key1_of(
                    smul(step2_packet@, self.spec_scalar()),
                    self.spec_element(),
                    step2_packet@,
                )
                &&& keys.k2@ == key2_of(
                    smul(step2_packet@, self.spec_scalar()),
                    self.spec_element(),
                    step2_packet@,
                )
                &&& forall|g: Seq<u8>, rb: Seq<u8>|
                    step2_packet@ == #[trigger] smul(g, rb) && self.spec_element() == smul(
                        g,
                        self.spec_scalar(),
                    ) ==> keys.k1@ == session_key1(g, self.spec_scalar(), rb) && keys.k2@
                        == session_key2(g, self.spec_scalar(), rb)
            },
            res matches Err(e) ==> e is InvalidPublicKey,
    {
        if !element_is_valid(step2_packet) {
            return Err(Error::InvalidPublicKey);
        }
        Ok(self.finalize(step2_packet, &self.p, step2_packet))
    }

    /// Hashes the combined element with both public elements in fixed role
    /// order and splits the digest into the two keys.
    fn finalize(&self, op: &[u8; 32], ya: &[u8; 32], yb: &[u8; 32]) -> (keys: SharedKeys)
        requires
            decompresses(op@),
        ensures
            keys.k1@ == key1_of(smul(op@, self.spec_scalar()), ya@, yb@),
            keys.k2@ == key2_of(smul(op@, self.spec_scalar()), ya@, yb@),
            forall|g: Seq<u8>, t: Seq<u8>|
                op@ == #[trigger] smul(g, t) ==> keys.k1@ == key1_of(
                    smul(smul(g, self.spec_scalar()), t),
                    ya@,
                    yb@,
                ) && keys.k2@ == key2_of(smul(smul(g, self.spec_scalar()), t), ya@, yb@),
    {
        let k = mul_element(op, &self.r);
        let input = build_confirm_input(&k, ya, yb);
        let h = sha512(&input);
        let k1: [u8; 32] = read_array::<32>(h.as_slice(), 0);
        let k2: [u8; 32] = read_array::<32>(h.as_slice(), 32);
        SharedKeys { k1, k2 }
    }
}

impl Step1Out {
    /// The retained context of this run.
    pub closed spec fn spec_ctx(&self) -> CPace {
        self.ctx
    }

    /// The bytes of the first wire packet.
    pub closed spec fn spec_packet(&self) -> Seq<u8> {
        self.step1_packet@
    }

    /// The first wire packet: session id followed by the initiator's public
    /// element.
    pub fn packet(&self) -> (r: [u8; 48])
        ensures
            r@ == self.spec_packet(),
    {
        self.step1_packet
    }

    /// The initiating role's final step on the retained context.
    pub fn step3(&self, step2_packet: &[u8; 32]) -> (res: Result<SharedKeys, Error>)
        ensures
            res is Ok <==> decompresses(step2_packet@),
            res matches Ok(keys) ==> {
                &&& keys.k1@ == key1_of(
                    smul(step2_packet@, self.spec_ctx().spec_scalar()),
                    self.spec_ctx().spec_element(),
                    step2_packet@,
                )
                &&& keys.k2@ == key2_of(
                    smul(step2_packet@, self.spec_ctx().spec_scalar()),
                    self.spec_ctx().spec_element(),
                    step2_packet@,
                )
                &&& forall|g: Seq<u8>, rb: Seq<u8>|
                    step2_packet@ == #[trigger] smul(g, rb) && self.spec_ctx().spec_element()
                        == smul(g, self.spec_ctx().spec_scalar()) ==> keys.k1@ == session_key1(
                        g,
                        self.spec_ctx().spec_scalar(),
                        rb,
                    ) && keys.k2@ == session_key2(g, self.spec_ctx().spec_scalar(), rb)
            },
            res matches Err(e) ==> e is InvalidPublicKey,
    {
        self.ctx.step3(step2_packet)
    }
}

impl Step2Out {
    /// The keys this run derived.
    pub closed spec fn spec_keys(&self) -> SharedKeys {
        self.shared_keys
    }

    /// The bytes of the second wire packet.
    pub closed spec fn spec_packet(&self) -> Seq<u8> {
        self.step2_packet@
    }

    /// The derived shared keys.
    pub fn shared_keys(&self) -> (r: SharedKeys)
        ensures
            r == self.spec_keys(),
    {
        self.shared_keys
    }

    /// The second wire packet: the responder's public element.
    pub fn packet(&self) -> (r: [u8; 32])
        ensures
            r@ == self.spec_packet(),
    {
        self.step2_packet
    }
}

} // verus!
