use vstd::prelude::*;
use crate::bytes::{bytes_eq, copy_bytes, zeroize};
use crate::chain::HandshakeState;
use crate::primitives::{encaps_outcome, KeyedHash, Kem};

verus! {

/// Fixed values that replace every source of randomness of one handshake,
/// together with the values the chain is expected to take.
pub struct TestVector {
    pub eski: Vec<u8>,
    pub epki: Vec<u8>,
    pub sidi: u32,
    pub sidr: u32,
    pub biscuit_nonce: Vec<u8>,
    pub shk1: Vec<u8>,
    pub sctr: Vec<u8>,
    pub shk2: Vec<u8>,
    pub ecti: Vec<u8>,
    pub shk3: Vec<u8>,
    pub scti: Vec<u8>,
    /// Expected chaining keys, each under the label of the step after which
    /// it is taken.
    pub expected_chaining_keys: Vec<(String, Vec<u8>)>,
    pub expected_osk: Vec<u8>,
}

impl TestVector {
    /// No two expected chaining keys share a label.
    pub open spec fn wf(&self) -> bool {
        forall|i: int, j: int|
            0 <= i < j < self.expected_chaining_keys@.len() ==> #[trigger] self.expected_chaining_keys@[i].0@
                != #[trigger] self.expected_chaining_keys@[j].0@
    }

    pub fn new(
        eski: Vec<u8>,
        epki: Vec<u8>,
        sidi: u32,
        sidr: u32,
        shk1: Vec<u8>,
        sctr: Vec<u8>,
        shk2: Vec<u8>,
        ecti: Vec<u8>,
        shk3: Vec<u8>,
        scti: Vec<u8>,
        biscuit_nonce: Vec<u8>,
        expected_chaining_keys: Vec<(String, Vec<u8>)>,
        expected_osk: Vec<u8>,
    ) -> (r: Self)
        ensures
            r.eski == eski && r.epki == epki,
            r.sidi == sidi && r.sidr == sidr,
            r.shk1 == shk1 && r.sctr == sctr,
            r.shk2 == shk2 && r.ecti == ecti,
            r.shk3 == shk3 && r.scti == scti,
            r.biscuit_nonce == biscuit_nonce,
            r.expected_chaining_keys == expected_chaining_keys,
            r.expected_osk == expected_osk,
    {
        TestVector {
            eski,
            epki,
            sidi,
            sidr,
            biscuit_nonce,
            shk1,
            sctr,
            shk2,
            ecti,
            shk3,
            scti,
            expected_chaining_keys,
            expected_osk,
        }
    }
}

/// The expected chaining key recorded under `label`, if any (the first, in a
/// vector whose labels are not unique).
pub open spec fn expected_for(keys: Seq<(String, Vec<u8>)>, label: Seq<char>) -> Option<Seq<u8>>
    decreases keys.len(),
{
    if keys.len() == 0 {
        None
    } else if keys[0].0@ == label {
        Some(keys[0].1@)
    } else {
        expected_for(keys.drop_first(), label)
    }
}

/// The randomness strategy of a handshake: live where it holds no test
/// vector, fixed to the vector's values where it holds one.
pub struct TestHarness {
    pub test_vector: Option<TestVector>,
}

/// Mixes either the fixed shared secret and ciphertext, or those of a live
/// encapsulation against `pk`, in the order public key, secret, ciphertext.
fn overwrite_ct_and_mix<H: KeyedHash, K: Kem>(
    h: &H,
    kem: &K,
    fixed: Option<(&Vec<u8>, &Vec<u8>)>,
    core: &mut HandshakeState,
    ct: &mut Vec<u8>,
    pk: &[u8],
)
    requires
        old(core).wf::<H>(),
    ensures
        final(core).wf::<H>(),
        ({
            let n = old(core).transcript@.len() as int;
            &&& final(core).transcript@ == old(core).transcript@.push(pk@).push(
                final(core).transcript@[n + 1],
            ).push(final(ct)@)
            &&& match fixed {
                Some((shk, fct)) => final(core).transcript@[n + 1] == shk@ && final(ct)@ == fct@,
                None => encaps_outcome::<K>(pk@, final(core).transcript@[n + 1], final(ct)@),
            }
        }),
{
    let ghost t0 = core.transcript@;
    match fixed {
        Some((shk, fct)) => {
            *ct = copy_bytes(fct.as_slice());
            core.mix(h, pk);
            core.mix(h, shk.as_slice());
            core.mix(h, ct.as_slice());
            assert(core.transcript@[t0.len() as int + 1] == shk@);
        },
        None => {
            *ct = core.encaps_and_mix(h, kem, pk);
        },
    }
}

impl TestHarness {
    pub open spec fn wf(&self) -> bool {
        match self.test_vector {
            Some(tv) => tv.wf(),
            None => true,
        }
    }

    /// The initiator's session identifier: the vector's, or the one drawn.
    pub open spec fn pick_sidi(&self, sidi: u32) -> u32 {
        match self.test_vector {
            Some(tv) => tv.sidi,
            None => sidi,
        }
    }

    /// The responder's session identifier: the vector's, or the one drawn.
    pub open spec fn pick_sidr(&self, sidr: u32) -> u32 {
        match self.test_vector {
            Some(tv) => tv.sidr,
            None => sidr,
        }
    }

    pub open spec fn pick_eski(&self, eski: Seq<u8>) -> Seq<u8> {
        match self.test_vector {
            Some(tv) => tv.eski@,
            None => eski,
        }
    }

    pub open spec fn pick_epki(&self, epki: Seq<u8>) -> Seq<u8> {
        match self.test_vector {
            Some(tv) => tv.epki@,
            None => epki,
        }
    }

    pub open spec fn pick_nonce(&self, nonce: Seq<u8>) -> Seq<u8> {
        match self.test_vector {
            Some(tv) => tv.biscuit_nonce@,
            None => nonce,
        }
    }

    /// What the static-KEM step of message 1 mixes: the vector's secret and
    /// ciphertext, or an outcome of a live encapsulation against `pk`.
    pub open spec fn sctr_step<K: Kem>(&self, pk: Seq<u8>, shk: Seq<u8>, ct: Seq<u8>) -> bool {
        match self.test_vector {
            Some(tv) => shk == tv.shk1@ && ct == tv.sctr@,
            None => encaps_outcome::<K>(pk, shk, ct),
        }
    }

    /// The same for the ephemeral-KEM step of message 2.
    pub open spec fn ecti_step<K: Kem>(&self, pk: Seq<u8>, shk: Seq<u8>, ct: Seq<u8>) -> bool {
        match self.test_vector {
            Some(tv) => shk == tv.shk2@ && ct == tv.ecti@,
            None => encaps_outcome::<K>(pk, shk, ct),
        }
    }

    /// The same for the static-KEM step of message 2.
    pub open spec fn scti_step<K: Kem>(&self, pk: Seq<u8>, shk: Seq<u8>, ct: Seq<u8>) -> bool {
        match self.test_vector {
            Some(tv) => shk == tv.shk3@ && ct == tv.scti@,
            None => encaps_outcome::<K>(pk, shk, ct),
        }
    }

    pub fn new() -> (r: Self)
        ensures
            r.wf(),
            r.test_vector is None,
    {
        TestHarness { test_vector: None }
    }

    pub fn with_vector(test_vector: TestVector) -> (r: Self)
        requires
            test_vector.wf(),
        ensures
            r.wf(),
            r.test_vector == Some(test_vector),
    {
        TestHarness { test_vector: Some(test_vector) }
    }

    pub fn overwrite_nonce(&self, n: &mut Vec<u8>)
        ensures
            match self.test_vector {
                Some(tv) => final(n)@ == tv.biscuit_nonce@,
                None => *final(n) == *old(n),
            },
    {
        if let Some(tv) = &self.test_vector {
            *n = copy_bytes(tv.biscuit_nonce.as_slice());
        }
    }

    pub fn overwrite_sidi(&self, sidi: &mut u32)
        ensures
            match self.test_vector {
                Some(tv) => *final(sidi) == tv.sidi,
                None => *final(sidi) == *old(sidi),
            },
    {
        if let Some(tv) = &self.test_vector {
            *sidi = tv.sidi;
        }
    }

    pub fn overwrite_sidr(&self, sidr: &mut u32)
        ensures
            match self.test_vector {
                Some(tv) => *final(sidr) == tv.sidr,
                None => *final(sidr) == *old(sidr),
            },
    {
        if let Some(tv) = &self.test_vector {
            *sidr = tv.sidr;
        }
    }

    pub fn overwrite_ephemeral_keys(&self, eski: &mut Vec<u8>, epki: &mut Vec<u8>)
        ensures
            match self.test_vector {
                Some(tv) => final(eski)@ == tv.eski@ && final(epki)@ == tv.epki@,
                None => *final(eski) == *old(eski) && *final(epki) == *old(epki),
            },
    {
        if let Some(tv) = &self.test_vector {
            zeroize(eski);
            *eski = copy_bytes(tv.eski.as_slice());
            *epki = copy_bytes(tv.epki.as_slice());
        }
    }

    /// The static-KEM step against `spkt` that yields message 1's ciphertext.
    pub fn overwrite_sctr_and_mix<H: KeyedHash, K: Kem>(
        &self,
        h: &H,
        kem: &K,
        core: &mut HandshakeState,
        sctr: &mut Vec<u8>,
        spkt: &[u8],
    )
        requires
            old(core).wf::<H>(),
        ensures
            final(core).wf::<H>(),
            ({
                let n = old(core).transcript@.len() as int;
                &&& final(core).transcript@ == old(core).transcript@.push(spkt@).push(
                    final(core).transcript@[n + 1],
                ).push(final(sctr)@)
                &&& self.sctr_step::<K>(spkt@, final(core).transcript@[n + 1], final(sctr)@)
            }),
    {
        match &self.test_vector {
            Some(tv) => overwrite_ct_and_mix(h, kem, Some((&tv.shk1, &tv.sctr)), core, sctr, spkt),
            None => overwrite_ct_and_mix(h, kem, None, core, sctr, spkt),
        }
    }

    /// The ephemeral-KEM step against `epki` that yields message 2's first ciphertext.
    pub fn overwrite_ecti_and_mix<H: KeyedHash, K: Kem>(
        &self,
        h: &H,
        kem: &K,
        core: &mut HandshakeState,
        ecti: &mut Vec<u8>,
        epki: &[u8],
    )
        requires
            old(core).wf::<H>(),
        ensures
            final(core).wf::<H>(),
            ({
                let n = old(core).transcript@.len() as int;
                &&& final(core).transcript@ == old(core).transcript@.push(epki@).push(
                    final(core).transcript@[n + 1],
                ).push(final(ecti)@)
                &&& self.ecti_step::<K>(epki@, final(core).transcript@[n + 1], final(ecti)@)
            }),
    {
        match &self.test_vector {
            Some(tv) => overwrite_ct_and_mix(h, kem, Some((&tv.shk2, &tv.ecti)), core, ecti, epki),
            None => overwrite_ct_and_mix(h, kem, None, core, ecti, epki),
        }
    }

    /// The static-KEM step against `spkt` that yields message 2's second ciphertext.
    pub fn overwrite_scti_and_mix<H: KeyedHash, K: Kem>(
        &self,
        h: &H,
        kem: &K,
        core: &mut HandshakeState,
        scti: &mut Vec<u8>,
        spkt: &[u8],
    )
        requires
            old(core).wf::<H>(),
        ensures
            final(core).wf::<H>(),
            ({
                let n = old(core).transcript@.len() as int;
                &&& final(core).transcript@ == old(core).transcript@.push(spkt@).push(
                    final(core).transcript@[n + 1],
                ).push(final(scti)@)
                &&& self.scti_step::<K>(spkt@, final(core).transcript@[n + 1], final(scti)@)
            }),
    {
        match &self.test_vector {
            Some(tv) => overwrite_ct_and_mix(h, kem, Some((&tv.shk3, &tv.scti)), core, scti, spkt),
            None => overwrite_ct_and_mix(h, kem, None, core, scti, spkt),
        }
    }

    /// Whether the chaining key `ck`, taken after the step `handshake_step_id`,
    /// is the one the vector expects there. Without a vector, or where the
    /// vector expects nothing at that step, it passes.
    pub fn check_chaining_key(&self, ck: &[u8], handshake_step_id: &str) -> (r: bool)
        ensures
            r == match self.test_vector {
                Some(tv) => match expected_for(
                    tv.expected_chaining_keys@,
                    handshake_step_id@,
                ) {
                    Some(e) => e == ck@,
                    None => true,
                },
                None => true,
            },
    {
        match &self.test_vector {
            None => true,
            Some(tv) => {
                let label: String = str::to_owned(handshake_step_id);
                let keys = &tv.expected_chaining_keys;
                let mut i: usize = 0;
                assert(keys@.subrange(0, keys@.len() as int) =~= keys@);
                while i < keys.len()
                    invariant
                        i <= keys@.len(),
                        label@ == handshake_step_id@,
                        keys@ == tv.expected_chaining_keys@,
                        self.test_vector == Some(*tv),
                        expected_for(keys@, label@) == expected_for(
                            keys@.subrange(i as int, keys@.len() as int),
                            label@,
                        ),
                    decreases keys@.len() - i,
                {
                    let entry = &keys[i];
                    proof {
                        let rest = keys@.subrange(i as int, keys@.len() as int);
                        assert(rest.drop_first() =~= keys@.subrange(i as int + 1, keys@.len() as int));
                        assert(rest[0] == keys@[i as int]);
                    }
                    if entry.0.eq(&label) {
                        return bytes_eq(entry.1.as_slice(), ck);
                    }
                    i += 1;
                }
                true
            },
        }
    }

    /// Whether `osk` is the output key the vector expects; true without a vector.
    pub fn check_osk(&self, osk: &[u8]) -> (r: bool)
        ensures
            r == match self.test_vector {
                Some(tv) => tv.expected_osk@ == osk@,
                None => true,
            },
    {
        match &self.test_vector {
            None => true,
            Some(tv) => bytes_eq(tv.expected_osk.as_slice(), osk),
        }
    }
}

} // verus!
