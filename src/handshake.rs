use vstd::prelude::*;
use crate::biscuit::{encode_spec, Biscuit, BiscuitKey, ReplayGuard, redeem_spec};
use crate::bytes::{copy_bytes, u32_le, u32_to_le, zeroize};
use crate::chain::{auth_key, chain_of, osk_of, zero_nonce, HandshakeState};
use crate::error::RosenpassError;
use crate::primitives::{Aead, KeyedHash, Kem, NONCE_LEN};
use crate::test_vector::TestHarness;

verus! {

/// The first message: the initiator's session identifier, its ephemeral
/// public key and the static-KEM ciphertext against the responder's key.
#[derive(Debug)]
pub struct InitHello {
    pub sidi: u32,
    pub epki: Vec<u8>,
    pub sctr: Vec<u8>,
    /// Authentication tag under the chain after `sctr`.
    pub auth: Vec<u8>,
}

/// The second message: the responder's session identifier, the initiator's
/// echoed, the two KEM ciphertexts and the biscuit.
#[derive(Debug)]
pub struct RespHello {
    pub sidr: u32,
    pub sidi: u32,
    pub ecti: Vec<u8>,
    pub scti: Vec<u8>,
    pub biscuit: Biscuit,
    /// Authentication tag under the chain after the biscuit.
    pub auth: Vec<u8>,
}

/// The third message: both session identifiers and the echoed biscuit.
#[derive(Debug)]
pub struct InitConf {
    pub sidi: u32,
    pub sidr: u32,
    pub biscuit: Biscuit,
    /// Authentication tag under the chain after the biscuit, proving that
    /// the initiator reached the responder's chain.
    pub auth: Vec<u8>,
}

/// What both parties mix while message 1 is made or read.
pub open spec fn init_items(
    spkr: Seq<u8>,
    sidi: u32,
    epki: Seq<u8>,
    shk1: Seq<u8>,
    sctr: Seq<u8>,
) -> Seq<Seq<u8>> {
    seq![spkr, u32_le(sidi), epki, spkr, shk1, sctr]
}

/// What both parties mix while message 2 is made or read, up to the biscuit.
pub open spec fn resp_items(
    sidr: u32,
    epki: Seq<u8>,
    shk2: Seq<u8>,
    ecti: Seq<u8>,
    spki: Seq<u8>,
    shk3: Seq<u8>,
    scti: Seq<u8>,
) -> Seq<Seq<u8>> {
    seq![u32_le(sidr), epki, shk2, ecti, spki, shk3, scti]
}

/// The chaining key after mixing a biscuit token into `ck`.
pub open spec fn after_biscuit<H: KeyedHash>(ck: Seq<u8>, nonce: Seq<u8>, ct: Seq<u8>) -> Seq<u8> {
    H::hash_spec(H::hash_spec(ck, nonce), ct)
}

/// An initiator's attempt after message 1 was sent.
pub struct InitiatorHandshake {
    pub hs: HandshakeState,
    pub sidi: u32,
    pub eski: Vec<u8>,
    pub epki: Vec<u8>,
}

impl InitiatorHandshake {
    /// Starts an attempt against the responder's static key `spkr` with the
    /// session identifier and ephemeral key pair drawn by the caller (or fixed
    /// by the harness's test vector); returns the attempt and message 1.
    /// Message 1 carries a tag under the chain after its ciphertext.
    pub fn start<H: KeyedHash, SK: Kem, A: Aead>(
        h: &H,
        skem: &SK,
        aead: &A,
        harness: &TestHarness,
        spkr: &[u8],
        sidi: u32,
        eski: Vec<u8>,
        epki: Vec<u8>,
    ) -> (r: (InitiatorHandshake, InitHello))
        ensures
            ({
                let (st, msg) = r;
                {
                    &&& st.hs.wf::<H>()
                    &&& st.sidi == harness.pick_sidi(sidi)
                    &&& st.eski@ == harness.pick_eski(eski@)
                    &&& st.epki@ == harness.pick_epki(epki@)
                    &&& msg.sidi == st.sidi && msg.epki@ == st.epki@
                    &&& st.hs.transcript@ == init_items(
                        spkr@,
                        st.sidi,
                        st.epki@,
                        st.hs.transcript@[4],
                        msg.sctr@,
                    )
                    &&& harness.sctr_step::<SK>(spkr@, st.hs.transcript@[4], msg.sctr@)
                    &&& A::open_spec(auth_key::<H>(st.hs.ck@, 1), zero_nonce(), msg.auth@) == Some(
                        Seq::<u8>::empty(),
                    )
                }
            }),
    {
        let mut sidi = sidi;
        let mut eski = eski;
        let mut epki = epki;
        harness.overwrite_sidi(&mut sidi);
        harness.overwrite_ephemeral_keys(&mut eski, &mut epki);
        let mut hs = HandshakeState::new(h);
        hs.mix(h, spkr);
        let sid = u32_to_le(sidi);
        hs.mix(h, sid.as_slice());
        hs.mix(h, epki.as_slice());
        let mut sctr: Vec<u8> = Vec::new();
        harness.overwrite_sctr_and_mix(h, skem, &mut hs, &mut sctr, spkr);
        assert(hs.transcript@ =~= init_items(spkr@, sidi, epki@, hs.transcript@[4], sctr@));
        let auth = hs.seal_auth(h, aead, 1);
        let msg = InitHello { sidi, epki: copy_bytes(epki.as_slice()), sctr, auth };
        (InitiatorHandshake { hs, sidi, eski, epki }, msg)
    }

    /// Whether every secret the attempt held has been overwritten with zeros.
    pub open spec fn erased(&self) -> bool {
        &&& self.eski@ == Seq::new(self.eski@.len(), |i: int| 0u8)
        &&& self.hs.ck@ == Seq::new(self.hs.ck@.len(), |i: int| 0u8)
    }

    /// Zeroes the ephemeral secret key and the chaining key.
    pub fn destroy(&mut self)
        ensures
            final(self).erased(),
            final(self).sidi == old(self).sidi,
            final(self).eski@.len() == old(self).eski@.len(),
            final(self).hs.ck@.len() == old(self).hs.ck@.len(),
    {
        zeroize(&mut self.eski);
        self.hs.erase();
    }

    /// Reads message 2 with the local static key pair `(sski, spki)`: mixes
    /// the responder's session identifier, decapsulates the ephemeral and then
    /// the static ciphertext, mixes the biscuit, checks the message's tag
    /// under the resulting chain, and returns message 3 with the output key.
    /// Whatever the outcome, the attempt is destroyed.
    pub fn handle_resp_hello<H: KeyedHash, SK: Kem, EK: Kem, A: Aead>(
        &mut self,
        h: &H,
        skem: &SK,
        ekem: &EK,
        aead: &A,
        sski: &[u8],
        spki: &[u8],
        msg: &RespHello,
    ) -> (r: Result<(InitConf, Vec<u8>), RosenpassError>)
        requires
            old(self).hs.wf::<H>(),
        ensures
            final(self).erased(),
            resp_hello_outcome::<H, SK, EK, A>(*old(self), sski@, spki@, *msg, r),
    {
        let r = self.resp_hello_inner(h, skem, ekem, aead, sski, spki, msg);
        self.destroy();
        r
    }

    fn resp_hello_inner<H: KeyedHash, SK: Kem, EK: Kem, A: Aead>(
        &mut self,
        h: &H,
        skem: &SK,
        ekem: &EK,
        aead: &A,
        sski: &[u8],
        spki: &[u8],
        msg: &RespHello,
    ) -> (r: Result<(InitConf, Vec<u8>), RosenpassError>)
        requires
            old(self).hs.wf::<H>(),
        ensures
            final(self).sidi == old(self).sidi,
            resp_hello_outcome::<H, SK, EK, A>(*old(self), sski@, spki@, *msg, r),
    {
        if msg.sidi != self.sidi {
            return Err(RosenpassError::StaleOrUnknownSession);
        }
        let ghost t0 = self.hs.transcript@;
        let sid = u32_to_le(msg.sidr);
        self.hs.mix(h, sid.as_slice());
        self.hs.decaps_and_mix(h, ekem, self.eski.as_slice(), self.epki.as_slice(), msg.ecti.as_slice())?;
        self.hs.decaps_and_mix(h, skem, sski, spki, msg.scti.as_slice())?;
        let ghost t1 = self.hs.transcript@;
        proof {
            let shk2 = EK::decaps_spec(self.eski@, msg.ecti@)->Some_0;
            let shk3 = SK::decaps_spec(sski@, msg.scti@)->Some_0;
            assert(t1 =~= t0 + resp_items(msg.sidr, self.epki@, shk2, msg.ecti@, spki@, shk3, msg.scti@));
        }
        self.hs.mix(h, msg.biscuit.nonce.as_slice());
        self.hs.mix(h, msg.biscuit.ct.as_slice());
        if !self.hs.check_auth(h, aead, 2, msg.auth.as_slice()) {
            return Err(RosenpassError::DecapsulationFailure);
        }
        let osk = self.hs.osk(h);
        let auth = self.hs.seal_auth(h, aead, 3);
        let conf = InitConf {
            sidi: msg.sidi,
            sidr: msg.sidr,
            biscuit: Biscuit {
                nonce: copy_bytes(msg.biscuit.nonce.as_slice()),
                ct: copy_bytes(msg.biscuit.ct.as_slice()),
            },
            auth,
        };
        Ok((conf, osk))
    }
}

/// The initiator's chaining key once it has read message 2, from its chain
/// after message 1 (`t`) and the two shared secrets it decapsulated.
pub open spec fn initiator_ck<H: KeyedHash>(
    t: Seq<Seq<u8>>,
    epki: Seq<u8>,
    spki: Seq<u8>,
    msg: RespHello,
    shk2: Seq<u8>,
    shk3: Seq<u8>,
) -> Seq<u8> {
    after_biscuit::<H>(
        chain_of::<H>(t + resp_items(msg.sidr, epki, shk2, msg.ecti@, spki, shk3, msg.scti@)),
        msg.biscuit.nonce@,
        msg.biscuit.ct@,
    )
}

/// What reading message 2 gives: `StaleOrUnknownSession` where it echoes
/// another session, `DecapsulationFailure` where a ciphertext does not
/// decapsulate or the tag does not open under the resulting chain, and
/// otherwise message 3 with its own tag and the output key of that chain.
pub open spec fn resp_hello_outcome<H: KeyedHash, SK: Kem, EK: Kem, A: Aead>(
    st: InitiatorHandshake,
    sski: Seq<u8>,
    spki: Seq<u8>,
    msg: RespHello,
    r: Result<(InitConf, Vec<u8>), RosenpassError>,
) -> bool {
    if msg.sidi != st.sidi {
        r == Err::<(InitConf, Vec<u8>), RosenpassError>(RosenpassError::StaleOrUnknownSession)
    } else {
        match (EK::decaps_spec(st.eski@, msg.ecti@), SK::decaps_spec(sski, msg.scti@)) {
            (Some(shk2), Some(shk3)) => {
                let ck = initiator_ck::<H>(st.hs.transcript@, st.epki@, spki, msg, shk2, shk3);
                if A::open_spec(auth_key::<H>(ck, 2), zero_nonce(), msg.auth@) is Some {
                    r matches Ok((conf, osk)) && {
                        &&& conf.sidi == msg.sidi && conf.sidr == msg.sidr
                        &&& conf.biscuit.nonce@ == msg.biscuit.nonce@
                        &&& conf.biscuit.ct@ == msg.biscuit.ct@
                        &&& A::open_spec(auth_key::<H>(ck, 3), zero_nonce(), conf.auth@) == Some(
                            Seq::<u8>::empty(),
                        )
                        &&& osk@ == osk_of::<H>(ck)
                    }
                } else {
                    r == Err::<(InitConf, Vec<u8>), RosenpassError>(
                        RosenpassError::DecapsulationFailure,
                    )
                }
            },
            _ => r == Err::<(InitConf, Vec<u8>), RosenpassError>(
                RosenpassError::DecapsulationFailure,
            ),
        }
    }
}

/// Whether message 1's tag opens under the responder's chain after the
/// message's ciphertext.
pub open spec fn init_hello_authentic<H: KeyedHash, SK: Kem, A: Aead>(
    sskr: Seq<u8>,
    msg: InitHello,
) -> bool {
    let ck = chain_of::<H>(
        init_items(
            SK::pk_of(sskr),
            msg.sidi,
            msg.epki@,
            SK::decaps_spec(sskr, msg.sctr@)->Some_0,
            msg.sctr@,
        ),
    );
    A::open_spec(auth_key::<H>(ck, 1), zero_nonce(), msg.auth@) is Some
}

/// The responder's chaining key when it issues the biscuit, given what it
/// received and the shared secrets of its own encapsulations.
pub open spec fn responder_ck<H: KeyedHash, SK: Kem>(
    sskr: Seq<u8>,
    spki: Seq<u8>,
    sidi: u32,
    epki: Seq<u8>,
    sctr: Seq<u8>,
    sidr: u32,
    shk2: Seq<u8>,
    ecti: Seq<u8>,
    shk3: Seq<u8>,
    scti: Seq<u8>,
) -> Seq<u8> {
    chain_of::<H>(
        init_items(SK::pk_of(sskr), sidi, epki, SK::decaps_spec(sskr, sctr)->Some_0, sctr)
            + resp_items(sidr, epki, shk2, ecti, spki, shk3, scti),
    )
}

/// Reads message 1 with the local static key pair `(sskr, SK::pk_of(sskr))`
/// against the initiator's static key `spki`, and answers with message 2
/// under the session identifier `sidr` and the biscuit nonce `nonce`, both
/// drawn by the caller (or fixed by the harness's test vector, as are the
/// two encapsulations). Nothing of the attempt is kept but what the biscuit
/// carries: on every path the chain is zeroed before returning, and no copy
/// of it is made outside the biscuit's sealed plaintext, which is zeroed too.
#[verifier::rlimit(40)]
pub fn handle_init_hello<H: KeyedHash, SK: Kem, EK: Kem, A: Aead>(
    h: &H,
    skem: &SK,
    ekem: &EK,
    aead: &A,
    harness: &TestHarness,
    bkey: &mut BiscuitKey,
    sskr: &[u8],
    spkr: &[u8],
    spki: &[u8],
    msg: &InitHello,
    sidr: u32,
    nonce: &[u8],
) -> (r: Result<RespHello, RosenpassError>)
    requires
        spkr@ == SK::pk_of(sskr@),
        old(bkey).wf(),
        old(bkey).next_seq < u64::MAX,
    ensures
        final(bkey).key == old(bkey).key,
        final(bkey).wf(),
        r is Err ==> final(bkey).next_seq == old(bkey).next_seq,
        harness.pick_nonce(nonce@).len() != NONCE_LEN ==> r == Err::<RespHello, RosenpassError>(
            RosenpassError::BufferSizeMismatch,
        ),
        harness.pick_nonce(nonce@).len() == NONCE_LEN && SK::decaps_spec(sskr@, msg.sctr@) is None ==> r == Err::<RespHello, RosenpassError>(
            RosenpassError::DecapsulationFailure,
        ),
        harness.pick_nonce(nonce@).len() == NONCE_LEN && SK::decaps_spec(sskr@, msg.sctr@) is Some
            && !init_hello_authentic::<H, SK, A>(sskr@, *msg) ==> r == Err::<
            RespHello,
            RosenpassError,
        >(RosenpassError::DecapsulationFailure),
        harness.pick_nonce(nonce@).len() == NONCE_LEN && SK::decaps_spec(sskr@, msg.sctr@) is Some
            && init_hello_authentic::<H, SK, A>(sskr@, *msg) ==> r is Ok,
        match r {
            Ok(m) => {
                &&& SK::decaps_spec(sskr@, msg.sctr@) is Some
                &&& init_hello_authentic::<H, SK, A>(sskr@, *msg)
                &&& m.sidr == harness.pick_sidr(sidr) && m.sidi == msg.sidi
                &&& m.biscuit.nonce@ == harness.pick_nonce(nonce@)
                &&& final(bkey).next_seq == old(bkey).next_seq + 1
                &&& exists|shk2: Seq<u8>, shk3: Seq<u8>|
                    {
                        &&& harness.ecti_step::<EK>(msg.epki@, shk2, m.ecti@)
                        &&& harness.scti_step::<SK>(spki@, shk3, m.scti@)
                        &&& A::open_spec(old(bkey).key@, m.biscuit.nonce@, m.biscuit.ct@) == Some(
                            encode_spec(
                                msg.sidi,
                                m.sidr,
                                old(bkey).next_seq,
                                #[trigger] responder_ck::<H, SK>(
                                    sskr@,
                                    spki@,
                                    msg.sidi,
                                    msg.epki@,
                                    msg.sctr@,
                                    m.sidr,
                                    shk2,
                                    m.ecti@,
                                    shk3,
                                    m.scti@,
                                ),
                            ),
                        )
                        &&& A::open_spec(
                            auth_key::<H>(
                                after_biscuit::<H>(
                                    responder_ck::<H, SK>(
                                        sskr@,
                                        spki@,
                                        msg.sidi,
                                        msg.epki@,
                                        msg.sctr@,
                                        m.sidr,
                                        shk2,
                                        m.ecti@,
                                        shk3,
                                        m.scti@,
                                    ),
                                    m.biscuit.nonce@,
                                    m.biscuit.ct@,
                                ),
                                2,
                            ),
                            zero_nonce(),
                            m.auth@,
                        ) == Some(Seq::<u8>::empty())
                    }
            },
            Err(e) => e == RosenpassError::DecapsulationFailure || e
                == RosenpassError::BufferSizeMismatch,
        },
{
    let mut sidr = sidr;
    harness.overwrite_sidr(&mut sidr);
    let ghost nonce_in = nonce;
    let mut nonce = copy_bytes(nonce);
    harness.overwrite_nonce(&mut nonce);
    if nonce.len() != NONCE_LEN {
        return Err(RosenpassError::BufferSizeMismatch);
    }
    let mut hs = HandshakeState::new(h);
    hs.mix(h, spkr);
    let sid = u32_to_le(msg.sidi);
    hs.mix(h, sid.as_slice());
    hs.mix(h, msg.epki.as_slice());
    if let Err(e) = hs.decaps_and_mix(h, skem, sskr, spkr, msg.sctr.as_slice()) {
        hs.erase();
        return Err(e);
    }
    let ghost t1 = hs.transcript@;
    proof {
        let shk1 = SK::decaps_spec(sskr@, msg.sctr@)->Some_0;
        assert(t1 =~= init_items(spkr@, msg.sidi, msg.epki@, shk1, msg.sctr@));
    }
    if !hs.check_auth(h, aead, 1, msg.auth.as_slice()) {
        hs.erase();
        return Err(RosenpassError::DecapsulationFailure);
    }
    let sid_r = u32_to_le(sidr);
    hs.mix(h, sid_r.as_slice());
    let mut ecti: Vec<u8> = Vec::new();
    harness.overwrite_ecti_and_mix(h, ekem, &mut hs, &mut ecti, msg.epki.as_slice());
    let ghost shk2 = hs.transcript@[t1.len() as int + 2];
    let mut scti: Vec<u8> = Vec::new();
    harness.overwrite_scti_and_mix(h, skem, &mut hs, &mut scti, spki);
    let ghost shk3 = hs.transcript@[t1.len() as int + 5];
    proof {
        let shk1 = SK::decaps_spec(sskr@, msg.sctr@)->Some_0;
        assert(t1 =~= init_items(spkr@, msg.sidi, msg.epki@, shk1, msg.sctr@));
        assert(hs.transcript@ =~= init_items(spkr@, msg.sidi, msg.epki@, shk1, msg.sctr@)
            + resp_items(sidr, msg.epki@, shk2, ecti@, spki@, shk3, scti@));
    }
    assert(hs.ck@ == responder_ck::<H, SK>(
        sskr@, spki@, msg.sidi, msg.epki@, msg.sctr@, sidr, shk2, ecti@, shk3, scti@,
    ));
    let ghost key = bkey.key@;
    let ghost seq = bkey.next_seq;
    let ghost ck = hs.ck@;
    let biscuit = bkey.issue(aead, msg.sidi, sidr, hs.ck.as_slice(), nonce.as_slice());
    assert(A::open_spec(key, biscuit.nonce@, biscuit.ct@) == Some(encode_spec(msg.sidi, sidr, seq, ck)));
    hs.mix(h, biscuit.nonce.as_slice());
    hs.mix(h, biscuit.ct.as_slice());
    let auth = hs.seal_auth(h, aead, 2);
    hs.erase();
    let m = RespHello { sidr, sidi: msg.sidi, ecti, scti, biscuit, auth };
    assert(A::open_spec(
        auth_key::<H>(after_biscuit::<H>(ck, m.biscuit.nonce@, m.biscuit.ct@), 2),
        zero_nonce(),
        m.auth@,
    ) == Some(Seq::<u8>::empty()));
    assert(m.biscuit.nonce@ == harness.pick_nonce(nonce_in@));
    assert(harness.ecti_step::<EK>(msg.epki@, shk2, m.ecti@));
    assert(harness.scti_step::<SK>(spki@, shk3, m.scti@));
    assert(A::open_spec(key, m.biscuit.nonce@, m.biscuit.ct@) == Some(
            encode_spec(msg.sidi, m.sidr, seq, responder_ck::<H, SK>(
                sskr@, spki@, msg.sidi, msg.epki@, msg.sctr@, m.sidr, shk2, m.ecti@, shk3, m.scti@,
            )),
        ));
    Ok(m)
}

/// Reads message 3: redeems the echoed biscuit against the peer's replay
/// guard, mixes the biscuit into the chain it carries, checks the message's
/// tag under that chain, and returns the output key. A redemption error is
/// returned as it came; a tag that does not open gives `DecapsulationFailure`
/// and leaves the biscuit unredeemed.
pub fn handle_init_conf<H: KeyedHash, A: Aead>(
    h: &H,
    aead: &A,
    bkey: &BiscuitKey,
    guard: &mut ReplayGuard,
    msg: &InitConf,
) -> (r: Result<Vec<u8>, RosenpassError>)
    requires
        bkey.wf(),
    ensures
        match redeem_spec::<A>(
            bkey.key@,
            old(guard).used,
            msg.biscuit.nonce@,
            msg.biscuit.ct@,
            msg.sidi,
            msg.sidr,
        ) {
            Ok(f) => {
                let ck = after_biscuit::<H>(f.3, msg.biscuit.nonce@, msg.biscuit.ct@);
                if A::open_spec(auth_key::<H>(ck, 3), zero_nonce(), msg.auth@) is Some {
                    r matches Ok(osk) && osk@ == osk_of::<H>(ck) && final(guard).used == f.2
                } else {
                    r == Err::<Vec<u8>, RosenpassError>(RosenpassError::DecapsulationFailure)
                        && final(guard).used == old(guard).used
                }
            },
            Err(e) => r == Err::<Vec<u8>, RosenpassError>(e) && final(guard).used == old(
                guard,
            ).used,
        },
{
    let used = guard.used;
    let c = bkey.redeem(aead, guard, &msg.biscuit, msg.sidi, msg.sidr)?;
    let mut hs = HandshakeState { ck: c.ck, transcript: Ghost(Seq::empty()) };
    hs.mix(h, msg.biscuit.nonce.as_slice());
    hs.mix(h, msg.biscuit.ct.as_slice());
    if !hs.check_auth(h, aead, 3, msg.auth.as_slice()) {
        hs.erase();
        guard.used = used;
        return Err(RosenpassError::DecapsulationFailure);
    }
    let osk = hs.osk(h);
    hs.erase();
    Ok(osk)
}

} // verus!
