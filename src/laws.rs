use vstd::prelude::*;
use crate::biscuit::{encode_spec, lemma_decode_encode, redeem_spec};
use crate::chain::{chain_of, osk_of};
use crate::error::RosenpassError;
use crate::handshake::{after_biscuit, init_items, resp_items, responder_ck};
use crate::primitives::{encaps_outcome, Aead, KeyedHash, Kem, KEY_LEN, NONCE_LEN};

verus! {

/// Two executions fed the same transcript hold the same chaining key at
/// every checkpoint (after every prefix of the transcript) and derive the
/// same output key.
pub proof fn law_chain_determinism<H: KeyedHash>(t1: Seq<Seq<u8>>, t2: Seq<Seq<u8>>)
    requires
        t1 == t2,
    ensures
        forall|k: int|
            0 <= k <= t1.len() ==> #[trigger] chain_of::<H>(t1.subrange(0, k)) == chain_of::<H>(
                t2.subrange(0, k),
            ),
        osk_of::<H>(chain_of::<H>(t1)) == osk_of::<H>(chain_of::<H>(t2)),
{
}

/// Mutual agreement. Let the initiator hold `sski`, the responder `sskr`, and
/// the initiator's ephemeral key be `eski`; let `sctr`, `ecti` and `scti` be
/// outcomes of the three encapsulations of an honest run, and `ct` the
/// biscuit the responder sealed over its chaining key. Then the biscuit
/// redeems to that snapshot, and the chain the responder rebuilds from it
/// equals the initiator's: so the tags of messages 2 and 3, keyed by that
/// chain, open on the other side, and both derive the same output key.
pub proof fn law_mutual_agreement<H: KeyedHash, SK: Kem, EK: Kem, A: Aead>(
    sski: Seq<u8>,
    sskr: Seq<u8>,
    eski: Seq<u8>,
    sidi: u32,
    sidr: u32,
    shk1: Seq<u8>,
    sctr: Seq<u8>,
    shk2: Seq<u8>,
    ecti: Seq<u8>,
    shk3: Seq<u8>,
    scti: Seq<u8>,
    bkey: Seq<u8>,
    seq: u64,
    used: u64,
    nonce: Seq<u8>,
    ct: Seq<u8>,
)
    requires
        encaps_outcome::<SK>(SK::pk_of(sskr), shk1, sctr),
        encaps_outcome::<EK>(EK::pk_of(eski), shk2, ecti),
        encaps_outcome::<SK>(SK::pk_of(sski), shk3, scti),
        responder_ck::<H, SK>(
            sskr,
            SK::pk_of(sski),
            sidi,
            EK::pk_of(eski),
            sctr,
            sidr,
            shk2,
            ecti,
            shk3,
            scti,
        ).len() == KEY_LEN,
        A::open_spec(bkey, nonce, ct) == Some(
            encode_spec(
                sidi,
                sidr,
                seq,
                responder_ck::<H, SK>(
                    sskr,
                    SK::pk_of(sski),
                    sidi,
                    EK::pk_of(eski),
                    sctr,
                    sidr,
                    shk2,
                    ecti,
                    shk3,
                    scti,
                ),
            ),
        ),
        used < seq,
        nonce.len() == NONCE_LEN,
    ensures
        ({
            let spki = SK::pk_of(sski);
            let spkr = SK::pk_of(sskr);
            let epki = EK::pk_of(eski);
            let ck_r = responder_ck::<H, SK>(
                sskr,
                spki,
                sidi,
                epki,
                sctr,
                sidr,
                shk2,
                ecti,
                shk3,
                scti,
            );
            let ck_i = chain_of::<H>(
                init_items(spkr, sidi, epki, shk1, sctr) + resp_items(
                    sidr,
                    epki,
                    EK::decaps_spec(eski, ecti)->Some_0,
                    ecti,
                    spki,
                    SK::decaps_spec(sski, scti)->Some_0,
                    scti,
                ),
            );
            &&& SK::decaps_spec(sskr, sctr) is Some
            &&& EK::decaps_spec(eski, ecti) is Some
            &&& SK::decaps_spec(sski, scti) is Some
            &&& redeem_spec::<A>(bkey, used, nonce, ct, sidi, sidr) == Ok::<
                (u32, u32, u64, Seq<u8>),
                RosenpassError,
            >((sidi, sidr, seq, ck_r))
            &&& after_biscuit::<H>(ck_r, nonce, ct) == after_biscuit::<H>(ck_i, nonce, ct)
            &&& osk_of::<H>(after_biscuit::<H>(ck_r, nonce, ct)) == osk_of::<H>(
                after_biscuit::<H>(ck_i, nonce, ct),
            )
        }),
{
    let ck_r = responder_ck::<H, SK>(
        sskr,
        SK::pk_of(sski),
        sidi,
        EK::pk_of(eski),
        sctr,
        sidr,
        shk2,
        ecti,
        shk3,
        scti,
    );
    assert(SK::decaps_spec(sskr, sctr) == Some(shk1));
    assert(EK::decaps_spec(eski, ecti) == Some(shk2));
    assert(SK::decaps_spec(sski, scti) == Some(shk3));
    lemma_decode_encode(sidi, sidr, seq, ck_r);
}

/// One KEM step agrees on both sides: where `(shk, ct)` is an outcome of
/// encapsulating against the public key of `sk`, the decapsulating side
/// recovers `shk`, so both sides mix the same three items and, from equal
/// chains, reach the same chain.
pub proof fn law_kem_step_agreement<H: KeyedHash, K: Kem>(
    t: Seq<Seq<u8>>,
    sk: Seq<u8>,
    shk: Seq<u8>,
    ct: Seq<u8>,
)
    requires
        encaps_outcome::<K>(K::pk_of(sk), shk, ct),
    ensures
        K::decaps_spec(sk, ct) == Some(shk),
        chain_of::<H>(t.push(K::pk_of(sk)).push(K::decaps_spec(sk, ct)->Some_0).push(ct))
            == chain_of::<H>(t.push(K::pk_of(sk)).push(shk).push(ct)),
{
    assert(K::decaps_spec(sk, ct) == Some(shk));
}

/// A biscuit redeems at most once: once its sequence number is recorded, the
/// same token fails with `BiscuitAuthenticationFailure`, though its contents
/// are still what they were.
pub proof fn law_biscuit_single_use<A: Aead>(
    key: Seq<u8>,
    used: u64,
    nonce: Seq<u8>,
    ct: Seq<u8>,
    sidi: u32,
    sidr: u32,
)
    requires
        redeem_spec::<A>(key, used, nonce, ct, sidi, sidr) is Ok,
    ensures
        redeem_spec::<A>(
            key,
            redeem_spec::<A>(key, used, nonce, ct, sidi, sidr)->Ok_0.2,
            nonce,
            ct,
            sidi,
            sidr,
        ) == Err::<(u32, u32, u64, Seq<u8>), RosenpassError>(
            RosenpassError::BiscuitAuthenticationFailure,
        ),
{
}

/// A biscuit presented with other session identifiers than those sealed in
/// it never redeems: it fails with `StaleOrUnknownSession`.
pub proof fn law_session_id_tamper<A: Aead>(
    key: Seq<u8>,
    used: u64,
    nonce: Seq<u8>,
    ct: Seq<u8>,
    sidi: u32,
    sidr: u32,
    sidi2: u32,
    sidr2: u32,
)
    requires
        redeem_spec::<A>(key, used, nonce, ct, sidi, sidr) is Ok,
        sidi2 != sidi || sidr2 != sidr,
    ensures
        redeem_spec::<A>(key, used, nonce, ct, sidi2, sidr2) == Err::<
            (u32, u32, u64, Seq<u8>),
            RosenpassError,
        >(RosenpassError::StaleOrUnknownSession),
{
}

} // verus!
