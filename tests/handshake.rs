use rosenpass::biscuit::{BiscuitKey, ReplayGuard};
use rosenpass::chain::HandshakeState;
use rosenpass::handshake::{handle_init_conf, handle_init_hello, InitConf, InitiatorHandshake};
use rosenpass::primitives::{Aead, KeyedHash, Kem};
use rosenpass::test_vector::{TestHarness, TestVector};
use rosenpass::RosenpassError;

/// A deterministic, non-cryptographic keyed hash with 32-byte output.
struct ToyHash;

impl KeyedHash for ToyHash {
    fn hash(&self, key: &Vec<u8>, data: &[u8]) -> Vec<u8> {
        let mut st: u64 = 0xcbf29ce484222325;
        for b in key.iter().chain([0xffu8].iter()).chain(data.iter()) {
            st ^= *b as u64;
            st = st.wrapping_mul(0x100000001b3);
        }
        let mut out = Vec::new();
        for i in 0..32u64 {
            st ^= i;
            st = st.wrapping_mul(0x100000001b3);
            out.push((st >> 24) as u8);
        }
        out
    }
}

/// A toy KEM: pk = sk ^ 0x5a, ct = shk ^ pk, where shk is the instance's seed.
struct ToyKem {
    seed: u8,
}

fn toy_pk(sk: &[u8]) -> Vec<u8> {
    sk.iter().map(|b| b ^ 0x5a).collect()
}

impl Kem for ToyKem {
    fn keygen(&self) -> (Vec<u8>, Vec<u8>) {
        let sk = vec![self.seed; 8];
        let pk = toy_pk(&sk);
        (sk, pk)
    }

    fn encaps(&self, pk: &[u8]) -> (Vec<u8>, Vec<u8>) {
        let shk: Vec<u8> = (0..pk.len()).map(|i| self.seed.wrapping_add(i as u8)).collect();
        let ct: Vec<u8> = shk.iter().zip(pk.iter()).map(|(a, b)| a ^ b).collect();
        (shk, ct)
    }

    fn decaps(&self, sk: &[u8], ct: &[u8]) -> Option<Vec<u8>> {
        if sk.is_empty() || sk.len() != ct.len() {
            return None;
        }
        let pk = toy_pk(sk);
        Some(ct.iter().zip(pk.iter()).map(|(a, b)| a ^ b).collect())
    }
}

/// A toy AEAD: a keystream xor followed by an 8-byte tag.
struct ToyAead;

fn toy_tag(key: &[u8], nonce: &[u8], pt: &[u8]) -> Vec<u8> {
    let mut k = key.to_vec();
    k.extend_from_slice(nonce);
    ToyHash.hash(&k, pt)[..8].to_vec()
}

fn toy_stream(key: &[u8], nonce: &[u8], data: &[u8]) -> Vec<u8> {
    data.iter()
        .enumerate()
        .map(|(i, b)| b ^ key[i % key.len()] ^ nonce[i % nonce.len()])
        .collect()
}

impl Aead for ToyAead {
    fn seal(&self, key: &Vec<u8>, nonce: &[u8], pt: &[u8]) -> Vec<u8> {
        let mut ct = toy_stream(key, nonce, pt);
        ct.extend_from_slice(&toy_tag(key, nonce, pt));
        ct
    }

    fn open(&self, key: &Vec<u8>, nonce: &[u8], ct: &[u8]) -> Option<Vec<u8>> {
        if ct.len() < 8 {
            return None;
        }
        let (body, tag) = ct.split_at(ct.len() - 8);
        let pt = toy_stream(key, nonce, body);
        if toy_tag(key, nonce, &pt) == tag {
            Some(pt)
        } else {
            None
        }
    }
}

struct Run {
    osk_i: Vec<u8>,
    osk_r: Vec<u8>,
    conf: InitConf,
    initiator: InitiatorHandshake,
    bkey: BiscuitKey,
}

fn run(sidi: u32, sidr: u32, eski: Vec<u8>) -> Run {
    let h = ToyHash;
    let skem = ToyKem { seed: 11 };
    let ekem = ToyKem { seed: 97 };
    let aead = ToyAead;
    let sski = vec![1u8, 2, 3, 4, 5, 6, 7, 8];
    let sskr = vec![9u8, 8, 7, 6, 5, 4, 3, 2];
    let spki = toy_pk(&sski);
    let spkr = toy_pk(&sskr);
    let epki = toy_pk(&eski);
    let mut bkey = BiscuitKey::new(vec![42u8; 32]);
    let mut guard = ReplayGuard::new();

    let (mut initiator, ih) =
        InitiatorHandshake::start(&h, &skem, &ToyAead, &TestHarness::new(), &spkr, sidi, eski, epki);
    let rh = handle_init_hello(
        &h, &skem, &ekem, &aead, &TestHarness::new(), &mut bkey, &sskr, &spkr, &spki, &ih, sidr, &[3u8; 24],
    )
    .unwrap();
    let (conf, osk_i) =
        initiator.handle_resp_hello(&h, &skem, &ekem, &ToyAead, &sski, &spki, &rh).unwrap();
    let osk_r = handle_init_conf(&h, &aead, &bkey, &mut guard, &conf).unwrap();
    Run { osk_i, osk_r, conf, initiator, bkey }
}

#[test]
fn mutual_agreement_on_output_key() {
    let r = run(0x11223344, 0x55667788, vec![0xa0, 0xa1, 0xa2, 0xa3]);
    assert_eq!(r.osk_i.len(), 32);
    assert_eq!(r.osk_i, r.osk_r);
}

#[test]
fn distinct_attempts_give_distinct_keys() {
    let a = run(1, 2, vec![0xa0, 0xa1, 0xa2, 0xa3]);
    let b = run(3, 4, vec![0xb0, 0xb1, 0xb2, 0xb3]);
    assert_ne!(a.osk_i, b.osk_i);
}

#[test]
fn chain_determinism_same_inputs_same_key() {
    let a = run(7, 9, vec![0xc0, 0xc1, 0xc2, 0xc3]);
    let b = run(7, 9, vec![0xc0, 0xc1, 0xc2, 0xc3]);
    assert_eq!(a.osk_i, b.osk_i);
    assert_eq!(a.osk_r, b.osk_r);
    assert_eq!(a.conf.biscuit.ct, b.conf.biscuit.ct);
}

#[test]
fn biscuit_is_single_use() {
    let r = run(5, 6, vec![0xd0, 0xd1, 0xd2, 0xd3]);
    let h = ToyHash;
    let aead = ToyAead;
    let mut guard = ReplayGuard::new();
    let first = handle_init_conf(&h, &aead, &r.bkey, &mut guard, &r.conf);
    assert_eq!(first.unwrap(), r.osk_i);
    assert_eq!(guard.used, 1);
    let second = handle_init_conf(&h, &aead, &r.bkey, &mut guard, &r.conf);
    assert_eq!(second.unwrap_err(), RosenpassError::BiscuitAuthenticationFailure);
}

#[test]
fn tampered_session_id_in_init_conf_is_rejected() {
    let r = run(5, 6, vec![0xd0, 0xd1, 0xd2, 0xd3]);
    let h = ToyHash;
    let aead = ToyAead;
    let mut guard = ReplayGuard::new();
    let mut conf = r.conf;
    conf.sidi ^= 1;
    let res = handle_init_conf(&h, &aead, &r.bkey, &mut guard, &conf);
    assert_eq!(res.unwrap_err(), RosenpassError::StaleOrUnknownSession);
    assert_eq!(guard.used, 0);
}

#[test]
fn tampered_biscuit_is_rejected() {
    let r = run(5, 6, vec![0xd0, 0xd1, 0xd2, 0xd3]);
    let h = ToyHash;
    let aead = ToyAead;
    let mut guard = ReplayGuard::new();
    let mut conf = r.conf;
    conf.biscuit.ct[3] ^= 0x01;
    let res = handle_init_conf(&h, &aead, &r.bkey, &mut guard, &conf);
    assert_eq!(res.unwrap_err(), RosenpassError::BiscuitAuthenticationFailure);
}

#[test]
fn rotated_biscuit_key_rejects_old_biscuits() {
    let r = run(5, 6, vec![0xd0, 0xd1, 0xd2, 0xd3]);
    let mut bkey = r.bkey;
    bkey.rotate(vec![43u8; 32]);
    let mut guard = ReplayGuard::new();
    let res = handle_init_conf(&ToyHash, &ToyAead, &bkey, &mut guard, &r.conf);
    assert_eq!(res.unwrap_err(), RosenpassError::BiscuitAuthenticationFailure);
}

#[test]
fn initiator_state_is_zeroed_after_completion() {
    let r = run(5, 6, vec![0xd0, 0xd1, 0xd2, 0xd3]);
    assert!(r.initiator.eski.iter().all(|b| *b == 0));
    assert_eq!(r.initiator.eski.len(), 4);
    assert!(r.initiator.hs.ck.iter().all(|b| *b == 0));
    assert_eq!(r.initiator.hs.ck.len(), 32);
}

#[test]
fn resp_hello_for_another_session_is_rejected_and_zeroed() {
    let h = ToyHash;
    let skem = ToyKem { seed: 11 };
    let ekem = ToyKem { seed: 97 };
    let aead = ToyAead;
    let sski = vec![1u8, 2, 3, 4];
    let sskr = vec![9u8, 8, 7, 6];
    let spki = toy_pk(&sski);
    let spkr = toy_pk(&sskr);
    let eski = vec![0xa0u8, 0xa1];
    let epki = toy_pk(&eski);
    let mut bkey = BiscuitKey::new(vec![42u8; 32]);
    let (mut initiator, ih) =
        InitiatorHandshake::start(&h, &skem, &ToyAead, &TestHarness::new(), &spkr, 10, eski, epki);
    let mut rh = handle_init_hello(
        &h, &skem, &ekem, &aead, &TestHarness::new(), &mut bkey, &sskr, &spkr, &spki, &ih, 20, &[3u8; 24],
    )
    .unwrap();
    assert_eq!(rh.sidi, 10);
    assert_eq!(rh.sidr, 20);
    assert_eq!(bkey.next_seq, 2);
    rh.sidi = 11;
    let res = initiator.handle_resp_hello(&h, &skem, &ekem, &ToyAead, &sski, &spki, &rh);
    assert_eq!(res.unwrap_err(), RosenpassError::StaleOrUnknownSession);
    assert!(initiator.eski.iter().all(|b| *b == 0));
}

#[test]
fn malformed_static_ciphertext_fails_decapsulation() {
    let h = ToyHash;
    let skem = ToyKem { seed: 11 };
    let ekem = ToyKem { seed: 97 };
    let aead = ToyAead;
    let sskr = vec![9u8, 8, 7, 6];
    let spkr = toy_pk(&sskr);
    let spki = toy_pk(&[1u8, 2, 3, 4]);
    let eski = vec![0xa0u8, 0xa1];
    let epki = toy_pk(&eski);
    let mut bkey = BiscuitKey::new(vec![42u8; 32]);
    let (_, mut ih) = InitiatorHandshake::start(&h, &skem, &ToyAead, &TestHarness::new(), &spkr, 10, eski, epki);
    ih.sctr.push(0);
    let res = handle_init_hello(
        &h, &skem, &ekem, &aead, &TestHarness::new(), &mut bkey, &sskr, &spkr, &spki, &ih, 20, &[3u8; 24],
    );
    assert_eq!(res.err(), Some(RosenpassError::DecapsulationFailure));
    assert_eq!(bkey.next_seq, 1);
}

#[test]
fn encaps_and_mix_matches_manual_mixing() {
    let h = ToyHash;
    let kem = ToyKem { seed: 5 };
    let pk = vec![1u8, 2, 3];
    let mut live = HandshakeState::new(&h);
    let ct = live.encaps_and_mix(&h, &kem, &pk);
    let (shk, ct2) = kem.encaps(&pk);
    assert_eq!(ct, ct2);
    let mut manual = HandshakeState::new(&h);
    manual.mix(&h, &pk);
    manual.mix(&h, &shk);
    manual.mix(&h, &ct);
    assert_eq!(live.ck, manual.ck);
    assert_ne!(live.ck, HandshakeState::new(&h).ck);
}

fn fixed_vector(expected: Vec<(String, Vec<u8>)>, osk: Vec<u8>) -> TestVector {
    TestVector::new(
        vec![0xe0, 0xe1],
        toy_pk(&[0xe0, 0xe1]),
        0x01020304,
        0x05060708,
        vec![0x11; 4],
        vec![0x12; 4],
        vec![0x21; 2],
        vec![0x22; 2],
        vec![0x31; 4],
        vec![0x32; 4],
        vec![0x44; 24],
        expected,
        osk,
    )
}

#[test]
fn harness_without_vector_leaves_values() {
    let harness = TestHarness::new();
    let mut sidi = 9u32;
    harness.overwrite_sidi(&mut sidi);
    assert_eq!(sidi, 9);
    let mut n = vec![1u8, 2];
    harness.overwrite_nonce(&mut n);
    assert_eq!(n, vec![1, 2]);
    assert!(harness.check_chaining_key(&[0u8; 32], "IHI3"));
    assert!(harness.check_osk(&[0u8; 32]));
}

#[test]
fn harness_with_vector_overwrites_randomness() {
    let harness = TestHarness::with_vector(fixed_vector(vec![], vec![]));
    let mut sidi = 9u32;
    let mut sidr = 9u32;
    harness.overwrite_sidi(&mut sidi);
    harness.overwrite_sidr(&mut sidr);
    assert_eq!((sidi, sidr), (0x01020304, 0x05060708));
    let mut n = vec![1u8, 2];
    harness.overwrite_nonce(&mut n);
    assert_eq!(n, vec![0x44; 24]);
    let mut eski = vec![];
    let mut epki = vec![];
    harness.overwrite_ephemeral_keys(&mut eski, &mut epki);
    assert_eq!(eski, vec![0xe0, 0xe1]);
    assert_eq!(epki, toy_pk(&[0xe0, 0xe1]));
}

#[test]
fn harness_fixed_kem_steps_mix_fixed_values() {
    let h = ToyHash;
    let kem = ToyKem { seed: 5 };
    let harness = TestHarness::with_vector(fixed_vector(vec![], vec![]));
    let spkt = vec![7u8, 7, 7, 7];
    let mut core = HandshakeState::new(&h);
    let mut sctr = vec![];
    harness.overwrite_sctr_and_mix(&h, &kem, &mut core, &mut sctr, &spkt);
    assert_eq!(sctr, vec![0x12; 4]);
    let mut manual = HandshakeState::new(&h);
    manual.mix(&h, &spkt);
    manual.mix(&h, &[0x11; 4]);
    manual.mix(&h, &[0x12; 4]);
    assert_eq!(core.ck, manual.ck);

    let mut ecti = vec![];
    harness.overwrite_ecti_and_mix(&h, &kem, &mut core, &mut ecti, &[1, 2]);
    assert_eq!(ecti, vec![0x22; 2]);
    let mut scti = vec![];
    harness.overwrite_scti_and_mix(&h, &kem, &mut core, &mut scti, &spkt);
    assert_eq!(scti, vec![0x32; 4]);
    manual.mix(&h, &[1, 2]);
    manual.mix(&h, &[0x21; 2]);
    manual.mix(&h, &[0x22; 2]);
    manual.mix(&h, &spkt);
    manual.mix(&h, &[0x31; 4]);
    manual.mix(&h, &[0x32; 4]);
    assert_eq!(core.ck, manual.ck);
}

#[test]
fn harness_live_kem_step_encapsulates() {
    let h = ToyHash;
    let kem = ToyKem { seed: 5 };
    let harness = TestHarness::new();
    let mut core = HandshakeState::new(&h);
    let mut sctr = vec![];
    harness.overwrite_sctr_and_mix(&h, &kem, &mut core, &mut sctr, &[1, 2, 3]);
    assert_eq!(sctr, kem.encaps(&[1, 2, 3]).1);
}

#[test]
fn harness_checks_named_chaining_keys_and_osk() {
    let expected = vec![
        ("IHI3".to_string(), vec![1u8; 32]),
        ("IHR5".to_string(), vec![2u8; 32]),
    ];
    let harness = TestHarness::with_vector(fixed_vector(expected, vec![9u8; 32]));
    assert!(harness.check_chaining_key(&[1u8; 32], "IHI3"));
    assert!(!harness.check_chaining_key(&[2u8; 32], "IHI3"));
    assert!(harness.check_chaining_key(&[2u8; 32], "IHR5"));
    assert!(harness.check_chaining_key(&[7u8; 32], "ICR7"));
    assert!(harness.check_osk(&[9u8; 32]));
    assert!(!harness.check_osk(&[8u8; 32]));
}

#[test]
fn end_to_end_with_fixed_test_vector() {
    let h = ToyHash;
    let skem = ToyKem { seed: 11 };
    let ekem = ToyKem { seed: 97 };
    let aead = ToyAead;
    let sski = vec![1u8, 2, 3, 4, 5, 6, 7, 8];
    let sskr = vec![9u8, 8, 7, 6, 5, 4, 3, 2];
    let spki = toy_pk(&sski);
    let spkr = toy_pk(&sskr);
    let eski = vec![0xe0u8, 0xe1, 0xe2, 0xe3];
    let ck_after_sctr = vec![
        0x5e, 0xf4, 0x84, 0x69, 0xf4, 0xdd, 0xb5, 0x9e, 0x50, 0x67, 0xb1, 0xc8, 0x83, 0xad, 0x3d,
        0xad, 0x3b, 0x38, 0xc5, 0xfd, 0x3e, 0x76, 0x4d, 0x31, 0xc7, 0xdd, 0x67, 0x8e, 0x80, 0x0a,
        0x5b, 0x09,
    ];
    let expected_osk = vec![
        0x40, 0xcb, 0x7d, 0x49, 0x0c, 0x08, 0x22, 0x68, 0xe8, 0x57, 0x33, 0x65, 0xed, 0x25, 0x84,
        0xd6, 0x74, 0x62, 0x14, 0xf2, 0xca, 0x65, 0xde, 0x3a, 0x2d, 0xba, 0xad, 0xa7, 0xce, 0xf5,
        0x01, 0x2a,
    ];
    let vector = || {
        TestVector::new(
            eski.clone(),
            toy_pk(&eski),
            0x01020304,
            0x05060708,
            vec![0x11; 8],
            vec![0x42, 0x43, 0x4c, 0x4d, 0x4e, 0x4f, 0x48, 0x49],
            vec![0x21; 4],
            vec![0x9b, 0x9a, 0x99, 0x98],
            vec![0x31; 8],
            vec![0x6a, 0x69, 0x68, 0x6f, 0x6e, 0x6d, 0x6c, 0x63],
            vec![0x44; 24],
            vec![("IHI5".to_string(), ck_after_sctr.clone())],
            expected_osk.clone(),
        )
    };
    let hi = TestHarness::with_vector(vector());
    let hr = TestHarness::with_vector(vector());
    let mut bkey = BiscuitKey::new(vec![42u8; 32]);
    let mut guard = ReplayGuard::new();

    let (mut initiator, ih) =
        InitiatorHandshake::start(&h, &skem, &ToyAead, &hi, &spkr, 0, vec![0; 4], vec![0; 4]);
    assert_eq!(ih.sidi, 0x01020304);
    assert_eq!(initiator.hs.ck, ck_after_sctr);
    assert!(hi.check_chaining_key(&initiator.hs.ck, "IHI5"));
    let rh = handle_init_hello(
        &h, &skem, &ekem, &aead, &hr, &mut bkey, &sskr, &spkr, &spki, &ih, 0, &[0u8; 24],
    )
    .unwrap();
    assert_eq!(rh.sidr, 0x05060708);
    assert_eq!(rh.biscuit.nonce, vec![0x44; 24]);
    let (conf, osk_i) =
        initiator.handle_resp_hello(&h, &skem, &ekem, &ToyAead, &sski, &spki, &rh).unwrap();
    let osk_r = handle_init_conf(&h, &aead, &bkey, &mut guard, &conf).unwrap();
    assert_eq!(osk_i, expected_osk);
    assert_eq!(osk_r, expected_osk);
    assert!(hi.check_osk(&osk_i));
    assert!(hr.check_osk(&osk_r));
}

#[test]
fn keygen_pairs_keys() {
    let (sk, pk) = ToyKem { seed: 3 }.keygen();
    assert_eq!(pk, toy_pk(&sk));
}

#[test]
fn fixed_and_live_paths_give_the_same_chain() {
    let h = ToyHash;
    let kem = ToyKem { seed: 5 };
    let spkt = vec![7u8, 7, 7, 7];
    let (shk, ct) = kem.encaps(&spkt);
    let mut live = HandshakeState::new(&h);
    let c = live.mix_encapsulation(&h, &spkt, shk.clone(), ct.clone());
    assert_eq!(c, ct);
    let tv = TestVector::new(
        vec![], vec![], 0, 0, shk, ct.clone(), vec![], vec![], vec![], vec![], vec![0; 24], vec![], vec![],
    );
    let harness = TestHarness::with_vector(tv);
    let mut fixed = HandshakeState::new(&h);
    let mut sctr = vec![];
    harness.overwrite_sctr_and_mix(&h, &kem, &mut fixed, &mut sctr, &spkt);
    assert_eq!(sctr, ct);
    assert_eq!(fixed.ck, live.ck);
}

#[test]
fn biscuit_nonce_of_wrong_length_is_refused() {
    let h = ToyHash;
    let skem = ToyKem { seed: 11 };
    let ekem = ToyKem { seed: 97 };
    let sskr = vec![9u8, 8, 7, 6];
    let spkr = toy_pk(&sskr);
    let spki = toy_pk(&[1u8, 2, 3, 4]);
    let eski = vec![0xa0u8, 0xa1];
    let epki = toy_pk(&eski);
    let mut bkey = BiscuitKey::new(vec![42u8; 32]);
    let (_, ih) = InitiatorHandshake::start(&h, &skem, &ToyAead, &TestHarness::new(), &spkr, 10, eski, epki);
    let res = handle_init_hello(
        &h, &skem, &ekem, &ToyAead, &TestHarness::new(), &mut bkey, &sskr, &spkr, &spki, &ih, 20, &[3u8; 12],
    );
    assert_eq!(res.err(), Some(RosenpassError::BufferSizeMismatch));
    assert_eq!(bkey.next_seq, 1);
}

#[test]
fn echoed_biscuit_with_short_nonce_is_rejected() {
    let r = run(5, 6, vec![0xd0, 0xd1, 0xd2, 0xd3]);
    let mut conf = r.conf;
    conf.biscuit.nonce.pop();
    let mut guard = ReplayGuard::new();
    let res = handle_init_conf(&ToyHash, &ToyAead, &r.bkey, &mut guard, &conf);
    assert_eq!(res.unwrap_err(), RosenpassError::BiscuitAuthenticationFailure);
}

struct Parties {
    sski: Vec<u8>,
    sskr: Vec<u8>,
    spki: Vec<u8>,
    spkr: Vec<u8>,
}

fn parties() -> Parties {
    let sski = vec![1u8, 2, 3, 4, 5, 6, 7, 8];
    let sskr = vec![9u8, 8, 7, 6, 5, 4, 3, 2];
    Parties { spki: toy_pk(&sski), spkr: toy_pk(&sskr), sski, sskr }
}

#[test]
fn altered_static_ciphertext_in_message_1_is_rejected() {
    let p = parties();
    let eski = vec![0xa0u8, 0xa1];
    let epki = toy_pk(&eski);
    let skem = ToyKem { seed: 11 };
    let (_, mut ih) = InitiatorHandshake::start(&ToyHash, &skem, &ToyAead, &TestHarness::new(), &p.spkr, 10, eski, epki);
    ih.sctr[0] ^= 1;
    let mut bkey = BiscuitKey::new(vec![42u8; 32]);
    let res = handle_init_hello(
        &ToyHash, &skem, &ToyKem { seed: 97 }, &ToyAead, &TestHarness::new(), &mut bkey,
        &p.sskr, &p.spkr, &p.spki, &ih, 20, &[3u8; 24],
    );
    assert_eq!(res.err(), Some(RosenpassError::DecapsulationFailure));
    assert_eq!(bkey.next_seq, 1);
}

fn message_2(p: &Parties) -> (InitiatorHandshake, rosenpass::handshake::RespHello, BiscuitKey) {
    let eski = vec![0xa0u8, 0xa1, 0xa2, 0xa3];
    let epki = toy_pk(&eski);
    let skem = ToyKem { seed: 11 };
    let (initiator, ih) = InitiatorHandshake::start(&ToyHash, &skem, &ToyAead, &TestHarness::new(), &p.spkr, 10, eski, epki);
    let mut bkey = BiscuitKey::new(vec![42u8; 32]);
    let rh = handle_init_hello(
        &ToyHash, &skem, &ToyKem { seed: 97 }, &ToyAead, &TestHarness::new(), &mut bkey,
        &p.sskr, &p.spkr, &p.spki, &ih, 20, &[3u8; 24],
    )
    .unwrap();
    (initiator, rh, bkey)
}

#[test]
fn altered_responder_id_in_message_2_is_rejected() {
    let p = parties();
    let (mut initiator, mut rh, _) = message_2(&p);
    rh.sidr ^= 1;
    let res = initiator.handle_resp_hello(&ToyHash, &ToyKem { seed: 11 }, &ToyKem { seed: 97 }, &ToyAead, &p.sski, &p.spki, &rh);
    assert_eq!(res.err(), Some(RosenpassError::DecapsulationFailure));
    assert!(initiator.eski.iter().all(|b| *b == 0));
}

#[test]
fn altered_ciphertexts_in_message_2_are_rejected() {
    let p = parties();
    for which in 0..3 {
        let (mut initiator, mut rh, _) = message_2(&p);
        match which {
            0 => rh.ecti[0] ^= 1,
            1 => rh.scti[1] ^= 0x80,
            _ => rh.biscuit.ct[0] ^= 1,
        }
        let res = initiator.handle_resp_hello(&ToyHash, &ToyKem { seed: 11 }, &ToyKem { seed: 97 }, &ToyAead, &p.sski, &p.spki, &rh);
        assert_eq!(res.err(), Some(RosenpassError::DecapsulationFailure));
    }
}

#[test]
fn altered_tag_in_message_3_is_rejected_and_biscuit_stays_usable() {
    let p = parties();
    let (mut initiator, rh, bkey) = message_2(&p);
    let (conf, osk_i) = initiator
        .handle_resp_hello(&ToyHash, &ToyKem { seed: 11 }, &ToyKem { seed: 97 }, &ToyAead, &p.sski, &p.spki, &rh)
        .unwrap();
    let mut guard = ReplayGuard::new();
    let mut bad = InitConf {
        sidi: conf.sidi,
        sidr: conf.sidr,
        biscuit: rosenpass::biscuit::Biscuit { nonce: conf.biscuit.nonce.clone(), ct: conf.biscuit.ct.clone() },
        auth: conf.auth.clone(),
    };
    bad.auth[0] ^= 1;
    let res = handle_init_conf(&ToyHash, &ToyAead, &bkey, &mut guard, &bad);
    assert_eq!(res.unwrap_err(), RosenpassError::DecapsulationFailure);
    assert_eq!(guard.used, 0);
    let osk_r = handle_init_conf(&ToyHash, &ToyAead, &bkey, &mut guard, &conf).unwrap();
    assert_eq!(osk_r, osk_i);
}
