use vstd::prelude::*;
use crate::bytes::zeroize;
use crate::error::RosenpassError;
use crate::primitives::{encaps_outcome, Aead, KeyedHash, Kem, KEY_LEN, NONCE_LEN};

verus! {

/// The domain separator that seeds every chain: the protocol's name.
pub open spec fn protocol_label() -> Seq<u8> {
    seq![114u8, 111, 115, 101, 110, 112, 97, 115, 115, 32, 49]
}

/// The label under which the output key is drawn from the chain.
pub open spec fn osk_label() -> Seq<u8> {
    seq![111u8, 115, 107]
}

fn protocol_label_bytes() -> (r: Vec<u8>)
    ensures
        r@ == protocol_label(),
{
    let r = vec![114u8, 111, 115, 101, 110, 112, 97, 115, 115, 32, 49];
    assert(r@ =~= protocol_label());
    r
}

fn osk_label_bytes() -> (r: Vec<u8>)
    ensures
        r@ == osk_label(),
{
    let r = vec![111u8, 115, 107];
    assert(r@ =~= osk_label());
    r
}

/// The label under which the key of message `n`'s authentication tag is
/// drawn from the chain.
pub open spec fn auth_label(n: u8) -> Seq<u8> {
    seq![97u8, 117, 116, 104, n]
}

/// The nonce of every authentication tag; each tag key is used once.
pub open spec fn zero_nonce() -> Seq<u8> {
    Seq::new(NONCE_LEN as nat, |i: int| 0u8)
}

/// The key of message `n`'s authentication tag under chaining key `ck`.
pub open spec fn auth_key<H: KeyedHash>(ck: Seq<u8>, n: u8) -> Seq<u8> {
    H::hash_spec(ck, auth_label(n))
}

fn auth_label_bytes(n: u8) -> (r: Vec<u8>)
    ensures
        r@ == auth_label(n),
{
    let r = vec![97u8, 117, 116, 104, n];
    assert(r@ =~= auth_label(n));
    r
}

fn zero_nonce_bytes() -> (r: Vec<u8>)
    ensures
        r@ == zero_nonce(),
{
    let mut r: Vec<u8> = Vec::new();
    let mut i: usize = 0;
    while i < NONCE_LEN
        invariant
            i <= NONCE_LEN,
            r@ == Seq::new(i as nat, |k: int| 0u8),
        decreases NONCE_LEN - i,
    {
        r.push(0u8);
        i += 1;
        assert(r@ =~= Seq::new(i as nat, |k: int| 0u8));
    }
    r
}

/// The chaining key after mixing the items of `t`, in order, into the
/// protocol's initial value.
pub open spec fn chain_of<H: KeyedHash>(t: Seq<Seq<u8>>) -> Seq<u8>
    decreases t.len(),
{
    if t.len() == 0 {
        H::hash_spec(Seq::empty(), protocol_label())
    } else {
        H::hash_spec(chain_of::<H>(t.drop_last()), t.last())
    }
}

/// The output key drawn from a chaining key.
pub open spec fn osk_of<H: KeyedHash>(ck: Seq<u8>) -> Seq<u8> {
    H::hash_spec(ck, osk_label())
}

/// The running accumulator of one handshake attempt. `transcript` is what has
/// been mixed so far; the chaining key is determined by it.
pub struct HandshakeState {
    pub ck: Vec<u8>,
    pub transcript: Ghost<Seq<Seq<u8>>>,
}

impl HandshakeState {
    pub open spec fn wf<H: KeyedHash>(&self) -> bool {
        &&& self.ck@ == chain_of::<H>(self.transcript@)
        &&& self.ck@.len() == KEY_LEN
    }

    /// A fresh chain holding nothing but the protocol's domain separator.
    pub fn new<H: KeyedHash>(h: &H) -> (r: Self)
        ensures
            r.transcript@ == Seq::<Seq<u8>>::empty(),
            r.wf::<H>(),
    {
        let empty: Vec<u8> = Vec::new();
        let label = protocol_label_bytes();
        let ck = h.hash(&empty, label.as_slice());
        proof {
            assert(empty@ =~= Seq::<u8>::empty());
        }
        HandshakeState { ck, transcript: Ghost(Seq::empty()) }
    }

    /// Folds `data` into the chaining key.
    pub fn mix<H: KeyedHash>(&mut self, h: &H, data: &[u8])
        ensures
            final(self).ck@ == H::hash_spec(old(self).ck@, data@),
            final(self).ck@.len() == KEY_LEN,
            final(self).transcript@ == old(self).transcript@.push(data@),
            old(self).wf::<H>() ==> final(self).wf::<H>(),
    {
        let ck = h.hash(&self.ck, data);
        zeroize(&mut self.ck);
        self.ck = ck;
        self.transcript = Ghost(self.transcript@.push(data@));
        proof {
            assert(self.transcript@.drop_last() =~= old(self).transcript@);
        }
    }

    /// Encapsulates against `pk` and mixes, in this order, the public key, the
    /// shared secret and the ciphertext; returns the ciphertext. The shared
    /// secret is zeroed before it is dropped.
    pub fn encaps_and_mix<H: KeyedHash, K: Kem>(&mut self, h: &H, kem: &K, pk: &[u8]) -> (r:
        Vec<u8>)
        requires
            old(self).wf::<H>(),
        ensures
            final(self).wf::<H>(),
            ({
                let n = old(self).transcript@.len() as int;
                &&& final(self).transcript@ == old(self).transcript@.push(pk@).push(
                    final(self).transcript@[n + 1],
                ).push(r@)
                &&& encaps_outcome::<K>(pk@, final(self).transcript@[n + 1], r@)
            }),
    {
        let (shk, ct) = kem.encaps(pk);
        let ghost s = shk@;
        let ghost t0 = self.transcript@;
        let r = self.mix_encapsulation(h, pk, shk, ct);
        assert(self.transcript@[t0.len() as int + 1] == s);
        r
    }

    /// Mixes the result `(shk, ct)` of an encapsulation against `pk`: the
    /// public key, the shared secret and the ciphertext, in this order;
    /// returns the ciphertext and zeroes the shared secret.
    pub fn mix_encapsulation<H: KeyedHash>(&mut self, h: &H, pk: &[u8], shk: Vec<u8>, ct: Vec<u8>) -> (r:
        Vec<u8>)
        requires
            old(self).wf::<H>(),
        ensures
            final(self).wf::<H>(),
            r@ == ct@,
            final(self).transcript@ == old(self).transcript@.push(pk@).push(shk@).push(ct@),
    {
        let mut shk = shk;
        self.mix(h, pk);
        self.mix(h, shk.as_slice());
        self.mix(h, ct.as_slice());
        zeroize(&mut shk);
        ct
    }

    /// The mirror of `encaps_and_mix`: decapsulates `ct` with the local secret
    /// key `sk` and mixes the local public key `pk`, the shared secret and the
    /// ciphertext. Fails with `DecapsulationFailure`, leaving the chain as it
    /// was, exactly where the KEM refuses the ciphertext.
    pub fn decaps_and_mix<H: KeyedHash, K: Kem>(
        &mut self,
        h: &H,
        kem: &K,
        sk: &[u8],
        pk: &[u8],
        ct: &[u8],
    ) -> (r: Result<(), RosenpassError>)
        requires
            old(self).wf::<H>(),
        ensures
            final(self).wf::<H>(),
            match K::decaps_spec(sk@, ct@) {
                Some(shk) => r is Ok && final(self).transcript@ == old(self).transcript@.push(
                    pk@,
                ).push(shk).push(ct@),
                None => r == Err::<(), RosenpassError>(RosenpassError::DecapsulationFailure)
                    && *final(self) == *old(self),
            },
    {
        match kem.decaps(sk, ct) {
            None => Err(RosenpassError::DecapsulationFailure),
            Some(shk) => {
                let mut shk = shk;
                self.mix(h, pk);
                self.mix(h, shk.as_slice());
                self.mix(h, ct);
                zeroize(&mut shk);
                Ok(())
            },
        }
    }

    /// The output key drawn from the current chaining key.
    pub fn osk<H: KeyedHash>(&self, h: &H) -> (r: Vec<u8>)
        ensures
            r@ == osk_of::<H>(self.ck@),
    {
        let label = osk_label_bytes();
        h.hash(&self.ck, label.as_slice())
    }

    /// The authentication tag of message `n`: the empty plaintext sealed
    /// under a key drawn from the chain. The key is zeroed after use.
    pub fn seal_auth<H: KeyedHash, A: Aead>(&self, h: &H, aead: &A, n: u8) -> (r: Vec<u8>)
        ensures
            A::open_spec(auth_key::<H>(self.ck@, n), zero_nonce(), r@) == Some(Seq::<u8>::empty()),
    {
        let label = auth_label_bytes(n);
        let mut key = h.hash(&self.ck, label.as_slice());
        let nonce = zero_nonce_bytes();
        let empty: Vec<u8> = Vec::new();
        let tag = aead.seal(&key, nonce.as_slice(), empty.as_slice());
        zeroize(&mut key);
        assert(empty@ =~= Seq::<u8>::empty());
        tag
    }

    /// Whether `tag` is the authentication tag of message `n` under this chain.
    pub fn check_auth<H: KeyedHash, A: Aead>(&self, h: &H, aead: &A, n: u8, tag: &[u8]) -> (r: bool)
        ensures
            r == A::open_spec(auth_key::<H>(self.ck@, n), zero_nonce(), tag@) is Some,
    {
        let label = auth_label_bytes(n);
        let mut key = h.hash(&self.ck, label.as_slice());
        let nonce = zero_nonce_bytes();
        let opened = aead.open(&key, nonce.as_slice(), tag);
        zeroize(&mut key);
        opened.is_some()
    }

    /// Zeroes the chaining key.
    pub fn erase(&mut self)
        ensures
            final(self).ck@ == Seq::new(old(self).ck@.len(), |i: int| 0u8),
    {
        zeroize(&mut self.ck);
    }
}

} // verus!
