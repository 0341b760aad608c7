use vstd::prelude::*;

verus! {

/// The length of a chaining key and of an output key.
pub const KEY_LEN: usize = 32;

/// The length of the biscuit key.
pub const AEAD_KEY_LEN: usize = 32;

/// The length of a biscuit nonce.
pub const NONCE_LEN: usize = 24;

// The three capabilities below stand for the primitives the engine consumes
// without implementing them. Each names what its results are by spec
// functions; an impl verified by Verus overrides them, while the `arbitrary()`
// defaults leave them unknown to every proof here, so nothing is proved of a
// particular hash, KEM or cipher beyond the `ensures` of its methods.

/// The view of an optional byte string.
pub open spec fn opt_view(o: Option<Vec<u8>>) -> Option<Seq<u8>> {
    match o {
        Some(v) => Some(v@),
        None => None,
    }
}

/// A keyed hash: the primitive under the chaining key. Its result is a
/// function of key and data alone, `hash_spec`; an impl gives that function.
pub trait KeyedHash {
    closed spec fn hash_spec(key: Seq<u8>, data: Seq<u8>) -> Seq<u8> {
        arbitrary()
    }

    fn hash(&self, key: &Vec<u8>, data: &[u8]) -> (r: Vec<u8>)
        ensures
            r@ == Self::hash_spec(key@, data@),
            r@.len() == KEY_LEN,
    ;
}

/// A key-encapsulation mechanism, implemented once for the static class and
/// once for the ephemeral class.
pub trait Kem {
    /// The public key that belongs to a secret key.
    closed spec fn pk_of(sk: Seq<u8>) -> Seq<u8> {
        arbitrary()
    }

    /// What decapsulation of `ct` under `sk` gives, `None` where it fails.
    closed spec fn decaps_spec(sk: Seq<u8>, ct: Seq<u8>) -> Option<Seq<u8>> {
        arbitrary()
    }

    /// A fresh key pair: the secret key and its public key.
    fn keygen(&self) -> (r: (Vec<u8>, Vec<u8>))
        ensures
            r.1@ == Self::pk_of(r.0@),
    ;

    /// Encapsulates against `pk`: a shared secret and its ciphertext. The contract takes the KEM as
    /// perfectly correct: every secret key of `pk` decapsulates the ciphertext
    /// to the shared secret. A lattice KEM such as Kyber fails to do so with
    /// negligible probability; that event is outside what is proved here.
    fn encaps(&self, pk: &[u8]) -> (r: (Vec<u8>, Vec<u8>))
        ensures
            forall|sk: Seq<u8>| Self::pk_of(sk) == pk@
                ==> #[trigger] Self::decaps_spec(sk, r.1@) == Some(r.0@),
    ;

    fn decaps(&self, sk: &[u8], ct: &[u8]) -> (r: Option<Vec<u8>>)
        ensures
            opt_view(r) == Self::decaps_spec(sk@, ct@),
    ;
}

/// `(shk, ct)` is an outcome of encapsulating against `pk`: every secret key
/// that belongs to `pk` decapsulates `ct` to `shk`.
pub open spec fn encaps_outcome<K: Kem + ?Sized>(pk: Seq<u8>, shk: Seq<u8>, ct: Seq<u8>) -> bool {
    forall|sk: Seq<u8>| K::pk_of(sk) == pk ==> #[trigger] K::decaps_spec(sk, ct) == Some(shk)
}

/// Authenticated encryption, used to seal biscuits.
pub trait Aead {
    /// What opening `ct` under `key` and `nonce` gives, `None` where it is
    /// not authentic.
    closed spec fn open_spec(key: Seq<u8>, nonce: Seq<u8>, ct: Seq<u8>) -> Option<Seq<u8>> {
        arbitrary()
    }

    fn seal(&self, key: &Vec<u8>, nonce: &[u8], pt: &[u8]) -> (r: Vec<u8>)
        requires
            key@.len() == AEAD_KEY_LEN,
            nonce@.len() == NONCE_LEN,
        ensures
            Self::open_spec(key@, nonce@, r@) == Some(pt@),
    ;

    fn open(&self, key: &Vec<u8>, nonce: &[u8], ct: &[u8]) -> (r: Option<Vec<u8>>)
        requires
            key@.len() == AEAD_KEY_LEN,
            nonce@.len() == NONCE_LEN,
        ensures
            opt_view(r) == Self::open_spec(key@, nonce@, ct@),
    ;
}

} // verus!
