use vstd::prelude::*;
use crate::bytes::{
    concat_bytes, copy_bytes, le_u32, le_u64, lemma_u32_round_trip, lemma_u64_round_trip, sub_bytes,
    u32_from_le, u32_le, u32_to_le, u64_le, u64_to_le, zeroize,
};
use crate::error::RosenpassError;
use crate::primitives::{Aead, AEAD_KEY_LEN, KEY_LEN, NONCE_LEN};

verus! {

/// The length of an encoded biscuit: two session identifiers, a sequence
/// number and a chaining key.
pub const BISCUIT_PT_LEN: usize = 48;

/// What a biscuit carries: the state the responder needs to resume.
#[derive(Debug)]
pub struct BiscuitContents {
    pub sidi: u32,
    pub sidr: u32,
    pub seq: u64,
    pub ck: Vec<u8>,
}

/// The opaque token the initiator carries: a nonce and the sealed contents.
#[derive(Debug)]
pub struct Biscuit {
    pub nonce: Vec<u8>,
    pub ct: Vec<u8>,
}

/// The fixed layout of a biscuit's plaintext.
pub open spec fn encode_spec(sidi: u32, sidr: u32, seq: u64, ck: Seq<u8>) -> Seq<u8> {
    u32_le(sidi) + u32_le(sidr) + u64_le(seq) + ck
}

/// The fields read back from a plaintext of the fixed layout.
pub open spec fn decode_spec(pt: Seq<u8>) -> (u32, u32, u64, Seq<u8>) {
    (
        le_u32(pt.subrange(0, 4)),
        le_u32(pt.subrange(4, 8)),
        le_u64(pt.subrange(8, 16)),
        pt.subrange(16, pt.len() as int),
    )
}

/// Decoding what was encoded gives the fields back.
pub proof fn lemma_decode_encode(sidi: u32, sidr: u32, seq: u64, ck: Seq<u8>)
    requires
        ck.len() == KEY_LEN,
    ensures
        encode_spec(sidi, sidr, seq, ck).len() == BISCUIT_PT_LEN,
        decode_spec(encode_spec(sidi, sidr, seq, ck)) == (sidi, sidr, seq, ck),
{
    lemma_u32_round_trip(sidi);
    lemma_u32_round_trip(sidr);
    lemma_u64_round_trip(seq);
    let e = encode_spec(sidi, sidr, seq, ck);
    assert(e.subrange(0, 4) =~= u32_le(sidi));
    assert(e.subrange(4, 8) =~= u32_le(sidr));
    assert(e.subrange(8, 16) =~= u64_le(seq));
    assert(e.subrange(16, e.len() as int) =~= ck);
}

pub fn encode_biscuit(c: &BiscuitContents) -> (r: Vec<u8>)
    requires
        c.ck@.len() == KEY_LEN,
    ensures
        r@ == encode_spec(c.sidi, c.sidr, c.seq, c.ck@),
{
    encode_fields(c.sidi, c.sidr, c.seq, c.ck.as_slice())
}

fn encode_fields(sidi: u32, sidr: u32, seq: u64, ck: &[u8]) -> (r: Vec<u8>)
    requires
        ck@.len() == KEY_LEN,
    ensures
        r@ == encode_spec(sidi, sidr, seq, ck@),
{
    let a = u32_to_le(sidi);
    let b = u32_to_le(sidr);
    let s = u64_to_le(seq);
    let ab = concat_bytes(a.as_slice(), b.as_slice());
    let abs = concat_bytes(ab.as_slice(), s.as_slice());
    assert(abs@.len() == 16);
    let r = concat_bytes(abs.as_slice(), ck);
    assert(r@ =~= u32_le(sidi) + u32_le(sidr) + u64_le(seq) + ck@);
    r
}

/// Reads a plaintext of the fixed layout; fails with `BufferSizeMismatch`
/// exactly where it has the wrong length.
pub fn decode_biscuit(pt: &[u8]) -> (r: Result<BiscuitContents, RosenpassError>)
    ensures
        pt@.len() != BISCUIT_PT_LEN ==> r == Err::<BiscuitContents, RosenpassError>(
            RosenpassError::BufferSizeMismatch,
        ),
        pt@.len() == BISCUIT_PT_LEN ==> (r matches Ok(c) && (c.sidi, c.sidr, c.seq, c.ck@)
            == decode_spec(pt@)),
{
    if pt.len() != BISCUIT_PT_LEN {
        return Err(RosenpassError::BufferSizeMismatch);
    }
    let a = sub_bytes(pt, 0, 4);
    let b = sub_bytes(pt, 4, 8);
    let lo = sub_bytes(pt, 8, 12);
    let hi = sub_bytes(pt, 12, 16);
    let ck = sub_bytes(pt, 16, BISCUIT_PT_LEN);
    let sidi = u32_from_le(a.as_slice());
    let sidr = u32_from_le(b.as_slice());
    let lo_v = u32_from_le(lo.as_slice());
    let hi_v = u32_from_le(hi.as_slice());
    let seq = lo_v as u64 + 4294967296u64 * (hi_v as u64);
    proof {
        let s = pt@.subrange(8, 16);
        assert(s.subrange(0, 4) =~= lo@);
        assert(s.subrange(4, 8) =~= hi@);
    }
    Ok(BiscuitContents { sidi, sidr, seq, ck })
}

/// What redeeming a token gives: the fields it carries, or the error.
pub open spec fn redeem_spec<A: Aead>(
    key: Seq<u8>,
    used: u64,
    nonce: Seq<u8>,
    ct: Seq<u8>,
    sidi: u32,
    sidr: u32,
) -> Result<(u32, u32, u64, Seq<u8>), RosenpassError> {
    if nonce.len() != NONCE_LEN {
        Err(RosenpassError::BiscuitAuthenticationFailure)
    } else { match A::open_spec(key, nonce, ct) {
        None => Err(RosenpassError::BiscuitAuthenticationFailure),
        Some(pt) => if pt.len() != BISCUIT_PT_LEN {
            Err(RosenpassError::BiscuitAuthenticationFailure)
        } else {
            let f = decode_spec(pt);
            if f.2 <= used {
                Err(RosenpassError::BiscuitAuthenticationFailure)
            } else if f.0 != sidi || f.1 != sidr {
                Err(RosenpassError::StaleOrUnknownSession)
            } else {
                Ok(f)
            }
        },
    } }
}

pub open spec fn contents_view(r: Result<BiscuitContents, RosenpassError>) -> Result<
    (u32, u32, u64, Seq<u8>),
    RosenpassError,
> {
    match r {
        Ok(c) => Ok((c.sidi, c.sidr, c.seq, c.ck@)),
        Err(e) => Err(e),
    }
}

/// The responder's process-wide biscuit state: the key that only it holds and
/// the sequence number of the next biscuit.
pub struct BiscuitKey {
    pub key: Vec<u8>,
    pub next_seq: u64,
}

/// Per peer: the highest biscuit sequence number redeemed so far (0: none).
pub struct ReplayGuard {
    pub used: u64,
}

impl ReplayGuard {
    pub fn new() -> (r: Self)
        ensures
            r.used == 0,
    {
        ReplayGuard { used: 0 }
    }
}

impl BiscuitKey {
    pub open spec fn wf(&self) -> bool {
        self.key@.len() == AEAD_KEY_LEN
    }

    /// A biscuit key; the first biscuit it issues has sequence number 1.
    pub fn new(key: Vec<u8>) -> (r: Self)
        requires
            key@.len() == AEAD_KEY_LEN,
        ensures
            r.wf(),
            r.key == key,
            r.next_seq == 1,
    {
        BiscuitKey { key, next_seq: 1 }
    }

    /// Replaces the key; biscuits sealed under the old one no longer open.
    pub fn rotate(&mut self, key: Vec<u8>)
        requires
            key@.len() == AEAD_KEY_LEN,
        ensures
            final(self).wf(),
            final(self).key == key,
            final(self).next_seq == old(self).next_seq,
    {
        zeroize(&mut self.key);
        self.key = key;
    }

    /// Seals a snapshot under the biscuit key with a fresh sequence number.
    pub fn issue<A: Aead>(&mut self, aead: &A, sidi: u32, sidr: u32, ck: &[u8], nonce: &[u8]) -> (r:
        Biscuit)
        requires
            old(self).wf(),
            ck@.len() == KEY_LEN,
            nonce@.len() == NONCE_LEN,
            old(self).next_seq < u64::MAX,
        ensures
            final(self).wf(),
            final(self).key == old(self).key,
            final(self).next_seq == old(self).next_seq + 1,
            r.nonce@ == nonce@,
            A::open_spec(old(self).key@, nonce@, r.ct@) == Some(
                encode_spec(sidi, sidr, old(self).next_seq, ck@),
            ),
    {
        let mut pt = encode_fields(sidi, sidr, self.next_seq, ck);
        let ct = aead.seal(&self.key, nonce, pt.as_slice());
        zeroize(&mut pt);
        self.next_seq = self.next_seq + 1;
        Biscuit { nonce: copy_bytes(nonce), ct }
    }

    /// Opens a token, rejects it if its sequence number was redeemed before
    /// or its session identifiers are not `sidi` and `sidr`, and otherwise
    /// records its sequence number as redeemed.
    pub fn redeem<A: Aead>(
        &self,
        aead: &A,
        guard: &mut ReplayGuard,
        token: &Biscuit,
        sidi: u32,
        sidr: u32,
    ) -> (r: Result<BiscuitContents, RosenpassError>)
        requires
            self.wf(),
        ensures
            contents_view(r) == redeem_spec::<A>(
                self.key@,
                old(guard).used,
                token.nonce@,
                token.ct@,
                sidi,
                sidr,
            ),
            match r {
                Ok(c) => final(guard).used == c.seq,
                Err(_) => final(guard).used == old(guard).used,
            },
    {
        if token.nonce.len() != NONCE_LEN {
            return Err(RosenpassError::BiscuitAuthenticationFailure);
        }
        let mut pt = match aead.open(&self.key, token.nonce.as_slice(), token.ct.as_slice()) {
            None => return Err(RosenpassError::BiscuitAuthenticationFailure),
            Some(pt) => pt,
        };
        let decoded = decode_biscuit(pt.as_slice());
        zeroize(&mut pt);
        let mut c = match decoded {
            Err(_) => return Err(RosenpassError::BiscuitAuthenticationFailure),
            Ok(c) => c,
        };
        if c.seq <= guard.used {
            zeroize(&mut c.ck);
            return Err(RosenpassError::BiscuitAuthenticationFailure);
        }
        if c.sidi != sidi || c.sidr != sidr {
            zeroize(&mut c.ck);
            return Err(RosenpassError::StaleOrUnknownSession);
        }
        guard.used = c.seq;
        Ok(c)
    }
}

} // verus!
