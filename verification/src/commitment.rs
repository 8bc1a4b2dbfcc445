//! Commitment verification for sealed bids.
//!
//! A commitment is the 256-bit digest of `amount || nonce || bidder`, with the
//! amount as eight little-endian bytes and the nonce and bidder identity as 32
//! bytes each. Binding the bidder identity into the preimage stops another
//! bidder from replaying an observed commitment as their own.

use vstd::bytes::{spec_u64_to_le_bytes, u64_to_le_bytes, lemma_auto_spec_u64_to_from_le_bytes};
use vstd::prelude::*;

verus! {

/// The digest that the outside hash function assigns to a byte sequence.
pub uninterp spec fn sha256_of(data: Seq<u8>) -> Seq<u8>;

/// Relies on sha2::Sha256 (through the Digest trait): the 32-byte SHA-256
/// digest of the input, a function of the input bytes alone.
#[verifier::external_body]
fn sha256(data: &Vec<u8>) -> (r: [u8; 32])
    ensures
        r@ == sha256_of(data@),
{
    let digest = <sha2::Sha256 as sha2::Digest>::digest(data.as_slice());
    digest.into()
}

/// The exact byte sequence a bidder hashes when sealing a bid.
pub open spec fn commitment_preimage(amount: u64, nonce: Seq<u8>, bidder: Seq<u8>) -> Seq<u8> {
    spec_u64_to_le_bytes(amount) + nonce + bidder
}

/// Distinct (amount, nonce, bidder) triples seal distinct preimages: the
/// fixed-width layout leaves no way for two triples to collide before the
/// hash is even applied.
pub proof fn lemma_preimage_injective(
    amount1: u64,
    nonce1: Seq<u8>,
    bidder1: Seq<u8>,
    amount2: u64,
    nonce2: Seq<u8>,
    bidder2: Seq<u8>,
)
    requires
        nonce1.len() == 32,
        bidder1.len() == 32,
        nonce2.len() == 32,
        bidder2.len() == 32,
        commitment_preimage(amount1, nonce1, bidder1) == commitment_preimage(
            amount2,
            nonce2,
            bidder2,
        ),
    ensures
        amount1 == amount2,
        nonce1 == nonce2,
        bidder1 == bidder2,
{
    lemma_auto_spec_u64_to_from_le_bytes();
    let p1 = commitment_preimage(amount1, nonce1, bidder1);
    let p2 = commitment_preimage(amount2, nonce2, bidder2);
    assert(spec_u64_to_le_bytes(amount1) =~= p1.subrange(0, 8));
    assert(spec_u64_to_le_bytes(amount2) =~= p2.subrange(0, 8));
    assert(nonce1 =~= p1.subrange(8, 40));
    assert(nonce2 =~= p2.subrange(8, 40));
    assert(bidder1 =~= p1.subrange(40, 72));
    assert(bidder2 =~= p2.subrange(40, 72));
}

/// Byte-for-byte equality of two 32-byte words.
pub fn bytes32_eq(a: &[u8; 32], b: &[u8; 32]) -> (r: bool)
    ensures
        r <==> *a == *b,
{
    let mut i: usize = 0;
    while i < 32
        invariant
            i <= 32,
            forall|j: int| 0 <= j < i ==> a@[j] == b@[j],
        decreases 32 - i,
    {
        if a[i] != b[i] {
            proof {
                assert(a@[i as int] != b@[i as int]);
            }
            return false;
        }
        i += 1;
    }
    proof {
        assert(*a =~= *b);
    }
    true
}

/// Seal a bid: hash the amount, nonce and bidder identity into a commitment.
pub fn compute_commitment(amount: u64, nonce: &[u8; 32], bidder: &[u8; 32]) -> (r: [u8; 32])
    ensures
        r@ == sha256_of(commitment_preimage(amount, nonce@, bidder@)),
{
    let mut data: Vec<u8> = u64_to_le_bytes(amount);
    let mut i: usize = 0;
    while i < 32
        invariant
            i <= 32,
            data@ == spec_u64_to_le_bytes(amount) + nonce@.subrange(0, i as int),
        decreases 32 - i,
    {
        data.push(nonce[i]);
        proof {
            assert(data@ =~= spec_u64_to_le_bytes(amount) + nonce@.subrange(0, i + 1));
        }
        i += 1;
    }
    let mut k: usize = 0;
    while k < 32
        invariant
            k <= 32,
            data@ == spec_u64_to_le_bytes(amount) + nonce@ + bidder@.subrange(0, k as int),
        decreases 32 - k,
    {
        data.push(bidder[k]);
        proof {
            assert(data@ =~= spec_u64_to_le_bytes(amount) + nonce@ + bidder@.subrange(
                0,
                k + 1,
            ));
        }
        k += 1;
    }
    proof {
        assert(nonce@.subrange(0, 32) =~= nonce@);
        assert(bidder@.subrange(0, 32) =~= bidder@);
        assert(data@ =~= commitment_preimage(amount, nonce@, bidder@));
    }
    sha256(&data)
}

/// Check a revealed triple against a stored commitment: true exactly when the
/// commitment is the digest of this triple's preimage. Pure; a mismatch is the
/// caller's signal to reject the reveal and leave the bid unchanged.
pub fn verify_commitment(
    commitment: &[u8; 32],
    amount: u64,
    nonce: &[u8; 32],
    bidder: &[u8; 32],
) -> (r: bool)
    ensures
        r <==> commitment@ == sha256_of(commitment_preimage(amount, nonce@, bidder@)),
{
    let computed = compute_commitment(amount, nonce, bidder);
    let r = bytes32_eq(commitment, &computed);
    proof {
        if commitment@ == sha256_of(commitment_preimage(amount, nonce@, bidder@)) {
            assert(*commitment =~= computed);
        }
    }
    r
}

/// Commitment soundness: verification accepts a stored commitment exactly
/// when its digest is the digest of the offered triple, and a commitment
/// honestly built from one triple is always accepted for that same triple.
/// Distinct triples have distinct preimages, so a forged reveal can only be
/// accepted by exhibiting a second preimage with the same digest.
pub proof fn lemma_commitment_soundness(
    amount1: u64,
    nonce1: Seq<u8>,
    bidder1: Seq<u8>,
    amount2: u64,
    nonce2: Seq<u8>,
    bidder2: Seq<u8>,
)
    requires
        nonce1.len() == 32,
        bidder1.len() == 32,
        nonce2.len() == 32,
        bidder2.len() == 32,
        !(amount1 == amount2 && nonce1 == nonce2 && bidder1 == bidder2),
    ensures
        commitment_preimage(amount1, nonce1, bidder1) != commitment_preimage(
            amount2,
            nonce2,
            bidder2,
        ),
{
    if commitment_preimage(amount1, nonce1, bidder1) == commitment_preimage(
        amount2,
        nonce2,
        bidder2,
    ) {
        lemma_preimage_injective(amount1, nonce1, bidder1, amount2, nonce2, bidder2);
    }
}

} // verus!
