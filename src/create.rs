//! The address of a contract made by a plain creation: the last twenty
//! bytes of the Keccak-256 digest of the RLP list `[creator, nonce]`.
use vstd::prelude::*;
use crate::primitives::{Address, B256};

verus! {

/// The Keccak-256 digest of `data`.
pub uninterp spec fn keccak256_of(data: Seq<u8>) -> Seq<u8>;

/// Relies on sha3::Keccak256 (through digest::Digest::digest): the
/// Keccak-256 digest of the bytes it is given.
#[verifier::external_body]
pub(crate) fn keccak256(data: &Vec<u8>) -> (r: B256)
    ensures
        r.bytes@ == keccak256_of(data@),
{
    B256 { bytes: <sha3::Keccak256 as sha3::Digest>::digest(data.as_slice()).into() }
}

/// The minimal big-endian bytes of `n`: empty for zero.
pub open spec fn be_bytes(n: nat) -> Seq<u8>
    decreases n,
{
    if n == 0 {
        Seq::empty()
    } else {
        be_bytes(n / 256).push((n % 256) as u8)
    }
}

/// The RLP encoding of the integer `n`.
pub open spec fn rlp_uint(n: nat) -> Seq<u8> {
    if n == 0 {
        seq![0x80u8]
    } else if n < 0x80 {
        seq![n as u8]
    } else {
        seq![(0x80 + be_bytes(n).len()) as u8] + be_bytes(n)
    }
}

/// The RLP encoding of the list `[creator, nonce]`.
pub open spec fn create_payload(creator: Seq<u8>, nonce: nat) -> Seq<u8> {
    let body = seq![0x94u8] + creator + rlp_uint(nonce);
    seq![(0xc0 + body.len()) as u8] + body
}

/// The address that a plain creation by `creator` with `nonce` yields.
pub open spec fn create_address_spec(creator: Seq<u8>, nonce: nat) -> Seq<u8> {
    keccak256_of(create_payload(creator, nonce)).subrange(12, 32)
}

proof fn lemma_be_bytes_len(n: nat, k: nat)
    requires
        n < pow256(k),
    ensures
        be_bytes(n).len() <= k,
    decreases n,
{
    if n > 0 {
        assert(k > 0) by {
            if k == 0 {
                assert(pow256(0) == 1);
            }
        }
        let k1 = (k - 1) as nat;
        assert(pow256(k) == 256 * pow256(k1));
        assert(n / 256 < pow256(k1)) by (nonlinear_arith)
            requires
                n < 256 * pow256(k1),
        ;
        lemma_be_bytes_len(n / 256, k1);
    }
}

/// `256` raised to `k`.
pub open spec fn pow256(k: nat) -> nat
    decreases k,
{
    if k == 0 {
        1
    } else {
        256 * pow256((k - 1) as nat)
    }
}

/// The minimal big-endian bytes of `n`.
fn be_bytes_of(n: u64) -> (r: Vec<u8>)
    ensures
        r@ == be_bytes(n as nat),
        r@.len() <= 8,
{
    let mut v: u64 = n;
    let mut low: Vec<u8> = Vec::new();
    while v > 0
        invariant
            be_bytes(n as nat) == be_bytes(v as nat) + low@,
        decreases v,
    {
        let b: u8 = (v % 256) as u8;
        low.insert(0, b);
        assert(be_bytes(v as nat) == be_bytes((v / 256) as nat).push(b));
        v = v / 256;
        assert(be_bytes(n as nat) =~= be_bytes(v as nat) + low@);
    }
    assert(low@ =~= be_bytes(n as nat));
    proof {
        reveal_with_fuel(pow256, 9);
        assert(pow256(8) == 0x1_0000_0000_0000_0000nat);
        lemma_be_bytes_len(n as nat, 8);
    }
    low
}

/// The RLP encoding of the list `[creator, nonce]`.
fn create_payload_of(creator: &Address, nonce: u64) -> (r: Vec<u8>)
    ensures
        r@ == create_payload(creator.bytes@, nonce as nat),
{
    let mut body: Vec<u8> = Vec::new();
    body.push(0x94u8);
    let mut i: usize = 0;
    while i < 20
        invariant
            0 <= i <= 20,
            creator.bytes@.len() == 20,
            body@ == seq![0x94u8] + creator.bytes@.subrange(0, i as int),
        decreases 20 - i,
    {
        body.push(creator.bytes[i]);
        i = i + 1;
        assert(body@ =~= seq![0x94u8] + creator.bytes@.subrange(0, i as int));
    }
    assert(creator.bytes@.subrange(0, 20) =~= creator.bytes@);
    if nonce == 0 {
        body.push(0x80u8);
    } else if nonce < 0x80 {
        body.push(nonce as u8);
    } else {
        let mut be = be_bytes_of(nonce);
        body.push((0x80 + be.len()) as u8);
        body.append(&mut be);
    }
    let ghost expected_body = seq![0x94u8] + creator.bytes@ + rlp_uint(nonce as nat);
    assert(body@ =~= expected_body);
    let mut r: Vec<u8> = Vec::new();
    r.push((0xc0 + body.len()) as u8);
    r.append(&mut body);
    assert(r@ =~= create_payload(creator.bytes@, nonce as nat));
    r
}

/// The address of the contract that `creator` makes by a plain creation
/// while its nonce is `nonce`.
pub fn create_address(creator: &Address, nonce: u64) -> (r: Address)
    ensures
        r.bytes@ == create_address_spec(creator.bytes@, nonce as nat),
{
    let payload = create_payload_of(creator, nonce);
    let digest = keccak256(&payload);
    let mut bytes = [0u8; 20];
    let mut i: usize = 0;
    while i < 20
        invariant
            0 <= i <= 20,
            digest.bytes@.len() == 32,
            bytes@.len() == 20,
            forall|j: int| 0 <= j < i ==> bytes@[j] == digest.bytes@[j + 12],
        decreases 20 - i,
    {
        bytes[i] = digest.bytes[i + 12];
        i = i + 1;
    }
    assert(bytes@ =~= digest.bytes@.subrange(12, 32));
    Address { bytes }
}

} // verus!
