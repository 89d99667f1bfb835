//! Recovering the sender of an Ethereum transaction from its signature:
//! the curve arithmetic and the hash come from sp_core and secp256k1, the
//! layout of the bytes around them is settled here.

use vstd::prelude::*;
use vstd::bytes::{
    spec_u128_from_le_bytes, spec_u128_to_le_bytes, spec_u32_from_le_bytes, u128_from_le_bytes,
    u128_to_le_bytes, u32_from_le_bytes,
};
use vstd::slice::slice_subrange;
use crate::account::Address;
use crate::config::{ChainConfig, H256};
use crate::extrinsic::{EthereumSignature, EthereumTransaction};
use crate::validation::{Rejection, TransactionInfo};

verus! {

/// The compressed public key that signed `digest` with `signature`, where
/// there is one.
pub uninterp spec fn recovered_key(signature: Seq<u8>, digest: Seq<u8>) -> Option<Seq<u8>>;

/// The uncompressed form of a public key, where the bytes are a key.
pub uninterp spec fn uncompressed_key(key: Seq<u8>) -> Option<Seq<u8>>;

/// The Keccak-256 hash of `data`.
pub uninterp spec fn keccak_256(data: Seq<u8>) -> Seq<u8>;

/// Calls `ecdsa::Signature::from_raw` of sp_core and `recover_prehashed` on
/// the result. The crate returns the recovered key in compressed form, 33
/// bytes, or nothing where the recovery id or the signature is not valid;
/// the contract names that outcome and states the length.
#[verifier::external_body]
pub(crate) fn ecdsa_recover(signature: &Vec<u8>, digest: &Vec<u8>) -> (r: Option<Vec<u8>>)
    requires
        signature@.len() == 65,
        digest@.len() == 32,
    ensures
        match r {
            Some(k) => recovered_key(signature@, digest@) == Some(k@) && k@.len() == 33,
            None => recovered_key(signature@, digest@) is None,
        },
{
    let raw: [u8; 65] = signature.as_slice().try_into().unwrap();
    let hash: [u8; 32] = digest.as_slice().try_into().unwrap();
    sp_core::ecdsa::Signature::from_raw(raw).recover_prehashed(&hash).map(|k| k.0.to_vec())
}

/// Calls `PublicKey::from_slice` of secp256k1 and `serialize_uncompressed`
/// on the result. The crate returns 65 bytes, or nothing where the input is
/// no public key; the contract names that outcome and states the length.
#[verifier::external_body]
pub(crate) fn decompress_key(key: &Vec<u8>) -> (r: Option<Vec<u8>>)
    ensures
        match r {
            Some(k) => uncompressed_key(key@) == Some(k@) && k@.len() == 65,
            None => uncompressed_key(key@) is None,
        },
{
    secp256k1::PublicKey::from_slice(key.as_slice()).ok().map(
        |k| k.serialize_uncompressed().to_vec(),
    )
}

/// Calls `hash` of sp_core's `KeccakHasher`, which returns the 32 bytes of
/// the Keccak-256 hash; the contract names them.
#[verifier::external_body]
pub(crate) fn keccak(data: &[u8]) -> (r: Vec<u8>)
    ensures
        r@ == keccak_256(data@),
        r@.len() == 32,
{
    <sp_core::KeccakHasher as sp_core::Hasher>::hash(data).0.to_vec()
}

/// `s` back to front.
pub open spec fn spec_reversed(s: Seq<u8>) -> Seq<u8> {
    Seq::new(s.len(), |i: int| s[s.len() - 1 - i])
}

/// The sixteen bytes of `x`, the most significant first.
pub open spec fn spec_be_bytes(x: u128) -> Seq<u8> {
    spec_reversed(spec_u128_to_le_bytes(x))
}

/// The thirty-two bytes of `h`, the most significant first.
pub open spec fn spec_hash_bytes(h: H256) -> Seq<u8> {
    spec_be_bytes(h.high) + spec_be_bytes(h.low)
}

/// Which of the candidate keys a signature's `v` picks: `v` is 27 or 28, or
/// the bare 0 or 1, or carries the chain id as `2 * chain_id + 35` or one
/// more.
pub open spec fn spec_recovery_id(v: u64, chain_id: u64) -> Option<u8> {
    if v == 27 || v == 28 {
        Some((v - 27) as u8)
    } else if v <= 1 {
        Some(v as u8)
    } else if v == 2 * chain_id + 35 || v == 2 * chain_id + 36 {
        Some((v - 2 * chain_id - 35) as u8)
    } else {
        None
    }
}

/// The 65 bytes handed to recovery: `r`, `s`, then the recovery id.
pub open spec fn spec_signature_bytes(signature: EthereumSignature, id: u8) -> Seq<u8> {
    spec_hash_bytes(signature.r) + spec_hash_bytes(signature.s) + seq![id]
}

/// The address in a key's hash: its last twenty bytes, the most
/// significant first.
pub open spec fn spec_address_in(hash: Seq<u8>) -> Address {
    Address {
        head: spec_u32_from_le_bytes(spec_reversed(hash.subrange(12, 16))),
        tail: spec_u128_from_le_bytes(spec_reversed(hash.subrange(16, 32))),
    }
}

/// The sender of the transaction with digest `payload` and the given
/// signature: the hash of the recovered key, without the byte that tags it
/// as uncompressed, holds the address.
pub open spec fn spec_recover_address(
    signature: EthereumSignature,
    chain_id: u64,
    payload: H256,
) -> Option<Address> {
    match spec_recovery_id(signature.v, chain_id) {
        None => None,
        Some(id) => match recovered_key(
            spec_signature_bytes(signature, id),
            spec_hash_bytes(payload),
        ) {
            None => None,
            Some(key) => match uncompressed_key(key) {
                None => None,
                Some(full) => Some(spec_address_in(keccak_256(full.subrange(1, 65)))),
            },
        },
    }
}

fn reversed(bytes: &[u8]) -> (out: Vec<u8>)
    ensures
        out@ == spec_reversed(bytes@),
{
    let n: usize = bytes.len();
    let mut out: Vec<u8> = Vec::new();
    let mut i: usize = 0;
    while i < n
        invariant
            i <= n == bytes@.len(),
            out@.len() == i,
            forall|j: int| 0 <= j < i ==> out@[j] == bytes@[n - 1 - j],
        decreases n - i,
    {
        out.push(bytes[n - 1 - i]);
        i = i + 1;
    }
    assert(out@ =~= spec_reversed(bytes@));
    out
}

fn push_hash(h: H256, out: &mut Vec<u8>)
    ensures
        final(out)@ == old(out)@ + spec_hash_bytes(h),
{
    let mut high = reversed(u128_to_le_bytes(h.high).as_slice());
    let mut low = reversed(u128_to_le_bytes(h.low).as_slice());
    let ghost before = out@;
    out.append(&mut high);
    out.append(&mut low);
    assert(out@ =~= before + spec_hash_bytes(h));
}

/// Which of the candidate keys `v` picks, if it is a `v` of this chain.
pub fn recovery_id(v: u64, chain_id: u64) -> (r: Option<u8>)
    ensures
        r == spec_recovery_id(v, chain_id),
{
    let base: u128 = 2 * (chain_id as u128) + 35;
    if v == 27 || v == 28 {
        Some((v - 27) as u8)
    } else if v <= 1 {
        Some(v as u8)
    } else if v as u128 == base {
        Some(0)
    } else if v as u128 == base + 1 {
        Some(1)
    } else {
        None
    }
}

/// The address that signed the digest `payload`, or nothing where the
/// signature is not one of this chain or recovers no key.
pub fn recover_address(signature: &EthereumSignature, chain_id: u64, payload: H256) -> (r: Option<
    Address,
>)
    ensures
        r == spec_recover_address(*signature, chain_id, payload),
{
    let id = match recovery_id(signature.v, chain_id) {
        Some(id) => id,
        None => {
            return None;
        },
    };
    let mut raw: Vec<u8> = Vec::new();
    push_hash(signature.r, &mut raw);
    push_hash(signature.s, &mut raw);
    raw.push(id);
    let mut digest: Vec<u8> = Vec::new();
    push_hash(payload, &mut digest);
    proof {
        vstd::bytes::lemma_auto_spec_u128_to_from_le_bytes();
        assert(raw@ =~= spec_signature_bytes(*signature, id));
        assert(digest@ =~= spec_hash_bytes(payload));
    }
    let key = match ecdsa_recover(&raw, &digest) {
        Some(key) => key,
        None => {
            return None;
        },
    };
    let full = match decompress_key(&key) {
        Some(full) => full,
        None => {
            return None;
        },
    };
    let hash = keccak(slice_subrange(full.as_slice(), 1, 65));
    let head = reversed(slice_subrange(hash.as_slice(), 12, 16));
    let tail = reversed(slice_subrange(hash.as_slice(), 16, 32));
    Some(
        Address {
            head: u32_from_le_bytes(head.as_slice()),
            tail: u128_from_le_bytes(tail.as_slice()),
        },
    )
}

impl EthereumTransaction {
    /// Resolves the transaction whose digest is `payload`: the chain id is
    /// judged first, and only a transaction of this chain has its sender
    /// recovered from the signature.
    pub fn resolve_signed(&self, config: &ChainConfig, weight_per_gas: u64, payload: H256) -> (r:
        Result<TransactionInfo, Rejection>)
        ensures
            r == self.spec_resolve(
                *config,
                spec_recover_address(self.signature, config.chain_id, payload),
                weight_per_gas,
            ),
    {
        match self.check_chain(config) {
            Err(e) => Err(e),
            Ok(()) => {
                let recovered = recover_address(&self.signature, config.chain_id, payload);
                self.resolve(config, recovered, weight_per_gas)
            },
        }
    }
}

/// A transaction for another chain is rejected for that, whatever its
/// signature would recover.
pub proof fn lemma_wrong_chain_rejected(
    t: EthereumTransaction,
    config: ChainConfig,
    recovered: Option<Address>,
    weight_per_gas: u64,
)
    requires
        t.chain_id != config.chain_id,
    ensures
        t.spec_resolve(config, recovered, weight_per_gas) == Err::<TransactionInfo, Rejection>(
            Rejection::WrongChainId,
        ),
{
}

/// The sender depends on nothing but the signature, the chain id and the
/// digest: transactions that agree on these have the same sender, whatever
/// else they carry.
pub proof fn lemma_sender_depends_on_signature_alone(
    a: EthereumTransaction,
    b: EthereumTransaction,
    config: ChainConfig,
    payload: H256,
    weight_per_gas: u64,
)
    requires
        a.signature == b.signature,
        a.chain_id == config.chain_id,
        b.chain_id == config.chain_id,
    ensures
        match (
            a.spec_resolve(
                config,
                spec_recover_address(a.signature, config.chain_id, payload),
                weight_per_gas,
            ),
            b.spec_resolve(
                config,
                spec_recover_address(b.signature, config.chain_id, payload),
                weight_per_gas,
            ),
        ) {
            (Ok(x), Ok(y)) => x.sender == y.sender,
            (Err(e), Err(f)) => e == f,
            _ => false,
        },
{
}

} // verus!
