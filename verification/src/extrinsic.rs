//! The two shapes of a transaction and what the checks read of each.

use vstd::prelude::*;
use crate::account::{AccountId, Address, Identity, Nonce};
use crate::config::{ChainConfig, H256};
use crate::fee::Balance;
use crate::validation::{Era, Rejection, TransactionInfo};
use crate::weight::{DispatchClass, Weight};

verus! {

/// The values that a native transaction carries for the checks.
#[derive(Clone, Copy, Debug, PartialEq, Eq, Structural)]
pub struct SignedExtra {
    pub spec_version: u32,
    pub transaction_version: u32,
    pub genesis_hash: H256,
    pub era: Era,
    pub nonce: Nonce,
}

/// A transaction of the native shape: the caller is named in it.
#[derive(Debug, PartialEq, Eq)]
pub struct NativeExtrinsic {
    pub signer: AccountId,
    pub call: Vec<u8>,
    pub extra: SignedExtra,
    pub class: DispatchClass,
    /// The weight that the call declares.
    pub weight: Weight,
}

/// The signature of an Ethereum transaction.
#[derive(Clone, Copy, Debug, PartialEq, Eq, Structural)]
pub struct EthereumSignature {
    pub v: u64,
    pub r: H256,
    pub s: H256,
}

/// A transaction of the Ethereum shape: the sender is recovered from the
/// signature.
#[derive(Debug, PartialEq, Eq)]
pub struct EthereumTransaction {
    pub nonce: Nonce,
    pub gas_price: Balance,
    pub gas_limit: u64,
    pub to: Option<Address>,
    pub value: Balance,
    pub data: Vec<u8>,
    pub chain_id: u64,
    pub signature: EthereumSignature,
}

/// A transaction in either shape.
#[derive(Debug, PartialEq, Eq)]
pub enum Extrinsic {
    Native(NativeExtrinsic),
    SelfContained(EthereumTransaction),
}

/// The weight of `gas_limit` units of gas at `weight_per_gas` units of
/// reference time each, cut off at the largest value.
pub open spec fn spec_gas_weight(gas_limit: u64, weight_per_gas: u64) -> Weight {
    Weight {
        ref_time: if gas_limit * weight_per_gas > u64::MAX {
            u64::MAX
        } else {
            (gas_limit * weight_per_gas) as u64
        },
        proof_size: 0,
    }
}

/// The weight of `gas_limit` units of gas.
pub fn gas_weight(gas_limit: u64, weight_per_gas: u64) -> (w: Weight)
    ensures
        w == spec_gas_weight(gas_limit, weight_per_gas),
{
    match gas_limit.checked_mul(weight_per_gas) {
        Some(t) => Weight { ref_time: t, proof_size: 0 },
        None => Weight { ref_time: u64::MAX, proof_size: 0 },
    }
}

impl NativeExtrinsic {
    /// What the checks read of this transaction.
    pub open spec fn spec_info(self) -> TransactionInfo {
        TransactionInfo {
            sender: Identity::Native(self.signer),
            spec_version: self.extra.spec_version,
            transaction_version: self.extra.transaction_version,
            genesis_hash: self.extra.genesis_hash,
            era: self.extra.era,
            nonce: self.extra.nonce,
            class: self.class,
            weight: self.weight,
        }
    }

    pub fn info(&self) -> (t: TransactionInfo)
        ensures
            t == self.spec_info(),
    {
        TransactionInfo {
            sender: Identity::Native(self.signer),
            spec_version: self.extra.spec_version,
            transaction_version: self.extra.transaction_version,
            genesis_hash: self.extra.genesis_hash,
            era: self.extra.era,
            nonce: self.extra.nonce,
            class: self.class,
            weight: self.weight,
        }
    }
}

impl EthereumTransaction {
    /// What the checks read of this transaction once `sender` was recovered:
    /// it carries no versions and no era of its own, so it takes the chain's
    /// and never expires, and it is of the normal class.
    pub open spec fn spec_info(
        self,
        config: ChainConfig,
        sender: Address,
        weight_per_gas: u64,
    ) -> TransactionInfo {
        TransactionInfo {
            sender: Identity::Ethereum(sender),
            spec_version: config.spec_version,
            transaction_version: config.transaction_version,
            genesis_hash: config.genesis_hash,
            era: Era::Immortal,
            nonce: self.nonce,
            class: DispatchClass::Normal,
            weight: spec_gas_weight(self.gas_limit, weight_per_gas),
        }
    }

    /// The outcome of resolving this transaction when signature recovery
    /// gave `recovered`: the chain id is judged first.
    pub open spec fn spec_resolve(
        self,
        config: ChainConfig,
        recovered: Option<Address>,
        weight_per_gas: u64,
    ) -> Result<TransactionInfo, Rejection> {
        if self.chain_id != config.chain_id {
            Err(Rejection::WrongChainId)
        } else {
            match recovered {
                None => Err(Rejection::BadSignature),
                Some(sender) => Ok(self.spec_info(config, sender, weight_per_gas)),
            }
        }
    }

    /// Whether the sender is worth recovering: a transaction for another
    /// chain is rejected here, before any work on its signature.
    pub fn check_chain(&self, config: &ChainConfig) -> (r: Result<(), Rejection>)
        ensures
            r == if self.chain_id != config.chain_id {
                Err::<(), Rejection>(Rejection::WrongChainId)
            } else {
                Ok::<(), Rejection>(())
            },
    {
        if self.chain_id != config.chain_id {
            Err(Rejection::WrongChainId)
        } else {
            Ok(())
        }
    }

    /// Turns the transaction and the outcome of signature recovery into what
    /// the checks read.
    pub fn resolve(&self, config: &ChainConfig, recovered: Option<Address>, weight_per_gas: u64) -> (r:
        Result<TransactionInfo, Rejection>)
        ensures
            r == self.spec_resolve(*config, recovered, weight_per_gas),
    {
        if self.chain_id != config.chain_id {
            return Err(Rejection::WrongChainId);
        }
        match recovered {
            None => Err(Rejection::BadSignature),
            Some(sender) => Ok(
                TransactionInfo {
                    sender: Identity::Ethereum(sender),
                    spec_version: config.spec_version,
                    transaction_version: config.transaction_version,
                    genesis_hash: config.genesis_hash,
                    era: Era::Immortal,
                    nonce: self.nonce,
                    class: DispatchClass::Normal,
                    weight: gas_weight(self.gas_limit, weight_per_gas),
                },
            ),
        }
    }

    /// Resolves the transaction, calling `recover` for the sender only once
    /// the chain id was found right.
    pub fn resolve_with<F: Fn(&EthereumTransaction) -> Option<Address>>(
        &self,
        config: &ChainConfig,
        weight_per_gas: u64,
        recover: F,
    ) -> (r: Result<TransactionInfo, Rejection>)
        requires
            call_requires(recover, (self,)),
        ensures
            self.chain_id != config.chain_id ==> r == Err::<TransactionInfo, Rejection>(
                Rejection::WrongChainId,
            ),
            self.chain_id == config.chain_id ==> exists|recovered: Option<Address>|
                call_ensures(recover, (self,), recovered) && r == self.spec_resolve(
                    *config,
                    recovered,
                    weight_per_gas,
                ),
    {
        match self.check_chain(config) {
            Err(e) => Err(e),
            Ok(()) => {
                let recovered = recover(self);
                self.resolve(config, recovered, weight_per_gas)
            },
        }
    }
}

impl Extrinsic {
    /// The outcome of resolving this extrinsic; `recovered` counts for the
    /// Ethereum shape alone.
    pub open spec fn spec_resolve(
        self,
        config: ChainConfig,
        recovered: Option<Address>,
        weight_per_gas: u64,
    ) -> Result<TransactionInfo, Rejection> {
        match self {
            Extrinsic::Native(x) => Ok(x.spec_info()),
            Extrinsic::SelfContained(t) => t.spec_resolve(config, recovered, weight_per_gas),
        }
    }

    /// Whether the sender of this extrinsic has to be recovered from its
    /// signature. A transaction for another chain is rejected here.
    pub fn needs_recovery(&self, config: &ChainConfig) -> (r: Result<bool, Rejection>)
        ensures
            r == match *self {
                Extrinsic::Native(_) => Ok::<bool, Rejection>(false),
                Extrinsic::SelfContained(t) => if t.chain_id != config.chain_id {
                    Err::<bool, Rejection>(Rejection::WrongChainId)
                } else {
                    Ok::<bool, Rejection>(true)
                },
            },
    {
        match self {
            Extrinsic::Native(_) => Ok(false),
            Extrinsic::SelfContained(t) => match t.check_chain(config) {
                Ok(()) => Ok(true),
                Err(e) => Err(e),
            },
        }
    }

    /// What the checks read of this extrinsic, in either shape.
    pub fn resolve(&self, config: &ChainConfig, recovered: Option<Address>, weight_per_gas: u64) -> (r:
        Result<TransactionInfo, Rejection>)
        ensures
            r == self.spec_resolve(*config, recovered, weight_per_gas),
    {
        match self {
            Extrinsic::Native(x) => Ok(x.info()),
            Extrinsic::SelfContained(t) => t.resolve(config, recovered, weight_per_gas),
        }
    }
}

} // verus!
