//! The chain's fixed parameters and the runtime's version.

use vstd::prelude::*;

verus! {

/// Orion native token symbol.
pub const ORN_TOKEN_SYMBOL: &'static str = "ORN";

/// Orion token decimals, as on the EVM.
pub const ORN_TOKEN_DECIMALS: u8 = 18;

/// Address prefix of the development chain.
pub const ORN_SS58_PREFIX: u16 = 42;

/// EVM chain id of the development chain.
pub const CHAIN_ID: u64 = 1337;

/// The runtime's specification version.
pub const SPEC_VERSION: u32 = 100;

/// The version of the transaction format.
pub const TRANSACTION_VERSION: u32 = 1;

/// A 256-bit hash, as two halves.
#[derive(Clone, Copy, Debug, PartialEq, Eq, Structural)]
pub struct H256 {
    pub high: u128,
    pub low: u128,
}

/// What identifies a runtime.
#[derive(Clone, Copy, Debug)]
pub struct RuntimeVersion {
    pub spec_name: &'static str,
    pub impl_name: &'static str,
    pub authoring_version: u32,
    pub spec_version: u32,
    pub impl_version: u32,
    pub transaction_version: u32,
    pub state_version: u8,
}

/// The runtime's version together with the authoring versions that a native
/// build may also author with.
#[derive(Debug)]
pub struct NativeVersion {
    pub runtime_version: RuntimeVersion,
    pub can_author_with: Vec<u32>,
}

/// The values of this runtime's version.
pub open spec fn spec_is_orion_version(v: RuntimeVersion) -> bool {
    &&& v.spec_name@ == "orion"@
    &&& v.impl_name@ == "orion"@
    &&& v.authoring_version == 1
    &&& v.spec_version == SPEC_VERSION
    &&& v.impl_version == 1
    &&& v.transaction_version == TRANSACTION_VERSION
    &&& v.state_version == 1
}

/// This runtime's version.
pub fn version() -> (v: RuntimeVersion)
    ensures
        spec_is_orion_version(v),
{
    RuntimeVersion {
        spec_name: "orion",
        impl_name: "orion",
        authoring_version: 1,
        spec_version: SPEC_VERSION,
        impl_version: 1,
        transaction_version: TRANSACTION_VERSION,
        state_version: 1,
    }
}

/// The version information used to identify this runtime when compiled natively.
pub fn native_version() -> (v: NativeVersion)
    ensures
        spec_is_orion_version(v.runtime_version),
        v.can_author_with@.len() == 0,
{
    NativeVersion { runtime_version: version(), can_author_with: Vec::new() }
}

/// The parameters fixed at genesis, handed to every component that needs them.
#[derive(Clone, Copy, Debug, PartialEq, Eq, Structural)]
pub struct ChainConfig {
    pub chain_id: u64,
    pub spec_version: u32,
    pub transaction_version: u32,
    pub genesis_hash: H256,
    pub token_decimals: u8,
    pub address_prefix: u16,
}

impl ChainConfig {
    /// The development chain's parameters over the given genesis block.
    pub fn orion(genesis_hash: H256) -> (c: ChainConfig)
        ensures
            c == (ChainConfig {
                chain_id: CHAIN_ID,
                spec_version: SPEC_VERSION,
                transaction_version: TRANSACTION_VERSION,
                genesis_hash,
                token_decimals: ORN_TOKEN_DECIMALS,
                address_prefix: ORN_SS58_PREFIX,
            }),
    {
        ChainConfig {
            chain_id: CHAIN_ID,
            spec_version: SPEC_VERSION,
            transaction_version: TRANSACTION_VERSION,
            genesis_hash,
            token_decimals: ORN_TOKEN_DECIMALS,
            address_prefix: ORN_SS58_PREFIX,
        }
    }
}

} // verus!
