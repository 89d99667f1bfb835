//! Transaction-processing core of the Orion chain: weight accounting, fee
//! conversion, the account bridge, recovery of Ethereum senders, the ordered
//! validation checks, the wire format of extrinsics and the per-block
//! executive.

pub mod ratio;
pub mod weight;
pub mod fee;
pub mod config;
pub mod account;
pub mod validation;
pub mod extrinsic;
pub mod executive;
pub mod bridge;
pub mod codec;
pub mod recovery;

pub use crate::account::{AccountId, Address, Nonce};
pub use crate::config::{
    native_version, version, H256, CHAIN_ID, ORN_SS58_PREFIX, ORN_TOKEN_DECIMALS, ORN_TOKEN_SYMBOL,
};
pub use crate::fee::{Balance, WeightToFee};
pub use crate::validation::BlockNumber;
pub use crate::weight::{DispatchClass, Weight};
