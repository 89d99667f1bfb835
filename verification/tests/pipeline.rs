use orion_runtime::account::{AccountId, AccountState, Address, Identity};
use orion_runtime::config::{ChainConfig, H256};
use orion_runtime::extrinsic::{
    gas_weight, EthereumSignature, EthereumTransaction, Extrinsic, NativeExtrinsic, SignedExtra,
};
use orion_runtime::fee::{FeeCoefficient, WeightToFee};
use orion_runtime::validation::{
    apply, first_rejection, pipeline, validate, Applied, BlockContext, Check, CheckContext, Era,
    Rejection, RejectionKind, TransactionInfo, ValidTransaction,
};
use orion_runtime::weight::{BlockLimits, DispatchClass, Weight, WeightMeter};
use std::cell::Cell;

const GENESIS: H256 = H256 { high: 11, low: 22 };

fn fees() -> WeightToFee {
    WeightToFee::new(
        1_000_000_000_000_000,
        FeeCoefficient { coeff_integer: 1_000_000, coeff_frac: 0 },
    )
}

fn meter() -> WeightMeter {
    WeightMeter::new(BlockLimits {
        max_block: Weight::from_parts(4_000_000_000, 1_000),
        normal_max: Weight::from_parts(3_000_000_000, 1_000),
        operational_reserved: Weight::from_parts(1_000_000_000, 1_000),
    })
}

fn good_tx() -> TransactionInfo {
    TransactionInfo {
        sender: Identity::Native(AccountId { high: 1, low: 2 }),
        spec_version: 100,
        transaction_version: 1,
        genesis_hash: GENESIS,
        era: Era::Mortal { birth: 90, period: 64 },
        nonce: 3,
        class: DispatchClass::Normal,
        weight: Weight::from_parts(1_000_000_000, 0),
    }
}

fn context(tx: TransactionInfo, account: AccountState) -> CheckContext {
    CheckContext {
        block: BlockContext { config: ChainConfig::orion(GENESIS), block_number: 100 },
        meter: meter(),
        fees: fees(),
        account,
        tx,
    }
}

fn rich() -> AccountState {
    AccountState { nonce: 3, balance: 5_000_000_000_000_000 }
}

#[test]
fn a_good_transaction_is_valid() {
    let v = validate(&context(good_tx(), rich()));
    assert_eq!(
        v,
        Ok(ValidTransaction { priority: 2_000_000_000_000_000, longevity: 54, propagate: true })
    );
}

#[test]
fn priority_is_cut_off_and_immortal_lasts() {
    let mut cx = context(good_tx(), AccountState { nonce: 3, balance: u128::MAX });
    cx.fees = WeightToFee::new(u128::MAX, FeeCoefficient { coeff_integer: 0, coeff_frac: 0 });
    cx.tx.era = Era::Immortal;
    assert_eq!(
        validate(&cx),
        Ok(ValidTransaction { priority: u64::MAX, longevity: u64::MAX, propagate: true })
    );
}

#[test]
fn each_check_gives_its_own_reason() {
    let mut tx = good_tx();
    tx.sender = Identity::Native(AccountId { high: 0, low: 0 });
    assert_eq!(validate(&context(tx, rich())), Err(Rejection::ZeroSender));

    let mut tx = good_tx();
    tx.spec_version = 99;
    assert_eq!(validate(&context(tx, rich())), Err(Rejection::SpecVersionMismatch));

    let mut tx = good_tx();
    tx.transaction_version = 2;
    assert_eq!(validate(&context(tx, rich())), Err(Rejection::TransactionVersionMismatch));

    let mut tx = good_tx();
    tx.genesis_hash = H256 { high: 11, low: 23 };
    assert_eq!(validate(&context(tx, rich())), Err(Rejection::GenesisMismatch));

    let mut tx = good_tx();
    tx.era = Era::Mortal { birth: 101, period: 64 };
    assert_eq!(validate(&context(tx, rich())), Err(Rejection::TooEarly));

    let mut tx = good_tx();
    tx.era = Era::Mortal { birth: 36, period: 64 };
    assert_eq!(validate(&context(tx, rich())), Err(Rejection::Outdated));

    let mut tx = good_tx();
    tx.era = Era::Mortal { birth: 37, period: 64 };
    assert_eq!(validate(&context(tx, rich())).map(|v| v.longevity), Ok(1));

    let mut tx = good_tx();
    tx.era = Era::Mortal { birth: 100, period: 0 };
    assert_eq!(validate(&context(tx, rich())), Err(Rejection::Outdated));

    let mut tx = good_tx();
    tx.nonce = 2;
    assert_eq!(validate(&context(tx, rich())), Err(Rejection::StaleNonce));

    let mut tx = good_tx();
    tx.nonce = 4;
    assert_eq!(validate(&context(tx, rich())), Err(Rejection::FutureNonce));

    let mut tx = good_tx();
    tx.nonce = u32::MAX;
    let last = AccountState { nonce: u32::MAX, balance: u128::MAX };
    assert_eq!(validate(&context(tx, last)), Err(Rejection::AccountingOverflow));

    let mut tx = good_tx();
    tx.weight = Weight::from_parts(3_000_000_001, 0);
    let wealthy = AccountState { nonce: 3, balance: u128::MAX };
    assert_eq!(validate(&context(tx, wealthy)), Err(Rejection::WeightExhausted));

    let poor = AccountState { nonce: 3, balance: 1_999_999_999_999_999 };
    assert_eq!(validate(&context(good_tx(), poor)), Err(Rejection::InsufficientFunds));
    let enough = AccountState { nonce: 3, balance: 2_000_000_000_000_000 };
    assert!(validate(&context(good_tx(), enough)).is_ok());
}

#[test]
fn the_first_failing_check_decides() {
    let mut tx = good_tx();
    tx.sender = Identity::Ethereum(Address { head: 0, tail: 0 });
    tx.spec_version = 1;
    tx.nonce = 0;
    let poor = AccountState { nonce: 3, balance: 0 };
    assert_eq!(validate(&context(tx, poor)), Err(Rejection::ZeroSender));
    tx.sender = Identity::Ethereum(Address { head: 0, tail: 9 });
    assert_eq!(validate(&context(tx, poor)), Err(Rejection::SpecVersionMismatch));
    tx.spec_version = 100;
    tx.era = Era::Mortal { birth: 0, period: 10 };
    assert_eq!(validate(&context(tx, poor)), Err(Rejection::Outdated));
    tx.era = Era::Immortal;
    assert_eq!(validate(&context(tx, poor)), Err(Rejection::StaleNonce));
    tx.nonce = 3;
    tx.weight = Weight::from_parts(1, 1_001);
    assert_eq!(validate(&context(tx, poor)), Err(Rejection::WeightExhausted));
    tx.weight = Weight::from_parts(1, 1_000);
    assert_eq!(validate(&context(tx, poor)), Err(Rejection::InsufficientFunds));
}

#[test]
fn checks_run_in_the_given_order() {
    let order = pipeline();
    assert_eq!(
        order,
        vec![
            Check::NonZeroSender,
            Check::SpecVersion,
            Check::TransactionVersion,
            Check::Genesis,
            Check::Mortality,
            Check::Nonce,
            Check::Weight,
            Check::Payment,
        ]
    );
    let mut tx = good_tx();
    tx.nonce = 9;
    let poor = AccountState { nonce: 3, balance: 0 };
    let cx = context(tx, poor);
    assert_eq!(first_rejection(&order, &cx), Some(Rejection::FutureNonce));
    assert_eq!(
        first_rejection(&vec![Check::Payment, Check::Nonce], &cx),
        Some(Rejection::InsufficientFunds)
    );
    assert_eq!(first_rejection(&vec![Check::Genesis, Check::Weight], &cx), None);
    assert_eq!(first_rejection(&Vec::new(), &cx), None);
    assert_eq!(Check::Nonce.run(&cx), Some(Rejection::FutureNonce));
    assert_eq!(Check::Mortality.run(&cx), None);
}

#[test]
fn rejections_are_sorted_by_kind() {
    assert_eq!(Rejection::ZeroSender.kind(), RejectionKind::Invalid);
    assert_eq!(Rejection::SpecVersionMismatch.kind(), RejectionKind::Invalid);
    assert_eq!(Rejection::TransactionVersionMismatch.kind(), RejectionKind::Invalid);
    assert_eq!(Rejection::GenesisMismatch.kind(), RejectionKind::Invalid);
    assert_eq!(Rejection::Outdated.kind(), RejectionKind::Invalid);
    assert_eq!(Rejection::StaleNonce.kind(), RejectionKind::Invalid);
    assert_eq!(Rejection::InsufficientFunds.kind(), RejectionKind::Invalid);
    assert_eq!(Rejection::WrongChainId.kind(), RejectionKind::Invalid);
    assert_eq!(Rejection::BadSignature.kind(), RejectionKind::Invalid);
    assert_eq!(Rejection::TooEarly.kind(), RejectionKind::Retryable);
    assert_eq!(Rejection::FutureNonce.kind(), RejectionKind::Retryable);
    assert_eq!(Rejection::WeightExhausted.kind(), RejectionKind::Retryable);
    assert_eq!(Rejection::AccountingOverflow.kind(), RejectionKind::Fatal);
    assert_eq!(Rejection::OutOfTurn.kind(), RejectionKind::Fatal);
}

#[test]
fn apply_charges_fee_nonce_and_weight_together() {
    let mut m = meter();
    let block = BlockContext { config: ChainConfig::orion(GENESIS), block_number: 100 };
    let r = apply(&block, &mut m, &fees(), rich(), &good_tx());
    assert_eq!(
        r,
        Ok(Applied {
            account: AccountState { nonce: 4, balance: 3_000_000_000_000_000 },
            fee: 2_000_000_000_000_000,
            validity: ValidTransaction {
                priority: 2_000_000_000_000_000,
                longevity: 54,
                propagate: true
            },
        })
    );
    assert_eq!(m.consumed(DispatchClass::Normal), Weight::from_parts(1_000_000_000, 0));
    let again = apply(&block, &mut m, &fees(), r.unwrap().account, &good_tx());
    assert_eq!(again, Err(Rejection::StaleNonce));
    assert_eq!(m.consumed(DispatchClass::Normal), Weight::from_parts(1_000_000_000, 0));
}

#[test]
fn insufficient_funds_change_nothing() {
    let mut m = meter();
    let block = BlockContext { config: ChainConfig::orion(GENESIS), block_number: 100 };
    assert_eq!(block.config.chain_id, 1337);
    let poor = AccountState { nonce: 3, balance: 1_999_999_999_999_999 };
    let r = apply(&block, &mut m, &fees(), poor, &good_tx());
    assert_eq!(r, Err(Rejection::InsufficientFunds));
    assert_eq!(m, meter());
    assert_eq!(poor.nonce, 3);
    assert_eq!(fees().fee_for(good_tx().weight), 2_000_000_000_000_000);
}

fn ethereum(chain_id: u64) -> EthereumTransaction {
    EthereumTransaction {
        nonce: 3,
        gas_price: 1,
        gas_limit: 21_000,
        to: Some(Address { head: 7, tail: 7 }),
        value: 10,
        data: vec![1, 2, 3],
        chain_id,
        signature: EthereumSignature {
            v: 2709,
            r: H256 { high: 1, low: 1 },
            s: H256 { high: 2, low: 2 },
        },
    }
}

#[test]
fn wrong_chain_id_is_rejected_before_recovery() {
    let config = ChainConfig::orion(GENESIS);
    let calls = Cell::new(0u32);
    let r = ethereum(1).resolve_with(&config, 20_000, |_t: &EthereumTransaction| {
        calls.set(calls.get() + 1);
        Some(Address { head: 1, tail: 1 })
    });
    assert_eq!(r, Err(Rejection::WrongChainId));
    assert_eq!(calls.get(), 0);
    assert_eq!(ethereum(1).check_chain(&config), Err(Rejection::WrongChainId));
    assert_eq!(
        ethereum(1).resolve(&config, Some(Address { head: 1, tail: 1 }), 20_000),
        Err(Rejection::WrongChainId)
    );
    assert_eq!(ethereum(1).resolve(&config, None, 20_000), Err(Rejection::WrongChainId));
    assert_eq!(
        Extrinsic::SelfContained(ethereum(1)).needs_recovery(&config),
        Err(Rejection::WrongChainId)
    );
}

#[test]
fn right_chain_id_recovers_once() {
    let config = ChainConfig::orion(GENESIS);
    let calls = Cell::new(0u32);
    let sender = Address { head: 0xDEAD, tail: 0xBEEF };
    let r = ethereum(1337).resolve_with(&config, 20_000, |t: &EthereumTransaction| {
        calls.set(calls.get() + 1);
        assert_eq!(t.signature.v, 2709);
        Some(sender)
    });
    assert_eq!(calls.get(), 1);
    assert_eq!(
        r,
        Ok(TransactionInfo {
            sender: Identity::Ethereum(sender),
            spec_version: 100,
            transaction_version: 1,
            genesis_hash: GENESIS,
            era: Era::Immortal,
            nonce: 3,
            class: DispatchClass::Normal,
            weight: Weight::from_parts(420_000_000, 0),
        })
    );
    assert_eq!(ethereum(1337).check_chain(&config), Ok(()));
    assert_eq!(Extrinsic::SelfContained(ethereum(1337)).needs_recovery(&config), Ok(true));
}

#[test]
fn failed_recovery_is_a_bad_signature() {
    let config = ChainConfig::orion(GENESIS);
    assert_eq!(ethereum(1337).resolve(&config, None, 1), Err(Rejection::BadSignature));
    let r = ethereum(1337).resolve_with(&config, 1, |_t: &EthereumTransaction| None);
    assert_eq!(r, Err(Rejection::BadSignature));
}

#[test]
fn gas_weight_saturates() {
    assert_eq!(gas_weight(21_000, 20_000), Weight::from_parts(420_000_000, 0));
    assert_eq!(gas_weight(u64::MAX, 2), Weight::from_parts(u64::MAX, 0));
    assert_eq!(gas_weight(0, u64::MAX), Weight::from_parts(0, 0));
}

#[test]
fn native_extrinsic_resolves_to_its_fields() {
    let config = ChainConfig::orion(GENESIS);
    let x = NativeExtrinsic {
        signer: AccountId { high: 1, low: 2 },
        call: vec![9, 9],
        extra: SignedExtra {
            spec_version: 100,
            transaction_version: 1,
            genesis_hash: GENESIS,
            era: Era::Mortal { birth: 90, period: 64 },
            nonce: 3,
        },
        class: DispatchClass::Normal,
        weight: Weight::from_parts(1_000_000_000, 0),
    };
    assert_eq!(x.info(), good_tx());
    let e = Extrinsic::Native(x);
    assert_eq!(e.needs_recovery(&config), Ok(false));
    assert_eq!(e.resolve(&config, None, 5), Ok(good_tx()));
}

#[test]
fn ethereum_transaction_passes_the_same_checks() {
    let config = ChainConfig::orion(GENESIS);
    let sender = Address { head: 0xDEAD, tail: 0xBEEF };
    let info = Extrinsic::SelfContained(ethereum(1337)).resolve(&config, Some(sender), 20_000).unwrap();
    assert!(validate(&context(info, rich())).is_ok());
    let behind = AccountState { nonce: 4, balance: u128::MAX };
    assert_eq!(validate(&context(info, behind)), Err(Rejection::StaleNonce));
    let zero = Extrinsic::SelfContained(ethereum(1337))
        .resolve(&config, Some(Address { head: 0, tail: 0 }), 20_000)
        .unwrap();
    assert_eq!(validate(&context(zero, rich())), Err(Rejection::ZeroSender));
}
