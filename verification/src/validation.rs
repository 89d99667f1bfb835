//! The ordered checks that decide whether a transaction may be applied.

use vstd::prelude::*;
use crate::account::{
    charge_fee_and_nonce, spec_charge_error, spec_charged_account, AccountState, ChargeError,
    Identity, Nonce,
};
use crate::config::{ChainConfig, H256};
use crate::fee::{Balance, WeightToFee};
use crate::weight::{DispatchClass, Weight, WeightMeter};

verus! {

/// The number of a block.
pub type BlockNumber = u32;

/// For how many blocks a transaction may be included.
#[derive(Clone, Copy, Debug, PartialEq, Eq, Structural)]
pub enum Era {
    /// In any block.
    Immortal,
    /// From block `birth` on, in `period` blocks.
    Mortal { birth: BlockNumber, period: BlockNumber },
}

/// What the checks read of a transaction, in either shape.
#[derive(Clone, Copy, Debug, PartialEq, Eq, Structural)]
pub struct TransactionInfo {
    pub sender: Identity,
    pub spec_version: u32,
    pub transaction_version: u32,
    pub genesis_hash: H256,
    pub era: Era,
    pub nonce: Nonce,
    pub class: DispatchClass,
    /// The weight that the transaction declares.
    pub weight: Weight,
}

/// Why a transaction is turned away.
#[derive(Clone, Copy, Debug, PartialEq, Eq, Structural)]
pub enum Rejection {
    ZeroSender,
    SpecVersionMismatch,
    TransactionVersionMismatch,
    GenesisMismatch,
    /// The validity window has closed.
    Outdated,
    /// The validity window has not opened yet.
    TooEarly,
    StaleNonce,
    FutureNonce,
    /// The block has no room for the declared weight.
    WeightExhausted,
    InsufficientFunds,
    WrongChainId,
    BadSignature,
    /// A counter would leave its range.
    AccountingOverflow,
    /// The executive is not applying extrinsics.
    OutOfTurn,
}

/// Whether a rejected transaction is worth another try.
#[derive(Clone, Copy, Debug, PartialEq, Eq, Structural)]
pub enum RejectionKind {
    /// It will never be valid.
    Invalid,
    /// It may be valid in a later block.
    Retryable,
    /// Something that must not happen did: the block is abandoned.
    Fatal,
}

impl Rejection {
    pub open spec fn spec_kind(self) -> RejectionKind {
        match self {
            Rejection::TooEarly | Rejection::FutureNonce | Rejection::WeightExhausted => {
                RejectionKind::Retryable
            },
            Rejection::AccountingOverflow | Rejection::OutOfTurn => RejectionKind::Fatal,
            _ => RejectionKind::Invalid,
        }
    }

    #[verifier::when_used_as_spec(spec_kind)]
    pub fn kind(self) -> (k: RejectionKind)
        ensures
            k == self.spec_kind(),
    {
        match self {
            Rejection::TooEarly | Rejection::FutureNonce | Rejection::WeightExhausted => {
                RejectionKind::Retryable
            },
            Rejection::AccountingOverflow | Rejection::OutOfTurn => RejectionKind::Fatal,
            _ => RejectionKind::Invalid,
        }
    }

    /// The rejection that stands for a failed charge.
    pub open spec fn spec_from_charge(e: ChargeError) -> Rejection {
        match e {
            ChargeError::Stale => Rejection::StaleNonce,
            ChargeError::Future => Rejection::FutureNonce,
            ChargeError::NonceOverflow => Rejection::AccountingOverflow,
            ChargeError::InsufficientFunds => Rejection::InsufficientFunds,
        }
    }

    #[verifier::when_used_as_spec(spec_from_charge)]
    pub fn from_charge(e: ChargeError) -> (r: Rejection)
        ensures
            r == Rejection::spec_from_charge(e),
    {
        match e {
            ChargeError::Stale => Rejection::StaleNonce,
            ChargeError::Future => Rejection::FutureNonce,
            ChargeError::NonceOverflow => Rejection::AccountingOverflow,
            ChargeError::InsufficientFunds => Rejection::InsufficientFunds,
        }
    }
}

/// What a valid transaction is worth to a pool.
#[derive(Clone, Copy, Debug, PartialEq, Eq, Structural)]
pub struct ValidTransaction {
    pub priority: u64,
    /// The number of blocks for which the verdict stands.
    pub longevity: u64,
    pub propagate: bool,
}

/// The block in which a transaction is judged.
#[derive(Clone, Copy, Debug, PartialEq, Eq, Structural)]
pub struct BlockContext {
    pub config: ChainConfig,
    pub block_number: BlockNumber,
}

/// Everything a check may read.
#[derive(Clone, Copy, Debug)]
pub struct CheckContext {
    pub block: BlockContext,
    pub meter: WeightMeter,
    pub fees: WeightToFee,
    pub account: AccountState,
    pub tx: TransactionInfo,
}

/// One check of the pipeline.
#[derive(Clone, Copy, Debug, PartialEq, Eq, Structural)]
pub enum Check {
    NonZeroSender,
    SpecVersion,
    TransactionVersion,
    Genesis,
    Mortality,
    Nonce,
    Weight,
    Payment,
}

/// The verdict of the mortality check in block `now`.
pub open spec fn spec_era_rejection(era: Era, now: BlockNumber) -> Option<Rejection> {
    match era {
        Era::Immortal => None,
        Era::Mortal { birth, period } => if now < birth {
            Some(Rejection::TooEarly)
        } else if now - birth >= period {
            Some(Rejection::Outdated)
        } else {
            None
        },
    }
}

/// For how many blocks, counted from `now`, the era lets a transaction in.
pub open spec fn spec_longevity(era: Era, now: BlockNumber) -> u64 {
    match era {
        Era::Immortal => u64::MAX,
        Era::Mortal { birth, period } => if birth <= now && now - birth < period {
            (birth + period - now) as u64
        } else {
            0
        },
    }
}

/// The verdict of the nonce check.
pub open spec fn spec_nonce_rejection(account: AccountState, nonce: Nonce) -> Option<Rejection> {
    if nonce < account.nonce {
        Some(Rejection::StaleNonce)
    } else if nonce > account.nonce {
        Some(Rejection::FutureNonce)
    } else if account.nonce == u32::MAX {
        Some(Rejection::AccountingOverflow)
    } else {
        None
    }
}

impl Check {
    /// The verdict of this check alone: `None` where it lets the transaction pass.
    pub open spec fn spec_run(self, cx: CheckContext) -> Option<Rejection> {
        match self {
            Check::NonZeroSender => if cx.tx.sender.spec_is_zero() {
                Some(Rejection::ZeroSender)
            } else {
                None
            },
            Check::SpecVersion => if cx.tx.spec_version != cx.block.config.spec_version {
                Some(Rejection::SpecVersionMismatch)
            } else {
                None
            },
            Check::TransactionVersion => if cx.tx.transaction_version
                != cx.block.config.transaction_version {
                Some(Rejection::TransactionVersionMismatch)
            } else {
                None
            },
            Check::Genesis => if cx.tx.genesis_hash != cx.block.config.genesis_hash {
                Some(Rejection::GenesisMismatch)
            } else {
                None
            },
            Check::Mortality => spec_era_rejection(cx.tx.era, cx.block.block_number),
            Check::Nonce => spec_nonce_rejection(cx.account, cx.tx.nonce),
            Check::Weight => if cx.meter.spec_fits(cx.tx.class, cx.tx.weight) {
                None
            } else {
                Some(Rejection::WeightExhausted)
            },
            Check::Payment => if cx.account.balance < cx.fees.spec_fee_for(cx.tx.weight) {
                Some(Rejection::InsufficientFunds)
            } else {
                None
            },
        }
    }

    /// Runs this check alone.
    pub fn run(self, cx: &CheckContext) -> (r: Option<Rejection>)
        ensures
            r == self.spec_run(*cx),
    {
        match self {
            Check::NonZeroSender => if cx.tx.sender.is_zero() {
                Some(Rejection::ZeroSender)
            } else {
                None
            },
            Check::SpecVersion => if cx.tx.spec_version != cx.block.config.spec_version {
                Some(Rejection::SpecVersionMismatch)
            } else {
                None
            },
            Check::TransactionVersion => if cx.tx.transaction_version
                != cx.block.config.transaction_version {
                Some(Rejection::TransactionVersionMismatch)
            } else {
                None
            },
            Check::Genesis => if cx.tx.genesis_hash != cx.block.config.genesis_hash {
                Some(Rejection::GenesisMismatch)
            } else {
                None
            },
            Check::Mortality => match cx.tx.era {
                Era::Immortal => None,
                Era::Mortal { birth, period } => if cx.block.block_number < birth {
                    Some(Rejection::TooEarly)
                } else if cx.block.block_number - birth >= period {
                    Some(Rejection::Outdated)
                } else {
                    None
                },
            },
            Check::Nonce => if cx.tx.nonce < cx.account.nonce {
                Some(Rejection::StaleNonce)
            } else if cx.tx.nonce > cx.account.nonce {
                Some(Rejection::FutureNonce)
            } else if cx.account.nonce == u32::MAX {
                Some(Rejection::AccountingOverflow)
            } else {
                None
            },
            Check::Weight => if cx.tx.weight.all_lte(cx.meter.remaining(cx.tx.class)) {
                None
            } else {
                Some(Rejection::WeightExhausted)
            },
            Check::Payment => if cx.account.balance < cx.fees.fee_for(cx.tx.weight) {
                Some(Rejection::InsufficientFunds)
            } else {
                None
            },
        }
    }
}

/// The verdict of the first check in `checks` that rejects; `None` where
/// every one of them passes.
pub open spec fn spec_first_rejection(checks: Seq<Check>, cx: CheckContext) -> Option<Rejection>
    decreases checks.len(),
{
    if checks.len() == 0 {
        None
    } else {
        match checks[0].spec_run(cx) {
            Some(e) => Some(e),
            None => spec_first_rejection(checks.drop_first(), cx),
        }
    }
}

/// The checks in the order in which every transaction meets them.
pub open spec fn spec_pipeline() -> Seq<Check> {
    seq![
        Check::NonZeroSender,
        Check::SpecVersion,
        Check::TransactionVersion,
        Check::Genesis,
        Check::Mortality,
        Check::Nonce,
        Check::Weight,
        Check::Payment,
    ]
}

/// The checks in the order in which every transaction meets them.
pub fn pipeline() -> (checks: Vec<Check>)
    ensures
        checks@ == spec_pipeline(),
{
    let checks = vec![
        Check::NonZeroSender,
        Check::SpecVersion,
        Check::TransactionVersion,
        Check::Genesis,
        Check::Mortality,
        Check::Nonce,
        Check::Weight,
        Check::Payment,
    ];
    assert(checks@ =~= spec_pipeline());
    checks
}

/// Runs `checks` from the left and stops at the first that rejects.
pub fn first_rejection(checks: &Vec<Check>, cx: &CheckContext) -> (r: Option<Rejection>)
    ensures
        r == spec_first_rejection(checks@, *cx),
{
    let mut i: usize = 0;
    assert(checks@.subrange(0, checks@.len() as int) =~= checks@);
    while i < checks.len()
        invariant
            i <= checks.len(),
            spec_first_rejection(checks@, *cx) == spec_first_rejection(
                checks@.subrange(i as int, checks@.len() as int),
                *cx,
            ),
        decreases checks.len() - i,
    {
        let rest = Ghost(checks@.subrange(i as int, checks@.len() as int));
        assert(rest@[0] == checks@[i as int]);
        assert(rest@.drop_first() =~= checks@.subrange(i as int + 1, checks@.len() as int));
        match checks[i].run(cx) {
            Some(e) => {
                return Some(e);
            },
            None => {},
        }
        i = i + 1;
    }
    assert(checks@.subrange(i as int, checks@.len() as int).len() == 0);
    None
}

/// Where `checks` reject, the verdict is that of the leftmost check that
/// rejects; where they do not, every check passes.
pub proof fn lemma_first_rejection(checks: Seq<Check>, cx: CheckContext)
    ensures
        match spec_first_rejection(checks, cx) {
            Some(e) => exists|k: int|
                0 <= k < checks.len() && #[trigger] checks[k].spec_run(cx) == Some(e) && forall|
                    j: int,
                |
                    0 <= j < k ==> (#[trigger] checks[j].spec_run(cx)) is None,
            None => forall|j: int|
                0 <= j < checks.len() ==> (#[trigger] checks[j].spec_run(cx)) is None,
        },
    decreases checks.len(),
{
    if checks.len() > 0 {
        let rest = checks.drop_first();
        lemma_first_rejection(rest, cx);
        match checks[0].spec_run(cx) {
            Some(e) => {
                assert(checks[0].spec_run(cx) == Some(e));
            },
            None => {
                match spec_first_rejection(rest, cx) {
                    Some(e) => {
                        let k = choose|k: int|
                            0 <= k < rest.len() && #[trigger] rest[k].spec_run(cx) == Some(e)
                                && forall|j: int|
                                0 <= j < k ==> (#[trigger] rest[j].spec_run(cx)) is None;
                        assert(checks[k + 1] == rest[k]);
                        assert forall|j: int| 0 <= j < k + 1 implies (
                        #[trigger] checks[j].spec_run(cx)) is None by {
                            if j > 0 {
                                assert(checks[j] == rest[j - 1]);
                            }
                        }
                        assert(checks[k + 1].spec_run(cx) == Some(e));
                    },
                    None => {
                        assert forall|j: int| 0 <= j < checks.len() implies (
                        #[trigger] checks[j].spec_run(cx)) is None by {
                            if j > 0 {
                                assert(checks[j] == rest[j - 1]);
                            }
                        }
                    },
                }
            },
        }
    }
}

/// The verdict of the pipeline, written out: the first of the eight checks
/// that rejects decides.
pub open spec fn spec_rejection(cx: CheckContext) -> Option<Rejection> {
    if cx.tx.sender.spec_is_zero() {
        Some(Rejection::ZeroSender)
    } else if cx.tx.spec_version != cx.block.config.spec_version {
        Some(Rejection::SpecVersionMismatch)
    } else if cx.tx.transaction_version != cx.block.config.transaction_version {
        Some(Rejection::TransactionVersionMismatch)
    } else if cx.tx.genesis_hash != cx.block.config.genesis_hash {
        Some(Rejection::GenesisMismatch)
    } else if spec_era_rejection(cx.tx.era, cx.block.block_number) is Some {
        spec_era_rejection(cx.tx.era, cx.block.block_number)
    } else if spec_nonce_rejection(cx.account, cx.tx.nonce) is Some {
        spec_nonce_rejection(cx.account, cx.tx.nonce)
    } else if !cx.meter.spec_fits(cx.tx.class, cx.tx.weight) {
        Some(Rejection::WeightExhausted)
    } else if cx.account.balance < cx.fees.spec_fee_for(cx.tx.weight) {
        Some(Rejection::InsufficientFunds)
    } else {
        None
    }
}

/// The pipeline's verdict is that of its eight checks taken in order.
pub proof fn lemma_pipeline_verdict(cx: CheckContext)
    ensures
        spec_first_rejection(spec_pipeline(), cx) == spec_rejection(cx),
{
    let p = spec_pipeline();
    lemma_first_rejection(p, cx);
    assert(p.len() == 8);
    assert(p[0] == Check::NonZeroSender);
    assert(p[1] == Check::SpecVersion);
    assert(p[2] == Check::TransactionVersion);
    assert(p[3] == Check::Genesis);
    assert(p[4] == Check::Mortality);
    assert(p[5] == Check::Nonce);
    assert(p[6] == Check::Weight);
    assert(p[7] == Check::Payment);
    let _ = p[0].spec_run(cx);
    let _ = p[1].spec_run(cx);
    let _ = p[2].spec_run(cx);
    let _ = p[3].spec_run(cx);
    let _ = p[4].spec_run(cx);
    let _ = p[5].spec_run(cx);
    let _ = p[6].spec_run(cx);
    let _ = p[7].spec_run(cx);
}

/// The fee as a priority: cut off at the largest 64-bit value.
pub open spec fn spec_priority(fee: Balance) -> u64 {
    if fee > u64::MAX {
        u64::MAX
    } else {
        fee as u64
    }
}

/// What a transaction that passed every check is worth: a higher fee ranks
/// higher, and the verdict stands as long as the era does.
pub open spec fn spec_validity(cx: CheckContext) -> ValidTransaction {
    ValidTransaction {
        priority: spec_priority(cx.fees.spec_fee_for(cx.tx.weight)),
        longevity: spec_longevity(cx.tx.era, cx.block.block_number),
        propagate: true,
    }
}

/// The outcome of validating the transaction of `cx`.
pub open spec fn spec_validate(cx: CheckContext) -> Result<ValidTransaction, Rejection> {
    match spec_rejection(cx) {
        Some(e) => Err(e),
        None => Ok(spec_validity(cx)),
    }
}

fn longevity(era: Era, now: BlockNumber) -> (l: u64)
    ensures
        l == spec_longevity(era, now),
{
    match era {
        Era::Immortal => u64::MAX,
        Era::Mortal { birth, period } => if birth <= now && now - birth < period {
            birth as u64 + period as u64 - now as u64
        } else {
            0
        },
    }
}

/// Judges a transaction without changing anything: the first check that
/// rejects gives the reason, and a transaction that passes them all gets its
/// priority and longevity.
pub fn validate(cx: &CheckContext) -> (r: Result<ValidTransaction, Rejection>)
    ensures
        r == spec_validate(*cx),
{
    proof {
        lemma_pipeline_verdict(*cx);
    }
    let checks = pipeline();
    match first_rejection(&checks, cx) {
        Some(e) => Err(e),
        None => {
            let fee = cx.fees.fee_for(cx.tx.weight);
            let priority: u64 = if fee > u64::MAX as u128 {
                u64::MAX
            } else {
                fee as u64
            };
            Ok(
                ValidTransaction {
                    priority,
                    longevity: longevity(cx.tx.era, cx.block.block_number),
                    propagate: true,
                },
            )
        },
    }
}

/// What applying a transaction did: the sender's new state on the ledger,
/// the fee that was collected, and the verdict.
#[derive(Clone, Copy, Debug, PartialEq, Eq, Structural)]
pub struct Applied {
    pub account: AccountState,
    pub fee: Balance,
    pub validity: ValidTransaction,
}

/// What applying the transaction of `cx` does once every check has passed.
pub open spec fn spec_applied(cx: CheckContext) -> Applied {
    Applied {
        account: spec_charged_account(cx.account, cx.fees.spec_fee_for(cx.tx.weight)),
        fee: cx.fees.spec_fee_for(cx.tx.weight),
        validity: spec_validity(cx),
    }
}

/// Judges a transaction and, if it is valid, reserves its declared weight on
/// the meter, takes the fee and moves the nonce on. A transaction that is
/// rejected changes nothing.
pub fn apply(
    block: &BlockContext,
    meter: &mut WeightMeter,
    fees: &WeightToFee,
    account: AccountState,
    tx: &TransactionInfo,
) -> (r: Result<Applied, Rejection>)
    ensures
        match spec_rejection(
            (CheckContext { block: *block, meter: *old(meter), fees: *fees, account, tx: *tx }),
        ) {
            Some(e) => r == Err::<Applied, Rejection>(e) && *final(meter) == *old(meter),
            None => r == Ok::<Applied, Rejection>(
                spec_applied(
                    (CheckContext {
                        block: *block,
                        meter: *old(meter),
                        fees: *fees,
                        account,
                        tx: *tx,
                    }),
                ),
            ) && *final(meter) == old(meter).spec_charged(tx.class, tx.weight),
        },
{
    let cx = CheckContext { block: *block, meter: *meter, fees: *fees, account, tx: *tx };
    let validity = match validate(&cx) {
        Ok(v) => v,
        Err(e) => {
            return Err(e);
        },
    };
    let fee = fees.fee_for(tx.weight);
    assert(spec_charge_error(account, fee, tx.nonce) is None);
    let charged = match charge_fee_and_nonce(account, fee, tx.nonce) {
        Ok(a) => a,
        Err(e) => {
            return Err(Rejection::from_charge(e));
        },
    };
    match meter.charge(tx.class, tx.weight) {
        Ok(()) => Ok(Applied { account: charged, fee, validity }),
        Err(_) => Err(Rejection::WeightExhausted),
    }
}

/// A transaction that was applied moved its sender's nonce on by exactly
/// one, and handed in again unchanged it is rejected as stale, whatever the
/// block then has left.
pub proof fn lemma_applied_once(cx: CheckContext, later_meter: WeightMeter)
    requires
        spec_rejection(cx) is None,
    ensures
        spec_applied(cx).account.nonce == cx.account.nonce + 1,
        spec_validate(
            (CheckContext { account: spec_applied(cx).account, meter: later_meter, ..cx }),
        ) == Err::<ValidTransaction, Rejection>(Rejection::StaleNonce),
{
}

/// A rejection for want of funds comes exactly when the balance is below the
/// fee and the same transaction from an account that can pay passes every
/// check.
pub proof fn lemma_insufficient_funds(cx: CheckContext)
    ensures
        spec_validate(cx) == Err::<ValidTransaction, Rejection>(Rejection::InsufficientFunds)
            <==> cx.account.balance < cx.fees.spec_fee_for(cx.tx.weight) && spec_rejection(
            (CheckContext {
                account: (AccountState { balance: u128::MAX, ..cx.account }),
                ..cx
            }),
        ) is None,
{
}

} // verus!
