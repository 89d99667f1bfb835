//! The executive: one block from initialisation over its extrinsics to the end.

use vstd::prelude::*;
use crate::account::AccountState;
use crate::fee::WeightToFee;
use crate::validation::{
    apply, spec_applied, spec_rejection, Applied, BlockContext, BlockNumber, CheckContext,
    Rejection, RejectionKind, TransactionInfo,
};
use crate::weight::{BlockLimits, DispatchClass, Weight, WeightMeter};

verus! {

/// On whose behalf a block is executed.
#[derive(Clone, Copy, Debug, PartialEq, Eq, Structural)]
pub enum Role {
    /// The block is being built here: a rejected extrinsic is left out.
    Producer,
    /// The block comes from elsewhere: a rejected extrinsic condemns it.
    Importer,
}

/// Where the executive stands in its block.
#[derive(Clone, Copy, Debug, PartialEq, Eq, Structural)]
pub enum Phase {
    /// No block was begun.
    Idle,
    /// The block takes extrinsics.
    Applying,
    /// An extrinsic was accepted and is being dispatched; the weight that it
    /// declared is reserved for it.
    Dispatching { class: DispatchClass, declared: Weight },
    /// The block is complete.
    Finalized,
    /// The block was abandoned.
    Halted,
}

/// What a complete block used of its budgets.
#[derive(Clone, Copy, Debug, PartialEq, Eq, Structural)]
pub struct BlockSummary {
    pub block_number: BlockNumber,
    pub normal: Weight,
    pub operational: Weight,
    pub mandatory: Weight,
}

/// The state of a block's execution. The weight counters in it belong to the
/// executive for as long as the block lasts.
#[derive(Clone, Copy, Debug)]
pub struct Executive {
    pub role: Role,
    pub block: BlockContext,
    pub fees: WeightToFee,
    pub meter: WeightMeter,
    pub phase: Phase,
}

impl Executive {
    /// What the checks read when `tx` is judged now against `account`.
    pub open spec fn spec_context(self, account: AccountState, tx: TransactionInfo) -> CheckContext {
        CheckContext { block: self.block, meter: self.meter, fees: self.fees, account, tx }
    }

    /// The phase after a rejection for reason `e`: an importer abandons the
    /// block, and so does anyone after a fatal rejection; a producer goes on.
    pub open spec fn spec_phase_after_rejection(self, e: Rejection) -> Phase {
        if self.role == Role::Importer || e.spec_kind() == RejectionKind::Fatal {
            Phase::Halted
        } else {
            Phase::Applying
        }
    }

    /// The meter once the reservation of `declared` gave way to `actual`.
    pub open spec fn spec_settled(self, class: DispatchClass, declared: Weight, actual: Weight) -> WeightMeter {
        self.meter.spec_refunded(class, declared).spec_charged(class, actual)
    }

    /// An executive that has not begun a block.
    pub fn new(role: Role, block: BlockContext, fees: WeightToFee, limits: BlockLimits) -> (e:
        Executive)
        ensures
            e.role == role,
            e.block == block,
            e.fees == fees,
            e.meter == WeightMeter::spec_fresh(limits),
            e.phase == Phase::Idle,
    {
        Executive { role, block, fees, meter: WeightMeter::new(limits), phase: Phase::Idle }
    }

    /// Begins block `block_number`: every counter goes back to zero, the
    /// block's fixed overhead is charged to the mandatory class, and the
    /// block takes extrinsics.
    pub fn initialize(&mut self, block_number: BlockNumber, overhead: Weight)
        ensures
            final(self).role == old(self).role,
            final(self).fees == old(self).fees,
            final(self).block == (BlockContext { block_number, ..old(self).block }),
            final(self).meter == WeightMeter::spec_fresh(old(self).meter.limits).spec_charged(
                DispatchClass::Mandatory,
                overhead,
            ),
            final(self).phase == Phase::Applying,
    {
        let mut meter = WeightMeter::new(self.meter.limits);
        let _ = meter.charge(DispatchClass::Mandatory, overhead);
        self.meter = meter;
        self.block = BlockContext { config: self.block.config, block_number };
        self.phase = Phase::Applying;
    }

    /// Puts one extrinsic through the checks. One that passes has its
    /// declared weight reserved and is handed out for dispatch with the
    /// sender's new state. One that is rejected changes no counter; whether
    /// the block goes on depends on the role and on the kind of rejection.
    /// Outside the applying phase nothing is done.
    pub fn apply_extrinsic(&mut self, account: AccountState, tx: &TransactionInfo) -> (r: Result<
        Applied,
        Rejection,
    >)
        ensures
            final(self).role == old(self).role,
            final(self).fees == old(self).fees,
            final(self).block == old(self).block,
            old(self).phase != Phase::Applying ==> r == Err::<Applied, Rejection>(
                Rejection::OutOfTurn,
            ) && *final(self) == *old(self),
            old(self).phase == Phase::Applying ==> match spec_rejection(
                old(self).spec_context(account, *tx),
            ) {
                Some(e) => r == Err::<Applied, Rejection>(e) && final(self).meter == old(self).meter && final(self).phase == old(self).spec_phase_after_rejection(e),
                None => r == Ok::<Applied, Rejection>(
                    spec_applied(old(self).spec_context(account, *tx)),
                ) && final(self).meter == old(self).meter.spec_charged(tx.class, tx.weight)
                    && final(self).phase == (Phase::Dispatching {
                    class: tx.class,
                    declared: tx.weight,
                }),
            },
    {
        match self.phase {
            Phase::Applying => {},
            _ => {
                return Err(Rejection::OutOfTurn);
            },
        }
        let mut meter = self.meter;
        match apply(&self.block, &mut meter, &self.fees, account, tx) {
            Ok(applied) => {
                self.meter = meter;
                self.phase = Phase::Dispatching { class: tx.class, declared: tx.weight };
                Ok(applied)
            },
            Err(e) => {
                let fatal = match e.kind() {
                    RejectionKind::Fatal => true,
                    _ => false,
                };
                let importing = match self.role {
                    Role::Importer => true,
                    Role::Producer => false,
                };
                if importing || fatal {
                    self.phase = Phase::Halted;
                }
                Err(e)
            },
        }
    }

    /// Records what the dispatched extrinsic really used: the reservation of
    /// its declared weight is replaced by `actual`. If the class has no room
    /// for `actual`, the block is abandoned and the reservation stays.
    /// Outside the dispatching phase nothing is done.
    pub fn note_dispatched(&mut self, actual: Weight) -> (r: Result<(), Rejection>)
        ensures
            final(self).role == old(self).role,
            final(self).fees == old(self).fees,
            final(self).block == old(self).block,
            match old(self).phase {
                Phase::Dispatching { class, declared } => if old(self).meter.spec_refunded(
                    class,
                    declared,
                ).spec_fits(class, actual) {
                    r == Ok::<(), Rejection>(()) && final(self).meter == old(self).spec_settled(
                        class,
                        declared,
                        actual,
                    ) && final(self).phase == Phase::Applying
                } else {
                    r == Err::<(), Rejection>(Rejection::AccountingOverflow) && final(self).meter
                        == old(self).meter && final(self).phase == Phase::Halted
                },
                _ => r == Err::<(), Rejection>(Rejection::OutOfTurn) && *final(self) == *old(self),
            },
    {
        match self.phase {
            Phase::Dispatching { class, declared } => {
                let mut meter = self.meter;
                meter.refund(class, declared);
                match meter.charge(class, actual) {
                    Ok(()) => {
                        self.meter = meter;
                        self.phase = Phase::Applying;
                        Ok(())
                    },
                    Err(_) => {
                        self.phase = Phase::Halted;
                        Err(Rejection::AccountingOverflow)
                    },
                }
            },
            _ => Err(Rejection::OutOfTurn),
        }
    }

    /// Ends the block. The totals are checked once more against the class
    /// ceilings: within them the block is complete and its totals are handed
    /// out, beyond them it is abandoned. Outside the applying phase nothing is
    /// done.
    pub fn finalize(&mut self) -> (r: Result<BlockSummary, Rejection>)
        ensures
            final(self).role == old(self).role,
            final(self).fees == old(self).fees,
            final(self).block == old(self).block,
            final(self).meter == old(self).meter,
            old(self).phase != Phase::Applying ==> r == Err::<BlockSummary, Rejection>(
                Rejection::OutOfTurn,
            ) && final(self).phase == old(self).phase,
            old(self).phase == Phase::Applying && !old(self).meter.spec_within_budget() ==> r
                == Err::<BlockSummary, Rejection>(Rejection::AccountingOverflow) && final(self).phase == Phase::Halted,
            old(self).phase == Phase::Applying && old(self).meter.spec_within_budget() ==> r
                == Ok::<BlockSummary, Rejection>(
                (BlockSummary {
                    block_number: old(self).block.block_number,
                    normal: old(self).meter.normal,
                    operational: old(self).meter.operational,
                    mandatory: old(self).meter.mandatory,
                }),
            ) && final(self).phase == Phase::Finalized,
    {
        match self.phase {
            Phase::Applying => {},
            _ => {
                return Err(Rejection::OutOfTurn);
            },
        }
        if !self.meter.within_budget() {
            self.phase = Phase::Halted;
            return Err(Rejection::AccountingOverflow);
        }
        self.phase = Phase::Finalized;
        Ok(
            BlockSummary {
                block_number: self.block.block_number,
                normal: self.meter.normal,
                operational: self.meter.operational,
                mandatory: self.meter.mandatory,
            },
        )
    }
}

/// An extrinsic of a bounded class that was accepted and then used `actual`
/// leaves the block's totals as if `actual` alone had been charged: nothing
/// of the declared weight stays behind.
pub proof fn lemma_only_actual_weight_counts(
    meter: WeightMeter,
    class: DispatchClass,
    declared: Weight,
    actual: Weight,
)
    requires
        class != DispatchClass::Mandatory,
        meter.spec_fits(class, declared),
    ensures
        meter.spec_charged(class, declared).spec_refunded(class, declared) == meter,
        meter.spec_charged(class, declared).spec_refunded(class, declared).spec_charged(
            class,
            actual,
        ) == meter.spec_charged(class, actual),
{
}

} // verus!
