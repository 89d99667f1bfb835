//! Weight: the two-dimensional cost of executing an extrinsic.

use vstd::prelude::*;

verus! {

/// A cost in two dimensions, both counted in 64 bits.
#[derive(Clone, Copy, Debug, PartialEq, Eq, Structural)]
pub struct Weight {
    pub ref_time: u64,
    pub proof_size: u64,
}

impl Weight {
    /// Both dimensions of `self` are at most those of `other`.
    pub open spec fn spec_all_lte(self, other: Weight) -> bool {
        self.ref_time <= other.ref_time && self.proof_size <= other.proof_size
    }

    pub fn from_parts(ref_time: u64, proof_size: u64) -> (w: Weight)
        ensures
            w.ref_time == ref_time,
            w.proof_size == proof_size,
    {
        Weight { ref_time, proof_size }
    }

    pub fn zero() -> (w: Weight)
        ensures
            w.ref_time == 0,
            w.proof_size == 0,
    {
        Weight { ref_time: 0, proof_size: 0 }
    }

    #[verifier::when_used_as_spec(spec_all_lte)]
    pub fn all_lte(self, other: Weight) -> (b: bool)
        ensures
            b == self.spec_all_lte(other),
    {
        self.ref_time <= other.ref_time && self.proof_size <= other.proof_size
    }

    /// The sum in each dimension, cut off at the largest value.
    pub open spec fn spec_saturating_add(self, other: Weight) -> Weight {
        Weight {
            ref_time: cut(self.ref_time + other.ref_time),
            proof_size: cut(self.proof_size + other.proof_size),
        }
    }

    /// The difference in each dimension, cut off at zero.
    pub open spec fn spec_saturating_sub(self, other: Weight) -> Weight {
        Weight {
            ref_time: cut(self.ref_time - other.ref_time),
            proof_size: cut(self.proof_size - other.proof_size),
        }
    }

    #[verifier::when_used_as_spec(spec_saturating_add)]
    pub fn saturating_add(self, other: Weight) -> (w: Weight)
        ensures
            w == self.spec_saturating_add(other),
    {
        Weight {
            ref_time: self.ref_time.saturating_add(other.ref_time),
            proof_size: self.proof_size.saturating_add(other.proof_size),
        }
    }

    #[verifier::when_used_as_spec(spec_saturating_sub)]
    pub fn saturating_sub(self, other: Weight) -> (w: Weight)
        ensures
            w == self.spec_saturating_sub(other),
    {
        Weight {
            ref_time: self.ref_time.saturating_sub(other.ref_time),
            proof_size: self.proof_size.saturating_sub(other.proof_size),
        }
    }
}

/// `v` cut off at zero and at the largest 64-bit value.
pub open spec fn cut(v: int) -> u64 {
    if v < 0 {
        0
    } else if v > u64::MAX {
        u64::MAX
    } else {
        v as u64
    }
}

/// The partition of a block's budget that an extrinsic draws on.
#[derive(Clone, Copy, Debug, PartialEq, Eq, Structural)]
pub enum DispatchClass {
    /// User traffic, held to a share of the block.
    Normal,
    /// Administrative traffic, which may fill the block and has a reserve.
    Operational,
    /// System extrinsics that must always run.
    Mandatory,
}

/// The budget of the class does not admit the charge.
#[derive(Clone, Copy, Debug, PartialEq, Eq, Structural)]
pub struct WeightExhausted;

/// The budgets of one block.
#[derive(Clone, Copy, Debug, PartialEq, Eq, Structural)]
pub struct BlockLimits {
    /// The ceiling on the block as a whole.
    pub max_block: Weight,
    /// The ceiling on the normal class.
    pub normal_max: Weight,
    /// What the operational class may use even when the block is full.
    pub operational_reserved: Weight,
}

/// The room left in one dimension. `max`, `normal_max` and `reserved` are the
/// limits, `normal`, `operational` and `mandatory` what each class has used.
///
/// The normal class stays under its own ceiling and under the block's. The
/// operational class stays under the block's ceiling for what it uses itself,
/// and beyond that either the block as a whole has room or the class is still
/// inside its reserve. The mandatory class is never held back.
pub open spec fn room(
    class: DispatchClass,
    max: u64,
    normal_max: u64,
    reserved: u64,
    normal: u64,
    operational: u64,
    mandatory: u64,
) -> u64 {
    let total = normal + operational + mandatory;
    match class {
        DispatchClass::Normal => cut(vstd::math::min(normal_max - normal, max - total)),
        DispatchClass::Operational => cut(
            vstd::math::min(
                max - operational,
                vstd::math::max(max - total, reserved - operational),
            ),
        ),
        DispatchClass::Mandatory => u64::MAX,
    }
}

fn room_of(
    class: DispatchClass,
    max: u64,
    normal_max: u64,
    reserved: u64,
    normal: u64,
    operational: u64,
    mandatory: u64,
) -> (r: u64)
    ensures
        r == room(class, max, normal_max, reserved, normal, operational, mandatory),
{
    let total: u128 = normal as u128 + operational as u128 + mandatory as u128;
    let block_room: u64 = if total >= max as u128 {
        0
    } else {
        (max as u128 - total) as u64
    };
    match class {
        DispatchClass::Normal => {
            let own: u64 = normal_max.saturating_sub(normal);
            if own < block_room {
                own
            } else {
                block_room
            }
        },
        DispatchClass::Operational => {
            let own: u64 = max.saturating_sub(operational);
            let spare: u64 = reserved.saturating_sub(operational);
            let best: u64 = if spare > block_room {
                spare
            } else {
                block_room
            };
            if own < best {
                own
            } else {
                best
            }
        },
        DispatchClass::Mandatory => u64::MAX,
    }
}

/// The running totals of one block, one per class, with the block's budgets.
#[derive(Clone, Copy, Debug, PartialEq, Eq, Structural)]
pub struct WeightMeter {
    pub limits: BlockLimits,
    pub normal: Weight,
    pub operational: Weight,
    pub mandatory: Weight,
}

impl WeightMeter {
    /// What `class` has used so far.
    pub open spec fn spec_consumed(self, class: DispatchClass) -> Weight {
        match class {
            DispatchClass::Normal => self.normal,
            DispatchClass::Operational => self.operational,
            DispatchClass::Mandatory => self.mandatory,
        }
    }

    /// The largest weight that `class` can still be charged.
    pub open spec fn spec_remaining(self, class: DispatchClass) -> Weight {
        Weight {
            ref_time: room(
                class,
                self.limits.max_block.ref_time,
                self.limits.normal_max.ref_time,
                self.limits.operational_reserved.ref_time,
                self.normal.ref_time,
                self.operational.ref_time,
                self.mandatory.ref_time,
            ),
            proof_size: room(
                class,
                self.limits.max_block.proof_size,
                self.limits.normal_max.proof_size,
                self.limits.operational_reserved.proof_size,
                self.normal.proof_size,
                self.operational.proof_size,
                self.mandatory.proof_size,
            ),
        }
    }

    /// The charge is within what `class` has left.
    pub open spec fn spec_fits(self, class: DispatchClass, amount: Weight) -> bool {
        amount.spec_all_lte(self.spec_remaining(class))
    }

    /// The meter with the total of `class` replaced.
    pub open spec fn spec_with(self, class: DispatchClass, total: Weight) -> WeightMeter {
        match class {
            DispatchClass::Normal => WeightMeter { normal: total, ..self },
            DispatchClass::Operational => WeightMeter { operational: total, ..self },
            DispatchClass::Mandatory => WeightMeter { mandatory: total, ..self },
        }
    }

    /// The meter after `amount` was added to the total of `class`.
    pub open spec fn spec_charged(self, class: DispatchClass, amount: Weight) -> WeightMeter {
        self.spec_with(class, self.spec_consumed(class).spec_saturating_add(amount))
    }

    /// The meter after `amount` was taken back from the total of `class`.
    pub open spec fn spec_refunded(self, class: DispatchClass, amount: Weight) -> WeightMeter {
        self.spec_with(class, self.spec_consumed(class).spec_saturating_sub(amount))
    }

    /// No class is above its own ceiling.
    pub open spec fn spec_within_budget(self) -> bool {
        self.normal.spec_all_lte(self.limits.normal_max) && self.operational.spec_all_lte(
            self.limits.max_block,
        )
    }

    /// The meter of a block that has used nothing.
    pub open spec fn spec_fresh(limits: BlockLimits) -> WeightMeter {
        WeightMeter {
            limits,
            normal: Weight { ref_time: 0, proof_size: 0 },
            operational: Weight { ref_time: 0, proof_size: 0 },
            mandatory: Weight { ref_time: 0, proof_size: 0 },
        }
    }

    /// A meter for a fresh block: every total is zero.
    pub fn new(limits: BlockLimits) -> (m: WeightMeter)
        ensures
            m == WeightMeter::spec_fresh(limits),
    {
        WeightMeter {
            limits,
            normal: Weight::zero(),
            operational: Weight::zero(),
            mandatory: Weight::zero(),
        }
    }

    pub fn consumed(&self, class: DispatchClass) -> (w: Weight)
        ensures
            w == self.spec_consumed(class),
    {
        match class {
            DispatchClass::Normal => self.normal,
            DispatchClass::Operational => self.operational,
            DispatchClass::Mandatory => self.mandatory,
        }
    }

    pub fn remaining(&self, class: DispatchClass) -> (w: Weight)
        ensures
            w == self.spec_remaining(class),
    {
        Weight {
            ref_time: room_of(
                class,
                self.limits.max_block.ref_time,
                self.limits.normal_max.ref_time,
                self.limits.operational_reserved.ref_time,
                self.normal.ref_time,
                self.operational.ref_time,
                self.mandatory.ref_time,
            ),
            proof_size: room_of(
                class,
                self.limits.max_block.proof_size,
                self.limits.normal_max.proof_size,
                self.limits.operational_reserved.proof_size,
                self.normal.proof_size,
                self.operational.proof_size,
                self.mandatory.proof_size,
            ),
        }
    }

    fn set(&mut self, class: DispatchClass, total: Weight)
        ensures
            *final(self) == old(self).spec_with(class, total),
    {
        match class {
            DispatchClass::Normal => {
                self.normal = total;
            },
            DispatchClass::Operational => {
                self.operational = total;
            },
            DispatchClass::Mandatory => {
                self.mandatory = total;
            },
        }
    }

    /// Adds `amount` to the total of `class` if the class has that much left,
    /// and changes nothing otherwise. The mandatory class is never refused.
    pub fn charge(&mut self, class: DispatchClass, amount: Weight) -> (r: Result<
        (),
        WeightExhausted,
    >)
        ensures
            r.is_ok() == old(self).spec_fits(class, amount),
            r.is_ok() ==> *final(self) == old(self).spec_charged(class, amount),
            r.is_err() ==> *final(self) == *old(self),
            class == DispatchClass::Mandatory ==> r.is_ok(),
    {
        let left = self.remaining(class);
        if !amount.all_lte(left) {
            return Err(WeightExhausted);
        }
        let total = self.consumed(class).saturating_add(amount);
        self.set(class, total);
        Ok(())
    }

    /// Takes `amount` back from the total of `class`, down to zero at most.
    pub fn refund(&mut self, class: DispatchClass, amount: Weight)
        ensures
            *final(self) == old(self).spec_refunded(class, amount),
    {
        let total = self.consumed(class).saturating_sub(amount);
        self.set(class, total);
    }

    /// Whether every class is within its own ceiling.
    pub fn within_budget(&self) -> (b: bool)
        ensures
            b == self.spec_within_budget(),
    {
        self.normal.all_lte(self.limits.normal_max) && self.operational.all_lte(
            self.limits.max_block,
        )
    }

    /// The meter after the charges `ws` were tried in order on `class`, up to
    /// the first that does not fit, and the number of charges made.
    pub open spec fn spec_charge_all(self, class: DispatchClass, ws: Seq<Weight>) -> (
        WeightMeter,
        nat,
    )
        decreases ws.len(),
    {
        if ws.len() == 0 {
            (self, 0)
        } else if self.spec_fits(class, ws[0]) {
            let (m, n) = self.spec_charged(class, ws[0]).spec_charge_all(class, ws.drop_first());
            (m, n + 1)
        } else {
            (self, 0)
        }
    }
}

/// The reference times of `ws` added up.
pub open spec fn sum_ref_time(ws: Seq<Weight>) -> int
    decreases ws.len(),
{
    if ws.len() == 0 {
        0
    } else {
        ws[0].ref_time + sum_ref_time(ws.drop_first())
    }
}

/// The proof sizes of `ws` added up.
pub open spec fn sum_proof_size(ws: Seq<Weight>) -> int
    decreases ws.len(),
{
    if ws.len() == 0 {
        0
    } else {
        ws[0].proof_size + sum_proof_size(ws.drop_first())
    }
}

/// Charges that together fit in what a bounded class has left are all made,
/// and the total of the class then grew by exactly their sum.
pub proof fn lemma_charges_accumulate(m: WeightMeter, class: DispatchClass, ws: Seq<Weight>)
    requires
        class != DispatchClass::Mandatory,
        sum_ref_time(ws) <= m.spec_remaining(class).ref_time,
        sum_proof_size(ws) <= m.spec_remaining(class).proof_size,
    ensures
        m.spec_charge_all(class, ws).1 == ws.len(),
        m.spec_charge_all(class, ws).0.spec_consumed(class).ref_time == m.spec_consumed(
            class,
        ).ref_time + sum_ref_time(ws),
        m.spec_charge_all(class, ws).0.spec_consumed(class).proof_size == m.spec_consumed(
            class,
        ).proof_size + sum_proof_size(ws),
        m.spec_charge_all(class, ws).0.spec_remaining(class).ref_time == m.spec_remaining(
            class,
        ).ref_time - sum_ref_time(ws),
        m.spec_charge_all(class, ws).0.spec_remaining(class).proof_size == m.spec_remaining(
            class,
        ).proof_size - sum_proof_size(ws),
    decreases ws.len(),
{
    lemma_sums_nonnegative(ws);
    if ws.len() > 0 {
        lemma_sums_nonnegative(ws.drop_first());
        lemma_charges_accumulate(m.spec_charged(class, ws[0]), class, ws.drop_first());
    }
}

/// A charge that would take a bounded class past what it has left, after
/// charges that fit, is refused, and the totals stay where the earlier
/// charges left them.
pub proof fn lemma_charge_fails_closed(
    m: WeightMeter,
    class: DispatchClass,
    ws: Seq<Weight>,
    next: Weight,
)
    requires
        class != DispatchClass::Mandatory,
        sum_ref_time(ws) <= m.spec_remaining(class).ref_time,
        sum_proof_size(ws) <= m.spec_remaining(class).proof_size,
        sum_ref_time(ws) + next.ref_time > m.spec_remaining(class).ref_time || sum_proof_size(ws)
            + next.proof_size > m.spec_remaining(class).proof_size,
    ensures
        m.spec_charge_all(class, ws.push(next)) == m.spec_charge_all(class, ws),
        m.spec_charge_all(class, ws.push(next)).1 == ws.len(),
    decreases ws.len(),
{
    lemma_sums_nonnegative(ws);
    lemma_charges_accumulate(m, class, ws);
    if ws.len() == 0 {
        assert(ws.push(next).drop_first() =~= ws);
        assert(ws.push(next)[0] == next);
    } else {
        lemma_sums_nonnegative(ws.drop_first());
        assert(ws.push(next).drop_first() =~= ws.drop_first().push(next));
        assert(ws.push(next)[0] == ws[0]);
        lemma_charge_fails_closed(m.spec_charged(class, ws[0]), class, ws.drop_first(), next);
    }
}

proof fn lemma_sums_nonnegative(ws: Seq<Weight>)
    ensures
        sum_ref_time(ws) >= 0,
        sum_proof_size(ws) >= 0,
    decreases ws.len(),
{
    if ws.len() > 0 {
        lemma_sums_nonnegative(ws.drop_first());
    }
}

} // verus!
