use crate::record::VestingAccount;
use vstd::arithmetic::div_mod::lemma_div_is_ordered;
use vstd::arithmetic::div_mod::lemma_div_pos_is_pos;
use vstd::arithmetic::div_mod::lemma_multiply_divide_le;
use vstd::arithmetic::mul::lemma_mul_inequality;
use vstd::arithmetic::mul::lemma_mul_is_commutative;
use vstd::arithmetic::mul::lemma_mul_nonnegative;
use vstd::arithmetic::mul::lemma_mul_upper_bound;
use vstd::prelude::*;

verus! {

/// The amount vested at `now`: the deposit scaled by the elapsed fraction of
/// the schedule, rounded down, and clamped to `[0, total_deposited_amount]`.
/// Accrual runs from `start_ts`, not from the end of the cliff: the cliff
/// only gates release, it does not delay accrual. At or past
/// `start_ts + duration` the result is the whole deposit, exactly.
pub open spec fn vested_spec(r: VestingAccount, now: i64) -> int {
    if now < r.start_ts {
        0
    } else if r.duration <= now - r.start_ts {
        r.total_deposited_amount as int
    } else {
        (r.total_deposited_amount as int * (now - r.start_ts)) / (r.duration as int)
    }
}

/// The vested amount never leaves `[0, total_deposited_amount]`.
pub proof fn lemma_vested_bounds(r: VestingAccount, now: i64)
    ensures
        0 <= vested_spec(r, now) <= r.total_deposited_amount,
{
    let t = r.total_deposited_amount as int;
    let d = r.duration as int;
    if r.start_ts <= now && now - r.start_ts < d {
        let e = now - r.start_ts;
        lemma_mul_nonnegative(t, e);
        lemma_div_pos_is_pos(t * e, d);
        lemma_mul_inequality(e, d, t);
        lemma_mul_is_commutative(t, e);
        lemma_mul_is_commutative(t, d);
        lemma_multiply_divide_le(t * e, d, t);
    }
}

/// The vested amount is monotonically non-decreasing in `now`.
pub proof fn lemma_vested_monotonic(r: VestingAccount, now1: i64, now2: i64)
    requires
        now1 <= now2,
    ensures
        vested_spec(r, now1) <= vested_spec(r, now2),
{
    let t = r.total_deposited_amount as int;
    let d = r.duration as int;
    if now1 < r.start_ts {
        lemma_vested_bounds(r, now2);
    } else if d <= now1 - r.start_ts {
        // Both instants are at or past the end: both sides are the deposit.
    } else if d <= now2 - r.start_ts {
        lemma_vested_bounds(r, now1);
    } else {
        let e1 = now1 - r.start_ts;
        let e2 = now2 - r.start_ts;
        lemma_mul_inequality(e1, e2, t);
        lemma_mul_is_commutative(t, e1);
        lemma_mul_is_commutative(t, e2);
        lemma_div_is_ordered(t * e1, t * e2, d);
    }
}

/// Before the schedule starts, nothing is vested.
pub proof fn lemma_vested_before_start(r: VestingAccount, now: i64)
    requires
        now < r.start_ts,
    ensures
        vested_spec(r, now) == 0,
{
}

/// At the end of the schedule the vested amount equals the deposit exactly.
pub proof fn lemma_vested_at_end(r: VestingAccount)
    requires
        r.schedule_wf(),
    ensures
        vested_spec(r, (r.start_ts + r.duration) as i64) == r.total_deposited_amount,
{
}

impl VestingAccount {
    /// The amount vested at `current_time`, computed with wide integer
    /// arithmetic and floor division so that full vesting reproduces the
    /// deposit exactly, with no drift for large amounts.
    pub fn vested_amount(&self, current_time: i64) -> (amount: u64)
        requires
            self.schedule_wf(),
        ensures
            amount == vested_spec(*self, current_time),
    {
        if current_time < self.start_ts {
            0
        } else if current_time >= self.start_ts + self.duration {
            self.total_deposited_amount
        } else {
            let elapsed: i64 = current_time - self.start_ts;
            proof {
                lemma_mul_upper_bound(
                    self.total_deposited_amount as int,
                    u64::MAX as int,
                    elapsed as int,
                    i64::MAX as int,
                );
                lemma_vested_bounds(*self, current_time);
            }
            let num: u128 = (self.total_deposited_amount as u128) * (elapsed as u128);
            let quotient: u128 = num / (self.duration as u128);
            quotient as u64
        }
    }
}

} // verus!
