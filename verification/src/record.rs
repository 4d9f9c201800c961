use vstd::prelude::*;

verus! {

/// An identity on the surrounding ledger: a party (beneficiary, owner) or a
/// fungible asset. The escrow never inspects an identity; it only records who
/// may withdraw, who may revoke, and which asset is held in custody. The
/// runtime that authenticates callers maps its own keys to these values.
#[derive(Clone, Copy, Debug, PartialEq, Eq, Structural)]
pub struct AccountId {
    pub id: u64,
}

/// The persisted state of one vesting agreement: the immutable schedule
/// parameters fixed at creation, and the running totals that withdraw and
/// revoke advance.
#[derive(Clone, Copy, Debug, PartialEq, Eq, Structural)]
pub struct VestingAccount {
    /// Who may withdraw vested tokens.
    pub beneficiary: AccountId,
    /// When vesting begins; accrual is measured from here, cliff included.
    pub start_ts: i64,
    /// Offset from `start_ts` before which no release is permitted. Vesting
    /// still accrues during the cliff; the cliff only gates release.
    pub cliff_ts: i64,
    /// Time from `start_ts` until the deposit is fully vested.
    pub duration: i64,
    /// Whether the owner retains the right to revoke the unvested remainder.
    pub revocable: bool,
    /// Who may revoke, if `revocable`.
    pub owner: AccountId,
    /// The fungible asset held in custody.
    pub mint: AccountId,
    /// Amount deposited at initialization; immutable afterwards.
    pub total_deposited_amount: u64,
    /// Cumulative amount ever transferred out; never decreases.
    pub released_amount: u64,
    /// Terminal flag: once set, the only remaining movement is a single
    /// drain of the unreleased remainder to the beneficiary.
    pub revoked: bool,
}

impl VestingAccount {
    /// The schedule parameters are within machine bounds: the cliff and the
    /// duration are non-negative offsets, and both schedule endpoints exist
    /// as timestamps.
    pub open spec fn schedule_wf(self) -> bool {
        &&& 0 <= self.cliff_ts
        &&& 0 <= self.duration
        &&& self.start_ts + self.cliff_ts <= i64::MAX
        &&& self.start_ts + self.duration <= i64::MAX
    }

    /// Holds after every operation: the schedule is well formed and no more
    /// than the deposit has ever been released.
    pub open spec fn inv(self) -> bool {
        &&& self.schedule_wf()
        &&& self.released_amount <= self.total_deposited_amount
    }
}

/// Creates the record for a new vesting agreement. Nothing has been released
/// and the record is not revoked; the deposit of `amount` into custody is the
/// runtime's side of the same transaction.
pub fn initialize(
    amount: u64,
    start_ts: i64,
    cliff_ts: i64,
    duration: i64,
    revocable: bool,
    beneficiary: AccountId,
    owner: AccountId,
    mint: AccountId,
) -> (rec: VestingAccount)
    requires
        0 <= cliff_ts,
        0 <= duration,
        start_ts + cliff_ts <= i64::MAX,
        start_ts + duration <= i64::MAX,
    ensures
        rec == (VestingAccount {
            beneficiary,
            start_ts,
            cliff_ts,
            duration,
            revocable,
            owner,
            mint,
            total_deposited_amount: amount,
            released_amount: 0u64,
            revoked: false,
        }),
        rec.inv(),
{
    VestingAccount {
        beneficiary,
        start_ts,
        cliff_ts,
        duration,
        revocable,
        owner,
        mint,
        total_deposited_amount: amount,
        released_amount: 0,
        revoked: false,
    }
}

} // verus!
