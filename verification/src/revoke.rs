use crate::errors::ErrorCode;
use crate::record::VestingAccount;
use crate::schedule::lemma_vested_bounds;
use crate::schedule::vested_spec;
use vstd::prelude::*;

verus! {

/// What a revoke request at `now` returns: the unvested remainder to
/// transfer back to the owner, or the error that refused the request.
pub open spec fn revoke_res(r: VestingAccount, now: i64) -> Result<u64, ErrorCode> {
    if !r.revocable {
        Err(ErrorCode::NotRevocable)
    } else if r.revoked {
        Err(ErrorCode::AlreadyRevoked)
    } else if now < r.start_ts + r.duration {
        if vested_spec(r, now) < r.total_deposited_amount {
            Ok((r.total_deposited_amount - vested_spec(r, now)) as u64)
        } else {
            Err(ErrorCode::AlreadyEmpty)
        }
    } else {
        Err(ErrorCode::FullyVested)
    }
}

/// The record as a revoke request at `now` leaves it. Errors leave the
/// record unchanged; success marks it revoked and books the clawback into
/// `released_amount`.
pub open spec fn revoke_new(r: VestingAccount, now: i64) -> VestingAccount {
    if revoke_res(r, now) is Ok {
        VestingAccount {
            revoked: true,
            released_amount: (r.released_amount + r.total_deposited_amount - vested_spec(
                r,
                now,
            )) as u64,
            ..r
        }
    } else {
        r
    }
}

/// An owner-initiated early termination at time `now`. On success the
/// returned amount is the unvested remainder the runtime must transfer from
/// custody back to the owner, atomically with persisting the updated record;
/// everything vested by `now` stays earmarked for the beneficiary, claimable
/// afterwards through the drain branch of withdraw.
///
/// Branches, first match wins: a record without the revocation right is
/// `NotRevocable`; a second revoke is `AlreadyRevoked`; at or past full
/// duration nothing is unvested, so `FullyVested`; otherwise the clawback is
/// `total_deposited_amount - vested_spec(rec, now)`, and `AlreadyEmpty` if
/// that is zero.
///
/// The second precondition says the record has not outrun the clock: what
/// earlier withdraws released is covered by what has vested by `now`. It
/// holds whenever `now` is not earlier than the times of those calls.
pub fn revoke(rec: &mut VestingAccount, now: i64) -> (result: Result<u64, ErrorCode>)
    requires
        old(rec).inv(),
        old(rec).revocable && !old(rec).revoked && now < old(rec).start_ts + old(rec).duration
            ==> old(rec).released_amount <= vested_spec(*old(rec), now),
    ensures
        *final(rec) == revoke_new(*old(rec), now),
        result == revoke_res(*old(rec), now),
        final(rec).inv(),
        old(rec).released_amount <= final(rec).released_amount,
        final(rec).revoked == (old(rec).revoked || result is Ok),
        result is Err ==> *final(rec) == *old(rec),
        result matches Ok(amount) ==> {
            &&& amount == old(rec).total_deposited_amount - vested_spec(*old(rec), now)
            &&& final(rec).released_amount == old(rec).released_amount + amount
        },
{
    if !rec.revocable {
        Err(ErrorCode::NotRevocable)
    } else if rec.revoked {
        Err(ErrorCode::AlreadyRevoked)
    } else if now < rec.start_ts + rec.duration {
        let vested = rec.vested_amount(now);
        proof {
            lemma_vested_bounds(*rec, now);
        }
        let transfer = rec.total_deposited_amount - vested;
        if transfer > 0 {
            rec.revoked = true;
            rec.released_amount = rec.released_amount + transfer;
            Ok(transfer)
        } else {
            Err(ErrorCode::AlreadyEmpty)
        }
    } else {
        Err(ErrorCode::FullyVested)
    }
}

/// Revocation is a one-way transition: after a successful revoke, every
/// later revoke reports `AlreadyRevoked` and changes nothing.
pub proof fn lemma_revoke_one_way(r: VestingAccount, now1: i64, now2: i64)
    requires
        r.inv(),
        revoke_res(r, now1) is Ok,
    ensures
        revoke_res(revoke_new(r, now1), now2) == Err::<u64, ErrorCode>(ErrorCode::AlreadyRevoked),
        revoke_new(revoke_new(r, now1), now2) == revoke_new(r, now1),
{
}

} // verus!
