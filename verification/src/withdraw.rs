use crate::errors::ErrorCode;
use crate::record::VestingAccount;
use crate::schedule::lemma_vested_bounds;
use crate::schedule::vested_spec;
use vstd::prelude::*;

verus! {

/// The record as a withdraw request at `now` leaves it. Errors leave the
/// record unchanged; a successful mid-schedule release advances
/// `released_amount` to the vested amount, and either terminal drain branch
/// advances it to the whole deposit.
pub open spec fn withdraw_new(r: VestingAccount, now: i64) -> VestingAccount {
    if r.revoked {
        VestingAccount { released_amount: r.total_deposited_amount, ..r }
    } else if now < r.start_ts + r.cliff_ts {
        r
    } else if now < r.start_ts + r.duration {
        VestingAccount { released_amount: vested_spec(r, now) as u64, ..r }
    } else {
        VestingAccount { released_amount: r.total_deposited_amount, ..r }
    }
}

/// What a withdraw request at `now` returns: the amount to transfer to the
/// beneficiary, or the error that refused the request.
pub open spec fn withdraw_res(r: VestingAccount, now: i64) -> Result<u64, ErrorCode> {
    if r.revoked {
        if r.released_amount < r.total_deposited_amount {
            Ok((r.total_deposited_amount - r.released_amount) as u64)
        } else {
            Err(ErrorCode::AlreadyEmpty)
        }
    } else if now < r.start_ts + r.cliff_ts {
        Err(ErrorCode::NotPastCliff)
    } else if now < r.start_ts + r.duration {
        Ok((vested_spec(r, now) - r.released_amount) as u64)
    } else {
        if r.released_amount < r.total_deposited_amount {
            Ok((r.total_deposited_amount - r.released_amount) as u64)
        } else {
            Err(ErrorCode::AlreadyEmpty)
        }
    }
}

/// A beneficiary-initiated release at time `now`. On success the returned
/// amount is what the runtime must transfer from custody to the beneficiary,
/// atomically with persisting the updated record.
///
/// Branches, first match wins:
/// - record revoked: drain the unreleased remainder in one shot, or
///   `AlreadyEmpty` if none is left;
/// - before the cliff: `NotPastCliff`;
/// - mid-schedule: release what has vested beyond `released_amount`. A call
///   that finds nothing newly vested succeeds with a zero transfer; only the
///   two drain branches report `AlreadyEmpty`;
/// - at or past full duration: drain the remainder, or `AlreadyEmpty`.
///
/// The second precondition says the record has not outrun the clock: what was
/// already released by earlier calls is covered by what has vested by `now`.
/// It holds whenever `now` is not earlier than the times of those calls.
pub fn withdraw(rec: &mut VestingAccount, now: i64) -> (result: Result<u64, ErrorCode>)
    requires
        old(rec).inv(),
        !old(rec).revoked && old(rec).start_ts + old(rec).cliff_ts <= now && now < old(
            rec,
        ).start_ts + old(rec).duration ==> old(rec).released_amount <= vested_spec(
            *old(rec),
            now,
        ),
    ensures
        *final(rec) == withdraw_new(*old(rec), now),
        result == withdraw_res(*old(rec), now),
        final(rec).inv(),
        old(rec).released_amount <= final(rec).released_amount,
        final(rec).revoked == old(rec).revoked,
        result is Err ==> *final(rec) == *old(rec),
        !old(rec).revoked && result is Ok ==> final(rec).released_amount == vested_spec(
            *old(rec),
            now,
        ),
        result matches Ok(amount) ==> final(rec).released_amount == old(rec).released_amount
            + amount,
{
    if rec.revoked {
        let remainder = rec.total_deposited_amount - rec.released_amount;
        if remainder > 0 {
            rec.released_amount = rec.total_deposited_amount;
            Ok(remainder)
        } else {
            Err(ErrorCode::AlreadyEmpty)
        }
    } else if now < rec.start_ts + rec.cliff_ts {
        Err(ErrorCode::NotPastCliff)
    } else if now < rec.start_ts + rec.duration {
        let vested = rec.vested_amount(now);
        proof {
            lemma_vested_bounds(*rec, now);
        }
        let transfer = vested - rec.released_amount;
        rec.released_amount = vested;
        Ok(transfer)
    } else {
        let remainder = rec.total_deposited_amount - rec.released_amount;
        if remainder > 0 {
            rec.released_amount = rec.total_deposited_amount;
            Ok(remainder)
        } else {
            Err(ErrorCode::AlreadyEmpty)
        }
    }
}

/// After any successful withdraw on a record that is not revoked, the
/// cumulative released amount equals the amount vested at the time of the
/// call; a run of successful withdraws therefore always leaves
/// `released_amount` tracking the vested amount at the last call.
pub proof fn lemma_withdraw_tracks_vested(r: VestingAccount, now: i64)
    requires
        r.inv(),
        !r.revoked,
        withdraw_res(r, now) is Ok,
    ensures
        withdraw_new(r, now).released_amount == vested_spec(r, now),
{
    lemma_vested_bounds(r, now);
}

/// Terminal drain happens once: after a revoked record has been drained by a
/// successful withdraw, every later withdraw reports `AlreadyEmpty` and
/// changes nothing.
pub proof fn lemma_terminal_drain(r: VestingAccount, now1: i64, now2: i64)
    requires
        r.inv(),
        r.revoked,
        withdraw_res(r, now1) is Ok,
    ensures
        withdraw_res(withdraw_new(r, now1), now2) == Err::<u64, ErrorCode>(ErrorCode::AlreadyEmpty),
        withdraw_new(withdraw_new(r, now1), now2) == withdraw_new(r, now1),
{
}

} // verus!
