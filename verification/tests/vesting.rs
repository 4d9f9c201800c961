use linear_vesting::initialize;
use linear_vesting::revoke;
use linear_vesting::withdraw;
use linear_vesting::AccountId;
use linear_vesting::ErrorCode;
use linear_vesting::VestingAccount;

fn schedule(total: u64, revocable: bool) -> VestingAccount {
    initialize(
        total,
        0,
        100,
        1000,
        revocable,
        AccountId { id: 1 },
        AccountId { id: 2 },
        AccountId { id: 3 },
    )
}

#[test]
fn initialize_sets_fresh_record() {
    let r = schedule(1000, true);
    assert_eq!(r.total_deposited_amount, 1000);
    assert_eq!(r.released_amount, 0);
    assert!(!r.revoked);
    assert!(r.revocable);
    assert_eq!(r.start_ts, 0);
    assert_eq!(r.cliff_ts, 100);
    assert_eq!(r.duration, 1000);
    assert_eq!(r.beneficiary, AccountId { id: 1 });
    assert_eq!(r.owner, AccountId { id: 2 });
    assert_eq!(r.mint, AccountId { id: 3 });
}

#[test]
fn scenario_a_linear_withdrawals() {
    let mut r = schedule(1000, false);
    assert_eq!(withdraw(&mut r, 50), Err(ErrorCode::NotPastCliff));
    assert_eq!(r.released_amount, 0);
    assert_eq!(withdraw(&mut r, 100), Ok(100));
    assert_eq!(r.released_amount, 100);
    assert_eq!(withdraw(&mut r, 500), Ok(400));
    assert_eq!(r.released_amount, 500);
    assert_eq!(withdraw(&mut r, 1000), Ok(500));
    assert_eq!(r.released_amount, 1000);
    assert_eq!(withdraw(&mut r, 2000), Err(ErrorCode::AlreadyEmpty));
}

#[test]
fn scenario_b_revoke_then_drain() {
    let mut r = schedule(1000, true);
    assert_eq!(revoke(&mut r, 300), Ok(700));
    assert!(r.revoked);
    assert_eq!(r.released_amount, 700);
    assert_eq!(withdraw(&mut r, 5), Ok(300));
    assert_eq!(r.released_amount, 1000);
    assert_eq!(withdraw(&mut r, 400), Err(ErrorCode::AlreadyEmpty));
}

#[test]
fn scenario_c_revoke_after_full_vesting() {
    let mut r = schedule(1000, true);
    assert_eq!(revoke(&mut r, 1000), Err(ErrorCode::FullyVested));
    assert!(!r.revoked);
    assert_eq!(revoke(&mut r, 5000), Err(ErrorCode::FullyVested));
}

#[test]
fn scenario_d_not_revocable() {
    let mut r = schedule(1000, false);
    assert_eq!(revoke(&mut r, 0), Err(ErrorCode::NotRevocable));
    assert_eq!(revoke(&mut r, 300), Err(ErrorCode::NotRevocable));
    assert_eq!(revoke(&mut r, 10_000), Err(ErrorCode::NotRevocable));
    assert!(!r.revoked);
    assert_eq!(r.released_amount, 0);
}

#[test]
fn revoke_twice_is_rejected_without_state_change() {
    let mut r = schedule(1000, true);
    assert_eq!(revoke(&mut r, 300), Ok(700));
    let after_first = r;
    assert_eq!(revoke(&mut r, 600), Err(ErrorCode::AlreadyRevoked));
    assert_eq!(r, after_first);
}

#[test]
fn vested_amount_is_zero_before_start() {
    let r = schedule(1000, false);
    assert_eq!(r.vested_amount(-50), 0);
    assert_eq!(r.vested_amount(-1), 0);
    assert_eq!(r.vested_amount(i64::MIN), 0);
}

#[test]
fn vested_amount_is_exact_at_and_after_the_end() {
    let r = schedule(1000, false);
    assert_eq!(r.vested_amount(1000), 1000);
    assert_eq!(r.vested_amount(1001), 1000);
    assert_eq!(r.vested_amount(i64::MAX), 1000);
}

#[test]
fn vested_amount_rounds_down_mid_schedule() {
    let r = initialize(
        10,
        0,
        0,
        3,
        false,
        AccountId { id: 1 },
        AccountId { id: 2 },
        AccountId { id: 3 },
    );
    assert_eq!(r.vested_amount(0), 0);
    assert_eq!(r.vested_amount(1), 3);
    assert_eq!(r.vested_amount(2), 6);
    assert_eq!(r.vested_amount(3), 10);
}

#[test]
fn vested_amount_has_no_drift_for_large_deposits() {
    let decade_seconds: i64 = 10 * 365 * 24 * 60 * 60;
    let r = initialize(
        u64::MAX,
        1_600_000_000,
        0,
        decade_seconds,
        false,
        AccountId { id: 1 },
        AccountId { id: 2 },
        AccountId { id: 3 },
    );
    assert_eq!(r.vested_amount(1_600_000_000 + decade_seconds), u64::MAX);
    assert_eq!(r.vested_amount(1_600_000_000 + decade_seconds - 1), 18446744015215309879);
    assert_eq!(r.vested_amount(1_600_000_000), 0);
    let half = r.vested_amount(1_600_000_000 + decade_seconds / 2);
    assert_eq!(half, u64::MAX / 2);
}

#[test]
fn vested_amount_is_monotonic_on_sampled_times() {
    let r = schedule(997, false);
    let mut previous = 0u64;
    let mut now: i64 = -100;
    while now <= 1200 {
        let v = r.vested_amount(now);
        assert!(v >= previous);
        assert!(v <= r.total_deposited_amount);
        previous = v;
        now += 7;
    }
}

#[test]
fn released_tracks_vested_across_successful_withdrawals() {
    let mut r = schedule(777, false);
    let times = [100, 150, 151, 400, 999];
    for now in times {
        let before = r.released_amount;
        let got = withdraw(&mut r, now).expect("past the cliff");
        assert_eq!(r.released_amount, r.vested_amount(now));
        assert_eq!(r.released_amount, before + got);
        assert!(r.released_amount <= r.total_deposited_amount);
    }
}

#[test]
fn repeated_withdraw_at_same_instant_is_a_zero_release() {
    let mut r = schedule(1000, false);
    assert_eq!(withdraw(&mut r, 500), Ok(500));
    assert_eq!(withdraw(&mut r, 500), Ok(0));
    assert_eq!(r.released_amount, 500);
}

#[test]
fn cliff_gates_release_but_not_accrual() {
    let r = schedule(1000, false);
    assert_eq!(r.vested_amount(99), 99);
    let mut w = schedule(1000, false);
    assert_eq!(withdraw(&mut w, 99), Err(ErrorCode::NotPastCliff));
    assert_eq!(withdraw(&mut w, 100), Ok(100));
}

#[test]
fn withdraw_on_empty_deposit_past_duration_is_already_empty() {
    let mut r = schedule(0, false);
    assert_eq!(withdraw(&mut r, 1000), Err(ErrorCode::AlreadyEmpty));
    assert_eq!(withdraw(&mut r, 100), Ok(0));
}

#[test]
fn revoke_on_empty_deposit_is_already_empty() {
    let mut r = schedule(0, true);
    assert_eq!(revoke(&mut r, 300), Err(ErrorCode::AlreadyEmpty));
    assert!(!r.revoked);
}

#[test]
fn revoke_before_start_claws_back_everything() {
    let mut r = initialize(
        500,
        1000,
        0,
        100,
        true,
        AccountId { id: 1 },
        AccountId { id: 2 },
        AccountId { id: 3 },
    );
    assert_eq!(revoke(&mut r, 10), Ok(500));
    assert_eq!(r.released_amount, 500);
    assert_eq!(withdraw(&mut r, 20), Err(ErrorCode::AlreadyEmpty));
}

#[test]
fn revoke_mid_schedule_leaves_vested_part_claimable() {
    let mut r = schedule(1000, true);
    assert_eq!(withdraw(&mut r, 250), Ok(250));
    assert_eq!(revoke(&mut r, 400), Ok(600));
    assert_eq!(r.released_amount, 850);
    assert_eq!(withdraw(&mut r, 401), Ok(150));
    assert_eq!(r.released_amount, 1000);
    assert_eq!(withdraw(&mut r, 402), Err(ErrorCode::AlreadyEmpty));
}

#[test]
fn negative_start_times_are_handled() {
    let mut r = initialize(
        400,
        -200,
        50,
        400,
        false,
        AccountId { id: 1 },
        AccountId { id: 2 },
        AccountId { id: 3 },
    );
    assert_eq!(r.vested_amount(-100), 100);
    assert_eq!(withdraw(&mut r, -160), Err(ErrorCode::NotPastCliff));
    assert_eq!(withdraw(&mut r, -100), Ok(100));
    assert_eq!(withdraw(&mut r, 200), Ok(300));
}
