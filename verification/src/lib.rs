//! A token-vesting escrow: a depositor locks a fixed quantity of a fungible
//! asset for a beneficiary, the asset unlocks linearly over a configured
//! duration after an optional cliff, and the beneficiary may withdraw the
//! unlocked portion at any time. The depositor may retain a revocation right
//! over the unvested remainder.
//!
//! The library holds the state machine and its arithmetic; the surrounding
//! runtime (clock, ledger transfers, signature checks) supplies the current
//! time and carries out the transfer amounts these operations return.

mod errors;
mod record;
mod revoke;
mod schedule;
mod withdraw;

pub use errors::ErrorCode;
pub use record::initialize;
pub use record::AccountId;
pub use record::VestingAccount;
pub use revoke::lemma_revoke_one_way;
pub use revoke::revoke;
pub use revoke::revoke_new;
pub use revoke::revoke_res;
pub use schedule::lemma_vested_at_end;
pub use schedule::lemma_vested_before_start;
pub use schedule::lemma_vested_bounds;
pub use schedule::lemma_vested_monotonic;
pub use schedule::vested_spec;
pub use withdraw::lemma_terminal_drain;
pub use withdraw::lemma_withdraw_tracks_vested;
pub use withdraw::withdraw;
pub use withdraw::withdraw_new;
pub use withdraw::withdraw_res;
