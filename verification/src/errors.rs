use vstd::prelude::*;

verus! {

/// Why a withdraw or revoke request was refused. Every error leaves the
/// vesting record exactly as it was: no amount moves and no field changes.
#[derive(Clone, Copy, Debug, PartialEq, Eq, Structural)]
pub enum ErrorCode {
    /// Withdraw attempted before the cliff has passed.
    NotPastCliff,
    /// Nothing is left to release in this call.
    AlreadyEmpty,
    /// Revoke attempted on a record that is already revoked.
    AlreadyRevoked,
    /// Revoke attempted on a record created without the revocation right.
    NotRevocable,
    /// Revoke attempted at or after full vesting, when nothing is unvested.
    FullyVested,
}

} // verus!
