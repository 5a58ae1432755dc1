//! Role records: the claim -> approve -> (revoke) workflow that gates
//! every other operation of the ledger.

use vstd::prelude::*;
use crate::errors::Error;

verus! {

/// The role an identity may hold.  Exactly one role per identity at a time.
#[derive(Clone, Copy, Debug, PartialEq, Eq, Structural)]
pub enum Role {
    /// System manager: approves role claims and registers unit types.
    SYSMAN,
    /// Manufacturer: registers units and starts custody handoffs.
    VM,
    /// Authorizing organization: signs off on units.
    VAO,
    /// Distributor: forwards custody and offers final administration.
    VAD,
    /// End recipient.  Not claimable; held implicitly.
    USER,
}

/// Approval state of a claimed role.  An identity with no record is
/// treated as unclaimed.
#[derive(Clone, Copy, Debug, PartialEq, Eq, Structural)]
pub enum RoleStatus {
    /// The claim was approved by a system manager.
    Approved,
    /// The record was revoked by a system manager; no check succeeds.
    Revoked,
    /// The claim awaits approval.
    Pending,
}

impl Default for RoleStatus {
    /// A freshly created record awaits approval.
    fn default() -> (r: Self)
        ensures
            r == RoleStatus::Pending,
    {
        RoleStatus::Pending
    }
}

/// The role record of one identity.
#[derive(Clone, Copy, Debug, PartialEq, Eq, Structural)]
pub struct Account {
    pub role: Role,
    pub status: RoleStatus,
}

/// What `check_account` returns for one identity on a role table:
/// `Ok` exactly when the identity holds `role` with approved status,
/// and the reason for the rejection otherwise.
pub open spec fn check_outcome(roles: Map<u64, Account>, who: u64, role: Role) -> Result<(), Error> {
    if !roles.contains_key(who) {
        Err(Error::NotClaimed)
    } else if roles[who].role != role {
        Err(Error::InvalidRole)
    } else {
        match roles[who].status {
            RoleStatus::Approved => Ok(()),
            RoleStatus::Revoked => Err(Error::AlreadyRevoked),
            RoleStatus::Pending => Err(Error::NotApproved),
        }
    }
}

/// Whether `who` holds `role` with approved status.
pub open spec fn is_approved(roles: Map<u64, Account>, who: u64, role: Role) -> bool {
    check_outcome(roles, who, role) is Ok
}

/// What `check_union` returns: the outcome of checking `role1`, or of
/// checking `role2` when the identity does not hold `role1` at all.
pub open spec fn check_union_outcome(
    roles: Map<u64, Account>,
    who: u64,
    role1: Role,
    role2: Role,
) -> Result<(), Error> {
    if roles.contains_key(who) && roles[who].role == role1 {
        check_outcome(roles, who, role1)
    } else {
        check_outcome(roles, who, role2)
    }
}

} // verus!
