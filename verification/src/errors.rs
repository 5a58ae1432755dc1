//! The error taxonomy shared by every operation of the ledger.

use vstd::prelude::*;

verus! {

/// Reasons an operation can be rejected.  Every guard failure aborts the
/// operation synchronously and leaves all stores unchanged.
#[derive(Clone, Copy, Debug, PartialEq, Eq, Structural)]
pub enum Error {
    /// A role was claimed while an earlier claim is still pending.
    AlreadyClaimed,
    /// A role was claimed, or approved again, while already approved.
    AlreadyApproved,
    /// The identity's role record was revoked by an administrator.
    AlreadyRevoked,
    /// No pending claim exists for the identity being approved.
    NotClaimed,
    /// The identity's role claim has not been approved yet.
    NotApproved,
    /// The identity holds a different role than the one required,
    /// or the role may not be claimed explicitly.
    InvalidRole,
    /// The caller is not an approved system manager.
    NotSysMan,
    /// The caller does not hold the forwarding role (manufacturer or
    /// distributor) that this step of the supply chain requires.
    NotManufacture,
    /// The caller is not an approved authorizing organization.
    NotOrganization,
    /// The caller is not listed in the administrators store.
    PermissionDeny,
    /// A role record already exists for the identity being registered.
    AlreadyRegistered,
    /// The unit type has not been registered by a system manager.
    NotRegisteredVaccineType,
    /// No unit with the given id exists.
    NotRegisteredVaccine,
    /// A unit with the given id already exists.
    VaccineIsRegistered,
    /// Sender and recipient of a handoff are the same identity.
    TransferByMyself,
    /// The named owner does not hold custody of the unit.
    WrongVaccineOwner,
    /// The caller is not the pending recipient of the unit.
    NotVaccineBuyer,
    /// The pending handoff of the unit was already confirmed.
    VaccineAlreadyMine,
    /// The unit was already consumed, or already allocated to this
    /// recipient.
    VaccineAlreadyUsed,
    /// The unit has reached its maximum number of administrations.
    ExceedMaxShotNumber,
    /// No administration offer was sent to this recipient for this unit.
    NotSendFinalTransfer,
    /// A bounded list reached its capacity.
    FailToPush,
    /// No verification key is stored in the proof gate.
    NoVerificationKey,
    /// The zero-knowledge proof did not verify.
    VerificationFailed,
    /// The content identifier is not registered.
    NotExistCID,
    /// The recipient has no passport record.
    NotRegisteredVaccinePass,
}

} // verus!
