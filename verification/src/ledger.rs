//! The ledger: one object holding the five stores and every operation
//! of the supply chain.  Each operation is atomic: it either applies in
//! full or returns an error and leaves every store unchanged.

use vstd::prelude::*;
use vstd::hash_map::HashMapWithView;
use crate::cids::CidStore;
use crate::errors::Error;
use crate::guard::ConsumptionGuard;
use crate::passport::{PassportInfo, PassportInfoV};
use crate::proofgate::{groth16_accepts, VerifierStore};
use crate::roles::{check_outcome, check_union_outcome, is_approved, Account, Role, RoleStatus};
use crate::trail::{MovingInfo, VacStatus};
use crate::units::{VaccineInfo, VaccineInfoV, MAX_INOCULATIONS};

verus! {

broadcast use vstd::std_specs::hash::group_hash_axioms;

/// The mathematical state of the whole ledger.
#[verifier::ext_equal]
pub struct LedgerView {
    /// Role record of each identity.
    pub roles: Map<u64, Account>,
    /// Identities listed as administrators for special operations.
    pub admins: Map<u64, bool>,
    /// The next unit-type id; types `1 .. vac_type_count` are registered.
    pub vac_type_count: u32,
    /// Unit record of each registered unit id.
    pub units: Map<u64, VaccineInfoV>,
    /// The append-only audit trail, oldest event first.
    pub trail: Seq<MovingInfo>,
    /// Passport of each recipient that had an administration confirmed.
    pub passports: Map<u64, PassportInfoV>,
    /// The (unit, recipient) pairs an administration offer was made for.
    pub used: Set<(u64, u64)>,
    /// Registered content identifiers.
    pub cids: Set<Seq<u8>>,
    /// The proof gate's verification key slot.
    pub vkey: Option<Seq<u8>>,
    /// The proof gate's slot for the proof last submitted.
    pub vkproof: Option<Seq<u8>>,
    /// Capacity bound of the sign-off and passport lists.
    pub max_list_size: u32,
    /// The host-supplied clock, stamped on audit events.
    pub now: u64,
}

/// A sequence without duplicates.
pub open spec fn no_dups(s: Seq<u64>) -> bool {
    forall|i: int, j: int| 0 <= i < j < s.len() ==> s[i] != s[j]
}

impl LedgerView {
    /// The internal invariant of the ledger: every unit record is keyed
    /// by its own id, keeps its sign-off list bounded and duplicate
    /// free, and never counts more administrations than it admits;
    /// every passport is keyed by its holder, bounded, and counts
    /// exactly the units it lists.
    pub open spec fn wf(self) -> bool {
        &&& forall|id: u64| #[trigger]
            self.units.contains_key(id) ==> self.units[id].vac_id == id
                && self.units[id].vao_list.len() <= self.max_list_size && no_dups(
                self.units[id].vao_list,
            ) && self.units[id].inoculation_count <= self.units[id].max_inoculations_number
        &&& forall|id: u64| #[trigger]
            self.passports.contains_key(id) ==> self.passports[id].user_id == id
                && self.passports[id].vac_list.len() <= self.max_list_size
                && self.passports[id].inoculation_count == self.passports[id].vac_list.len()
    }
}

/// The unit table, seen as a map of mathematical unit records.
pub open spec fn units_view(m: Map<u64, VaccineInfo>) -> Map<u64, VaccineInfoV> {
    m.map_values(|v: VaccineInfo| v@)
}

/// The passport table, seen as a map of mathematical passports.
pub open spec fn passports_view(m: Map<u64, PassportInfo>) -> Map<u64, PassportInfoV> {
    m.map_values(|p: PassportInfo| p@)
}

/// The ledger.  The role registry exclusively owns the role and
/// administrator tables; the unit ledger owns the unit table and the
/// consumption guard and is the only writer of the audit trail and the
/// passport table; the proof gate owns its own two slots.
pub struct VaccineLedger {
    pub accounts: HashMapWithView<u64, Account>,
    pub admins: HashMapWithView<u64, bool>,
    pub vac_type_count: u32,
    pub vaccines: HashMapWithView<u64, VaccineInfo>,
    pub trail: Vec<MovingInfo>,
    pub passports: HashMapWithView<u64, PassportInfo>,
    pub used: ConsumptionGuard,
    pub cids: CidStore,
    pub gate: VerifierStore,
    pub max_list_size: u32,
    pub now: u64,
}

impl View for VaccineLedger {
    type V = LedgerView;

    open spec fn view(&self) -> LedgerView {
        LedgerView {
            roles: self.accounts@,
            admins: self.admins@,
            vac_type_count: self.vac_type_count,
            units: units_view(self.vaccines@),
            trail: self.trail@,
            passports: passports_view(self.passports@),
            used: self.used@,
            cids: self.cids@,
            vkey: self.gate@.vkey,
            vkproof: self.gate@.proof,
            max_list_size: self.max_list_size,
            now: self.now,
        }
    }
}

/// What `claim_role` returns: a claim is permitted exactly when the
/// role is claimable and the identity has no record yet; otherwise the
/// existing record's status names the rejection.
pub open spec fn claim_outcome(s: LedgerView, claimer: u64, role: Role) -> Result<(), Error> {
    if role == Role::USER {
        Err(Error::InvalidRole)
    } else if !s.roles.contains_key(claimer) {
        Ok(())
    } else {
        match s.roles[claimer].status {
            RoleStatus::Pending => Err(Error::AlreadyClaimed),
            RoleStatus::Approved => Err(Error::AlreadyApproved),
            RoleStatus::Revoked => Err(Error::AlreadyRevoked),
        }
    }
}

/// The state after a successful claim: a pending record.
pub open spec fn claim_applied(s: LedgerView, claimer: u64, role: Role) -> LedgerView {
    LedgerView {
        roles: s.roles.insert(claimer, Account { role, status: RoleStatus::Pending }),
        ..s
    }
}

/// What `approve_role` returns: only an approved system manager may
/// approve, the target must hold a pending claim, and the claim must be
/// for the role being approved.
pub open spec fn approve_outcome(s: LedgerView, approver: u64, target: u64, role: Role) -> Result<
    (),
    Error,
> {
    if !is_approved(s.roles, approver, Role::SYSMAN) {
        Err(Error::NotSysMan)
    } else if !s.roles.contains_key(target) {
        Err(Error::NotClaimed)
    } else {
        match s.roles[target].status {
            RoleStatus::Approved => Err(Error::NotClaimed),
            RoleStatus::Revoked => Err(Error::AlreadyRevoked),
            RoleStatus::Pending => if s.roles[target].role != role {
                Err(Error::InvalidRole)
            } else {
                Ok(())
            },
        }
    }
}

/// The state after a successful approval.
pub open spec fn approve_applied(s: LedgerView, target: u64, role: Role) -> LedgerView {
    LedgerView {
        roles: s.roles.insert(target, Account { role, status: RoleStatus::Approved }),
        ..s
    }
}

/// What `register_account` returns: a record may be created only for
/// an identity without one.
pub open spec fn register_account_outcome(s: LedgerView, role_id: u64) -> Result<(), Error> {
    if s.roles.contains_key(role_id) {
        Err(Error::AlreadyRegistered)
    } else {
        Ok(())
    }
}

/// What `revoke_role` returns: only an approved system manager may
/// revoke, and only an existing record can be revoked.  Revoking an
/// already revoked record succeeds again.
pub open spec fn revoke_outcome(s: LedgerView, system: u64, target: u64) -> Result<(), Error> {
    if !is_approved(s.roles, system, Role::SYSMAN) {
        Err(Error::NotSysMan)
    } else if !s.roles.contains_key(target) {
        Err(Error::NotClaimed)
    } else {
        Ok(())
    }
}

/// The state after a revocation: the role is kept, the status becomes
/// revoked.
pub open spec fn revoke_applied(s: LedgerView, target: u64) -> LedgerView {
    LedgerView {
        roles: s.roles.insert(
            target,
            Account { role: s.roles[target].role, status: RoleStatus::Revoked },
        ),
        ..s
    }
}

/// Role records never regress: an approved identity is never pending
/// again afterwards.
pub open spec fn roles_monotone(pre: Map<u64, Account>, post: Map<u64, Account>) -> bool {
    forall|id: u64|
        pre.contains_key(id) && pre[id].status == RoleStatus::Approved ==> post.contains_key(id)
            && #[trigger] post[id].status != RoleStatus::Pending
}

impl VaccineLedger {
    /// A fresh ledger with no records.  `max_list_size` bounds the
    /// sign-off and passport lists.
    pub fn new(max_list_size: u32) -> (r: Self)
        ensures
            r@.roles == Map::<u64, Account>::empty(),
            r@.admins == Map::<u64, bool>::empty(),
            r@.vac_type_count == 1u32,
            r@.units == Map::<u64, VaccineInfoV>::empty(),
            r@.trail == Seq::<MovingInfo>::empty(),
            r@.passports == Map::<u64, PassportInfoV>::empty(),
            r@.used == Set::<(u64, u64)>::empty(),
            r@.cids == Set::<Seq<u8>>::empty(),
            r@.vkey is None,
            r@.vkproof is None,
            r@.max_list_size == max_list_size,
            r@.now == 0u64,
            r@.wf(),
    {
        let r = VaccineLedger {
            accounts: HashMapWithView::new(),
            admins: HashMapWithView::new(),
            vac_type_count: 1,
            vaccines: HashMapWithView::new(),
            trail: Vec::new(),
            passports: HashMapWithView::new(),
            used: ConsumptionGuard::new(),
            cids: CidStore::new(),
            gate: VerifierStore::new(),
            max_list_size,
            now: 0,
        };
        proof {
            assert(units_view(r.vaccines@) =~= Map::<u64, VaccineInfoV>::empty());
            assert(passports_view(r.passports@) =~= Map::<u64, PassportInfoV>::empty());
        }
        r
    }

    /// Installs a genesis system manager: an approved record and an
    /// administrator entry, as the host's genesis build writes them.
    pub fn set_genesis_account(&mut self, account: u64)
        requires
            old(self)@.wf(),
        ensures
            final(self)@ == (LedgerView {
                roles: old(self)@.roles.insert(
                    account,
                    Account { role: Role::SYSMAN, status: RoleStatus::Approved },
                ),
                admins: old(self)@.admins.insert(account, true),
                ..old(self)@
            }),
            final(self)@.wf(),
    {
        self.accounts.insert(account, Account { role: Role::SYSMAN, status: RoleStatus::Approved });
        self.admins.insert(account, true);
    }

    /// Sets the clock that audit events are stamped with.  The host
    /// owns the clock; the ledger only records it.
    pub fn set_time(&mut self, now: u64)
        ensures
            final(self)@ == (LedgerView { now, ..old(self)@ }),
    {
        self.now = now;
    }

    /// Whether a claim of `role` by `claimer` would be permitted, and
    /// the reason it would be rejected.
    pub fn check_claim_account(&self, claimer: u64, role: Role) -> (r: Result<(), Error>)
        ensures
            r == claim_outcome(self@, claimer, role),
    {
        if role == Role::USER {
            return Err(Error::InvalidRole);
        }
        match self.accounts.get(&claimer) {
            None => Ok(()),
            Some(account) => match account.status {
                RoleStatus::Pending => Err(Error::AlreadyClaimed),
                RoleStatus::Approved => Err(Error::AlreadyApproved),
                RoleStatus::Revoked => Err(Error::AlreadyRevoked),
            },
        }
    }

    /// Claims `role` for `claimer`: permitted only where no record
    /// exists, and never for the implicit end-recipient role.  On
    /// success the record awaits approval.
    pub fn claim_role(&mut self, claimer: u64, role: Role) -> (r: Result<(), Error>)
        requires
            old(self)@.wf(),
        ensures
            r == claim_outcome(old(self)@, claimer, role),
            r is Ok ==> final(self)@ == claim_applied(old(self)@, claimer, role),
            r is Err ==> final(self)@ == old(self)@,
            final(self)@.wf(),
            roles_monotone(old(self)@.roles, final(self)@.roles),
    {
        let outcome = self.check_claim_account(claimer, role);
        if outcome.is_err() {
            return outcome;
        }
        self.accounts.insert(claimer, Account { role, status: RoleStatus::Pending });
        Ok(())
    }

    /// Approves the pending claim of `target` for `role`; the approver
    /// must be an approved system manager.
    pub fn approve_role(&mut self, approver: u64, target: u64, role: Role) -> (r: Result<
        (),
        Error,
    >)
        requires
            old(self)@.wf(),
        ensures
            r == approve_outcome(old(self)@, approver, target, role),
            r is Ok ==> final(self)@ == approve_applied(old(self)@, target, role),
            r is Err ==> final(self)@ == old(self)@,
            final(self)@.wf(),
            roles_monotone(old(self)@.roles, final(self)@.roles),
    {
        if self.check_account(approver, Role::SYSMAN).is_err() {
            return Err(Error::NotSysMan);
        }
        let status = match self.accounts.get(&target) {
            None => return Err(Error::NotClaimed),
            Some(account) => *account,
        };
        match status.status {
            RoleStatus::Approved => Err(Error::NotClaimed),
            RoleStatus::Revoked => Err(Error::AlreadyRevoked),
            RoleStatus::Pending => {
                if status.role != role {
                    return Err(Error::InvalidRole);
                }
                self.accounts.insert(target, Account { role, status: RoleStatus::Approved });
                Ok(())
            },
        }
    }

    /// Creates a role record directly, as the host's privileged call
    /// does; the record awaits approval like a claimed one.
    pub fn register_account(&mut self, role_id: u64, role: Role) -> (r: Result<(), Error>)
        requires
            old(self)@.wf(),
        ensures
            r == register_account_outcome(old(self)@, role_id),
            r is Ok ==> final(self)@ == claim_applied(old(self)@, role_id, role),
            r is Err ==> final(self)@ == old(self)@,
            final(self)@.wf(),
            roles_monotone(old(self)@.roles, final(self)@.roles),
    {
        if self.accounts.contains_key(&role_id) {
            return Err(Error::AlreadyRegistered);
        }
        self.accounts.insert(role_id, Account { role, status: RoleStatus::Pending });
        Ok(())
    }

    /// Revokes the record of `target`; no check succeeds for it
    /// afterwards.  Revoking is idempotent.
    pub fn revoke_role(&mut self, system: u64, target: u64) -> (r: Result<(), Error>)
        requires
            old(self)@.wf(),
        ensures
            r == revoke_outcome(old(self)@, system, target),
            r is Ok ==> final(self)@ == revoke_applied(old(self)@, target),
            r is Err ==> final(self)@ == old(self)@,
            final(self)@.wf(),
            roles_monotone(old(self)@.roles, final(self)@.roles),
    {
        if self.check_account(system, Role::SYSMAN).is_err() {
            return Err(Error::NotSysMan);
        }
        let role = match self.accounts.get(&target) {
            None => return Err(Error::NotClaimed),
            Some(account) => account.role,
        };
        self.accounts.insert(target, Account { role, status: RoleStatus::Revoked });
        Ok(())
    }

    /// Checks that `who` holds `role` with approved status, and says
    /// why not otherwise.
    pub fn check_account(&self, who: u64, role: Role) -> (r: Result<(), Error>)
        ensures
            r == check_outcome(self@.roles, who, role),
    {
        match self.accounts.get(&who) {
            None => Err(Error::NotClaimed),
            Some(account) => {
                if account.role != role {
                    Err(Error::InvalidRole)
                } else {
                    match account.status {
                        RoleStatus::Approved => Ok(()),
                        RoleStatus::Revoked => Err(Error::AlreadyRevoked),
                        RoleStatus::Pending => Err(Error::NotApproved),
                    }
                }
            },
        }
    }

    /// Checks that `who` holds `role1` or `role2` with approved
    /// status: the outcome of checking the role the record names.
    pub fn check_union(&self, who: u64, role1: Role, role2: Role) -> (r: Result<(), Error>)
        ensures
            r == check_union_outcome(self@.roles, who, role1, role2),
    {
        match self.accounts.get(&who) {
            None => Err(Error::NotClaimed),
            Some(account) => {
                if matches!(account.role, r2 if r2 == role1) {
                    self.check_account(who, role1)
                } else {
                    self.check_account(who, role2)
                }
            },
        }
    }

    /// The role record of an identity.
    pub fn accounts(&self, id: u64) -> (r: Option<Account>)
        ensures
            match r {
                Some(a) => self@.roles.contains_key(id) && a == self@.roles[id],
                None => !self@.roles.contains_key(id),
            },
    {
        match self.accounts.get(&id) {
            None => None,
            Some(a) => Some(*a),
        }
    }

    /// Whether the identity is an approved system manager.
    pub fn sys_man(&self, id: u64) -> (r: bool)
        ensures
            r == is_approved(self@.roles, id, Role::SYSMAN),
    {
        self.check_account(id, Role::SYSMAN).is_ok()
    }

    /// Whether the identity is an approved manufacturer.
    pub fn vm(&self, id: u64) -> (r: bool)
        ensures
            r == is_approved(self@.roles, id, Role::VM),
    {
        self.check_account(id, Role::VM).is_ok()
    }

    /// Whether the identity is an approved authorizing organization.
    pub fn vao(&self, id: u64) -> (r: bool)
        ensures
            r == is_approved(self@.roles, id, Role::VAO),
    {
        self.check_account(id, Role::VAO).is_ok()
    }

    /// Whether the identity is an approved distributor.
    pub fn vad(&self, id: u64) -> (r: bool)
        ensures
            r == is_approved(self@.roles, id, Role::VAD),
    {
        self.check_account(id, Role::VAD).is_ok()
    }

    /// Whether the identity is listed as an administrator.
    pub fn only_system(&self, user: u64) -> (r: bool)
        ensures
            r == (self@.admins.contains_key(user) && self@.admins[user]),
    {
        match self.admins.get(&user) {
            None => false,
            Some(b) => *b,
        }
    }

    /// Lists `user` as an administrator; the caller must be one.
    pub fn add_system(&mut self, system: u64, user: u64) -> (r: Result<(), Error>)
        requires
            old(self)@.wf(),
        ensures
            r is Ok <==> old(self)@.admins.contains_key(system) && old(self)@.admins[system],
            r is Ok ==> final(self)@ == (LedgerView {
                admins: old(self)@.admins.insert(user, true),
                ..old(self)@
            }),
            r is Err ==> r == Err::<(), Error>(Error::PermissionDeny) && final(self)@ == old(
                self,
            )@,
            final(self)@.wf(),
    {
        if !self.only_system(system) {
            return Err(Error::PermissionDeny);
        }
        self.admins.insert(user, true);
        Ok(())
    }

    /// Removes `user` from the administrators; the caller must be one.
    pub fn remove_system(&mut self, system: u64, user: u64) -> (r: Result<(), Error>)
        requires
            old(self)@.wf(),
        ensures
            r is Ok <==> old(self)@.admins.contains_key(system) && old(self)@.admins[system],
            r is Ok ==> final(self)@ == (LedgerView {
                admins: old(self)@.admins.remove(user),
                ..old(self)@
            }),
            r is Err ==> r == Err::<(), Error>(Error::PermissionDeny) && final(self)@ == old(
                self,
            )@,
            final(self)@.wf(),
    {
        if !self.only_system(system) {
            return Err(Error::PermissionDeny);
        }
        self.admins.remove(&user);
        Ok(())
    }
}

/// Maps the outcomes of a role check that mean "the identity does not
/// hold the required role at all" to the role error of the operation;
/// a held-but-unapproved or revoked role keeps its own error.
pub open spec fn with_role_error(r: Result<(), Error>, role_err: Error) -> Result<(), Error> {
    match r {
        Err(Error::NotClaimed) => Err(role_err),
        Err(Error::InvalidRole) => Err(role_err),
        _ => r,
    }
}

/// Whether `t` is a registered unit type.
pub open spec fn type_registered(s: LedgerView, t: u32) -> bool {
    1 <= t < s.vac_type_count
}

/// What `register_vac_type` returns: the id assigned to the new type.
pub open spec fn register_vac_type_outcome(s: LedgerView, sysman: u64) -> Result<u32, Error> {
    match with_role_error(check_outcome(s.roles, sysman, Role::SYSMAN), Error::NotSysMan) {
        Err(e) => Err(e),
        Ok(()) => Ok(s.vac_type_count),
    }
}

/// What `register_vac_info` returns: only an approved manufacturer may
/// register, the type must be registered, and the unit id must be new.
pub open spec fn register_vac_info_outcome(
    s: LedgerView,
    manufacture: u64,
    vac_id: u64,
    vac_type_id: u32,
) -> Result<(), Error> {
    match with_role_error(check_outcome(s.roles, manufacture, Role::VM), Error::NotManufacture) {
        Err(e) => Err(e),
        Ok(()) => if !type_registered(s, vac_type_id) {
            Err(Error::NotRegisteredVaccineType)
        } else if s.units.contains_key(vac_id) {
            Err(Error::VaccineIsRegistered)
        } else {
            Ok(())
        },
    }
}

/// The state after a registration: a fresh unit owned by its
/// manufacturer, and a manufactured event on the trail.
pub open spec fn register_vac_info_applied(
    s: LedgerView,
    manufacture: u64,
    vac_id: u64,
    vac_type_id: u32,
) -> LedgerView {
    LedgerView {
        units: s.units.insert(
            vac_id,
            VaccineInfoV {
                vac_id,
                manufacture_id: manufacture,
                owner_id: manufacture,
                buyer_id: None,
                vao_list: Seq::empty(),
                buy_confirm: false,
                vac_type_id,
                max_inoculations_number: MAX_INOCULATIONS,
                inoculation_count: 0,
            },
        ),
        trail: s.trail.push(
            MovingInfo {
                vac_id,
                from: Some(manufacture),
                to: None,
                time: s.now,
                status: VacStatus::Manufactured,
            },
        ),
        ..s
    }
}

/// What `transfer_vaccine` returns: an approved manufacturer or
/// distributor offers custody of an existing, unused unit it owns to
/// somebody else.
pub open spec fn transfer_vaccine_outcome(
    s: LedgerView,
    sender: u64,
    buyer_id: u64,
    vac_id: u64,
) -> Result<(), Error> {
    match with_role_error(
        check_union_outcome(s.roles, sender, Role::VM, Role::VAD),
        Error::NotManufacture,
    ) {
        Err(e) => Err(e),
        Ok(()) => if !s.units.contains_key(vac_id) {
            Err(Error::NotRegisteredVaccine)
        } else if sender == buyer_id {
            Err(Error::TransferByMyself)
        } else if s.units[vac_id].owner_id != sender {
            Err(Error::WrongVaccineOwner)
        } else if s.units[vac_id].inoculation_count != 0 {
            Err(Error::VaccineAlreadyUsed)
        } else {
            Ok(())
        },
    }
}

/// The state after a custody offer: the buyer becomes the pending
/// recipient -- replacing any earlier pending recipient -- the handoff
/// is unconfirmed, and a shipped event is on the trail.  Custody itself
/// does not move yet.
pub open spec fn transfer_vaccine_applied(
    s: LedgerView,
    sender: u64,
    buyer_id: u64,
    vac_id: u64,
) -> LedgerView {
    LedgerView {
        units: s.units.insert(
            vac_id,
            VaccineInfoV { buyer_id: Some(buyer_id), buy_confirm: false, ..s.units[vac_id] },
        ),
        trail: s.trail.push(
            MovingInfo {
                vac_id,
                from: Some(sender),
                to: Some(buyer_id),
                time: s.now,
                status: VacStatus::Shipped,
            },
        ),
        ..s
    }
}

/// What `receive_vaccine` returns: the pending recipient of an open,
/// unconfirmed custody offer accepts it, naming the current owner.
pub open spec fn receive_vaccine_outcome(
    s: LedgerView,
    receiver: u64,
    sender: u64,
    vac_id: u64,
) -> Result<(), Error> {
    if !s.units.contains_key(vac_id) {
        Err(Error::NotRegisteredVaccine)
    } else {
        match with_role_error(
            check_union_outcome(s.roles, receiver, Role::VM, Role::VAD),
            Error::NotManufacture,
        ) {
            Err(e) => Err(e),
            Ok(()) => if s.units[vac_id].buyer_id != Some(receiver) {
                Err(Error::NotVaccineBuyer)
            } else if s.units[vac_id].inoculation_count != 0 {
                Err(Error::VaccineAlreadyUsed)
            } else if s.units[vac_id].buy_confirm {
                Err(Error::VaccineAlreadyMine)
            } else if s.units[vac_id].owner_id != sender {
                Err(Error::WrongVaccineOwner)
            } else {
                Ok(())
            },
        }
    }
}

/// The state after a custody acceptance: the receiver holds custody,
/// the handoff is confirmed, and a received event is on the trail.
pub open spec fn receive_vaccine_applied(
    s: LedgerView,
    receiver: u64,
    sender: u64,
    vac_id: u64,
) -> LedgerView {
    LedgerView {
        units: s.units.insert(
            vac_id,
            VaccineInfoV { owner_id: receiver, buy_confirm: true, ..s.units[vac_id] },
        ),
        trail: s.trail.push(
            MovingInfo {
                vac_id,
                from: Some(sender),
                to: Some(receiver),
                time: s.now,
                status: VacStatus::Received,
            },
        ),
        ..s
    }
}

/// The maps of unit views before and after a table insert agree.
proof fn lemma_units_view_insert(m: Map<u64, VaccineInfo>, k: u64, v: VaccineInfo)
    ensures
        units_view(m.insert(k, v)) =~= units_view(m).insert(k, v@),
{
}

/// The maps of passport views before and after a table insert agree.
proof fn lemma_passports_view_insert(m: Map<u64, PassportInfo>, k: u64, p: PassportInfo)
    ensures
        passports_view(m.insert(k, p)) =~= passports_view(m).insert(k, p@),
{
}

impl VaccineLedger {
    /// The record of one unit.
    pub fn vaccines(&self, vac_id: u64) -> (r: Option<VaccineInfo>)
        ensures
            match r {
                Some(v) => self@.units.contains_key(vac_id) && v@ == self@.units[vac_id],
                None => !self@.units.contains_key(vac_id),
            },
    {
        match self.vaccines.get(&vac_id) {
            None => None,
            Some(v) => Some(v.clone()),
        }
    }

    /// The passport of one recipient.
    pub fn vaccine_passports(&self, user_id: u64) -> (r: Option<PassportInfo>)
        ensures
            match r {
                Some(p) => self@.passports.contains_key(user_id) && p@ == self@.passports[user_id],
                None => !self@.passports.contains_key(user_id),
            },
    {
        match self.passports.get(&user_id) {
            None => None,
            Some(p) => Some(p.clone()),
        }
    }

    /// Whether an administration offer was made for this unit to this
    /// recipient.
    pub fn used_vaccine(&self, vac_id: u64, user_id: u64) -> (r: bool)
        ensures
            r == self@.used.contains((vac_id, user_id)),
    {
        self.used.is_used(vac_id, user_id)
    }

    /// The next unit-type id to be assigned.
    pub fn vaccine_type_count(&self) -> (r: u32)
        ensures
            r == self@.vac_type_count,
    {
        self.vac_type_count
    }

    /// Whether a content identifier is registered.
    pub fn cid_storage(&self, cid: &Vec<u8>) -> (r: bool)
        ensures
            r == self@.cids.contains(cid@),
    {
        self.cids.contains(cid)
    }

    /// The audit trail of one unit: every event that mentions it,
    /// oldest first.
    pub fn ownership_tracking(&self, vac_id: u64) -> (r: Vec<MovingInfo>)
        ensures
            r@ == crate::trail::events_of(self@.trail, vac_id),
    {
        let mut out: Vec<MovingInfo> = Vec::new();
        let mut i: usize = 0;
        while i < self.trail.len()
            invariant
                i <= self.trail@.len(),
                out@ == crate::trail::events_of(self.trail@.subrange(0, i as int), vac_id),
            decreases self.trail@.len() - i,
        {
            proof {
                let pre = self.trail@.subrange(0, i as int);
                let post = self.trail@.subrange(0, i as int + 1);
                assert(post.drop_last() =~= pre);
                assert(post.last() == self.trail@[i as int]);
                reveal_with_fuel(Seq::<_>::filter, 2);
                assert(crate::trail::events_of(post, vac_id) == (if post.last().vac_id == vac_id {
                    crate::trail::events_of(pre, vac_id).push(post.last())
                } else {
                    crate::trail::events_of(pre, vac_id)
                }));
            }
            if self.trail[i].vac_id == vac_id {
                out.push(self.trail[i]);
            }
            i = i + 1;
        }
        proof {
            assert(self.trail@.subrange(0, self.trail@.len() as int) =~= self.trail@);
        }
        out
    }

    /// Appends one ownership event to the audit trail, stamped with the
    /// ledger's clock.  Events are only ever appended, never edited.
    pub fn transfer_onwership(
        &mut self,
        vac_id: u64,
        from: Option<u64>,
        to: Option<u64>,
        status: VacStatus,
    )
        ensures
            final(self)@ == (LedgerView {
                trail: old(self)@.trail.push(
                    MovingInfo { vac_id, from, to, time: old(self)@.now, status },
                ),
                ..old(self)@
            }),
    {
        let event = MovingInfo::new(vac_id, from, to, status, self.now);
        self.trail.push(event);
    }

    /// Registers a new unit type and returns its id; only an approved
    /// system manager may do so.
    pub fn register_vac_type(&mut self, sysman: u64) -> (r: Result<u32, Error>)
        requires
            old(self)@.wf(),
            old(self)@.vac_type_count < u32::MAX,
        ensures
            r == register_vac_type_outcome(old(self)@, sysman),
            r is Ok ==> final(self)@ == (LedgerView {
                vac_type_count: (old(self)@.vac_type_count + 1) as u32,
                ..old(self)@
            }),
            r is Err ==> final(self)@ == old(self)@,
            final(self)@.wf(),
    {
        match self.check_account(sysman, Role::SYSMAN) {
            Err(Error::NotClaimed) | Err(Error::InvalidRole) => {
                return Err(Error::NotSysMan);
            },
            Err(e) => {
                return Err(e);
            },
            Ok(()) => {},
        }
        let vac_type_id = self.vac_type_count;
        self.vac_type_count = self.vac_type_count + 1;
        Ok(vac_type_id)
    }

    /// Registers a new unit under a registered type; the caller becomes
    /// its manufacturer and first custody holder, and a manufactured
    /// event opens its audit trail.
    pub fn register_vac_info(&mut self, manufacture: u64, vac_id: u64, vac_type_id: u32) -> (r:
        Result<(), Error>)
        requires
            old(self)@.wf(),
        ensures
            r == register_vac_info_outcome(old(self)@, manufacture, vac_id, vac_type_id),
            r is Ok ==> final(self)@ == register_vac_info_applied(
                old(self)@,
                manufacture,
                vac_id,
                vac_type_id,
            ),
            r is Err ==> final(self)@ == old(self)@,
            final(self)@.wf(),
    {
        match self.check_account(manufacture, Role::VM) {
            Err(Error::NotClaimed) | Err(Error::InvalidRole) => {
                return Err(Error::NotManufacture);
            },
            Err(e) => {
                return Err(e);
            },
            Ok(()) => {},
        }
        if !(1 <= vac_type_id && vac_type_id < self.vac_type_count) {
            return Err(Error::NotRegisteredVaccineType);
        }
        if self.vaccines.contains_key(&vac_id) {
            return Err(Error::VaccineIsRegistered);
        }
        let vac_info = VaccineInfo {
            vac_id,
            manufacture_id: manufacture,
            owner_id: manufacture,
            buyer_id: None,
            vao_list: Vec::new(),
            buy_confirm: false,
            vac_type_id,
            max_inoculations_number: MAX_INOCULATIONS,
            inoculation_count: 0,
        };
        proof {
            lemma_units_view_insert(self.vaccines@, vac_id, vac_info);
        }
        self.vaccines.insert(vac_id, vac_info);
        self.transfer_onwership(vac_id, Some(manufacture), None, VacStatus::Manufactured);
        Ok(())
    }

    /// Offers custody of a unit to `buyer_id`: phase one of the
    /// custody handoff.  A second offer before acceptance replaces the
    /// pending recipient; only one exists at a time.
    pub fn transfer_vaccine(&mut self, sender: u64, buyer_id: u64, vac_id: u64) -> (r: Result<
        (),
        Error,
    >)
        requires
            old(self)@.wf(),
        ensures
            r == transfer_vaccine_outcome(old(self)@, sender, buyer_id, vac_id),
            r is Ok ==> final(self)@ == transfer_vaccine_applied(
                old(self)@,
                sender,
                buyer_id,
                vac_id,
            ),
            r is Err ==> final(self)@ == old(self)@,
            final(self)@.wf(),
    {
        match self.check_union(sender, Role::VM, Role::VAD) {
            Err(Error::NotClaimed) | Err(Error::InvalidRole) => {
                return Err(Error::NotManufacture);
            },
            Err(e) => {
                return Err(e);
            },
            Ok(()) => {},
        }
        let vac_info = match self.vaccines.get(&vac_id) {
            None => return Err(Error::NotRegisteredVaccine),
            Some(v) => v.clone(),
        };
        if sender == buyer_id {
            return Err(Error::TransferByMyself);
        }
        if vac_info.owner_id != sender {
            return Err(Error::WrongVaccineOwner);
        }
        if vac_info.inoculation_count != 0 {
            return Err(Error::VaccineAlreadyUsed);
        }
        let new_vac_info = VaccineInfo { buyer_id: Some(buyer_id), buy_confirm: false, ..vac_info };
        proof {
            lemma_units_view_insert(self.vaccines@, vac_id, new_vac_info);
        }
        self.vaccines.insert(vac_id, new_vac_info);
        self.transfer_onwership(vac_id, Some(sender), Some(buyer_id), VacStatus::Shipped);
        Ok(())
    }

    /// Accepts a pending custody offer: phase two of the custody
    /// handoff.  The caller must be the pending recipient and must name
    /// the current owner; custody then moves to the caller.
    pub fn receive_vaccine(&mut self, receiver: u64, sender: u64, vac_id: u64) -> (r: Result<
        (),
        Error,
    >)
        requires
            old(self)@.wf(),
        ensures
            r == receive_vaccine_outcome(old(self)@, receiver, sender, vac_id),
            r is Ok ==> final(self)@ == receive_vaccine_applied(
                old(self)@,
                receiver,
                sender,
                vac_id,
            ),
            r is Err ==> final(self)@ == old(self)@,
            final(self)@.wf(),
    {
        let vac_info = match self.vaccines.get(&vac_id) {
            None => return Err(Error::NotRegisteredVaccine),
            Some(v) => v.clone(),
        };
        match self.check_union(receiver, Role::VM, Role::VAD) {
            Err(Error::NotClaimed) | Err(Error::InvalidRole) => {
                return Err(Error::NotManufacture);
            },
            Err(e) => {
                return Err(e);
            },
            Ok(()) => {},
        }
        let is_buyer = match vac_info.buyer_id {
            Some(b) => b == receiver,
            None => false,
        };
        if !is_buyer {
            return Err(Error::NotVaccineBuyer);
        }
        if vac_info.inoculation_count != 0 {
            return Err(Error::VaccineAlreadyUsed);
        }
        if vac_info.buy_confirm {
            return Err(Error::VaccineAlreadyMine);
        }
        if vac_info.owner_id != sender {
            return Err(Error::WrongVaccineOwner);
        }
        let new_vac_info = VaccineInfo { owner_id: receiver, buy_confirm: true, ..vac_info };
        proof {
            lemma_units_view_insert(self.vaccines@, vac_id, new_vac_info);
        }
        self.vaccines.insert(vac_id, new_vac_info);
        self.transfer_onwership(vac_id, Some(sender), Some(receiver), VacStatus::Received);
        Ok(())
    }
}

/// What `approve_vaccine` returns: an approved organization signs an
/// existing, unused unit off.  A repeated sign-off by the same
/// organization succeeds and changes nothing; a full sign-off list
/// rejects a new organization.
pub open spec fn approve_vaccine_outcome(s: LedgerView, organization: u64, vac_id: u64) -> Result<
    (),
    Error,
> {
    match with_role_error(check_outcome(s.roles, organization, Role::VAO), Error::NotOrganization) {
        Err(e) => Err(e),
        Ok(()) => if !s.units.contains_key(vac_id) {
            Err(Error::NotRegisteredVaccine)
        } else if s.units[vac_id].inoculation_count != 0 {
            Err(Error::VaccineAlreadyUsed)
        } else if s.units[vac_id].vao_list.contains(organization) {
            Ok(())
        } else if s.units[vac_id].vao_list.len() >= s.max_list_size {
            Err(Error::FailToPush)
        } else {
            Ok(())
        },
    }
}

/// The state after a sign-off: the organization is appended to the
/// unit's list unless it already stands there.
pub open spec fn approve_vaccine_applied(s: LedgerView, organization: u64, vac_id: u64) -> LedgerView {
    if s.units[vac_id].vao_list.contains(organization) {
        s
    } else {
        LedgerView {
            units: s.units.insert(
                vac_id,
                VaccineInfoV {
                    vao_list: s.units[vac_id].vao_list.push(organization),
                    ..s.units[vac_id]
                },
            ),
            ..s
        }
    }
}

/// What `transfer_get_vaccine_right` returns: an approved distributor
/// offers final administration of a unit it owns to a recipient the
/// unit was never offered to, within the unit's administration bound.
pub open spec fn transfer_right_outcome(
    s: LedgerView,
    sender: u64,
    user_id: u64,
    vac_id: u64,
) -> Result<(), Error> {
    match with_role_error(check_outcome(s.roles, sender, Role::VAD), Error::NotManufacture) {
        Err(e) => Err(e),
        Ok(()) => if !s.units.contains_key(vac_id) {
            Err(Error::NotRegisteredVaccine)
        } else if s.used.contains((vac_id, user_id)) {
            Err(Error::VaccineAlreadyUsed)
        } else if sender == user_id {
            Err(Error::TransferByMyself)
        } else if s.units[vac_id].owner_id != sender {
            Err(Error::WrongVaccineOwner)
        } else if s.units[vac_id].inoculation_count
            >= s.units[vac_id].max_inoculations_number {
            Err(Error::ExceedMaxShotNumber)
        } else {
            Ok(())
        },
    }
}

/// The state after an administration offer: the recipient is pending,
/// the administration count is taken, the (unit, recipient) pair is
/// durably marked as consumed, and a usable event is on the trail.
pub open spec fn transfer_right_applied(
    s: LedgerView,
    sender: u64,
    user_id: u64,
    vac_id: u64,
) -> LedgerView {
    LedgerView {
        units: s.units.insert(
            vac_id,
            VaccineInfoV {
                buyer_id: Some(user_id),
                buy_confirm: false,
                inoculation_count: (s.units[vac_id].inoculation_count + 1) as u32,
                ..s.units[vac_id]
            },
        ),
        used: s.used.insert((vac_id, user_id)),
        trail: s.trail.push(
            MovingInfo {
                vac_id,
                from: Some(sender),
                to: Some(user_id),
                time: s.now,
                status: VacStatus::Usable,
            },
        ),
        ..s
    }
}

/// Whether the recipient's passport can take one more unit.
pub open spec fn passport_has_room(s: LedgerView, user_id: u64) -> bool {
    if s.passports.contains_key(user_id) {
        s.passports[user_id].vac_list.len() < s.max_list_size
    } else {
        0 < s.max_list_size
    }
}

/// What `register_vac_pass` returns: an append to the recipient's
/// passport, rejected only by its capacity bound.
pub open spec fn register_vac_pass_outcome(s: LedgerView, registrant: u64) -> Result<(), Error> {
    if passport_has_room(s, registrant) {
        Ok(())
    } else {
        Err(Error::FailToPush)
    }
}

/// The state after a passport append: the unit id is appended to the
/// recipient's list -- created lazily on the first administration --
/// and the count grows by one.
pub open spec fn register_vac_pass_applied(s: LedgerView, registrant: u64, vac_id: u64) -> LedgerView {
    LedgerView {
        passports: if s.passports.contains_key(registrant) {
            s.passports.insert(
                registrant,
                PassportInfoV {
                    vac_list: s.passports[registrant].vac_list.push(vac_id),
                    inoculation_count: (s.passports[registrant].inoculation_count + 1) as u32,
                    ..s.passports[registrant]
                },
            )
        } else {
            s.passports.insert(
                registrant,
                PassportInfoV { user_id: registrant, vac_list: seq![vac_id], inoculation_count: 1 },
            )
        },
        ..s
    }
}

/// What `confirm_vaccine` returns: the pending recipient of an
/// administration offer confirms it, naming the current owner; the
/// offer must have come through the administration path.
pub open spec fn confirm_vaccine_outcome(
    s: LedgerView,
    user: u64,
    vac_owner: u64,
    vac_id: u64,
) -> Result<(), Error> {
    if !s.units.contains_key(vac_id) {
        Err(Error::NotRegisteredVaccine)
    } else if s.units[vac_id].buyer_id != Some(user) {
        Err(Error::NotVaccineBuyer)
    } else if s.units[vac_id].buy_confirm {
        Err(Error::VaccineAlreadyMine)
    } else if s.units[vac_id].owner_id != vac_owner {
        Err(Error::WrongVaccineOwner)
    } else if !s.used.contains((vac_id, user)) {
        Err(Error::NotSendFinalTransfer)
    } else if !passport_has_room(s, user) {
        Err(Error::FailToPush)
    } else {
        Ok(())
    }
}

/// The state after a confirmed administration: the handoff is closed,
/// custody stays with the distributor -- the recipient consumes the
/// dose, they do not become an owner -- the recipient's passport grows
/// by this unit, and a used event is on the trail.
pub open spec fn confirm_vaccine_applied(
    s: LedgerView,
    user: u64,
    vac_owner: u64,
    vac_id: u64,
) -> LedgerView {
    LedgerView {
        units: s.units.insert(vac_id, VaccineInfoV { buy_confirm: true, ..s.units[vac_id] }),
        passports: register_vac_pass_applied(s, user, vac_id).passports,
        trail: s.trail.push(
            MovingInfo {
                vac_id,
                from: Some(vac_owner),
                to: Some(user),
                time: s.now,
                status: VacStatus::Used,
            },
        ),
        ..s
    }
}

/// What `check_immune` returns: with a registered content identifier
/// and a stored verification key, the proof gate decides; a passing
/// proof reads the recipient's administration count.
pub open spec fn check_immune_outcome(
    s: LedgerView,
    pub_input: Seq<u8>,
    zkproof: Seq<u8>,
    user_id: u64,
    cid: Seq<u8>,
) -> Result<u32, Error> {
    if !s.cids.contains(cid) {
        Err(Error::NotExistCID)
    } else if s.vkey is None {
        Err(Error::NoVerificationKey)
    } else if !groth16_accepts(pub_input, zkproof, s.vkey->0) {
        Err(Error::VerificationFailed)
    } else if !s.passports.contains_key(user_id) {
        Err(Error::NotRegisteredVaccinePass)
    } else {
        Ok(s.passports[user_id].inoculation_count)
    }
}

/// Whether a sequence contains a value.
fn contains_u64(v: &Vec<u64>, x: u64) -> (r: bool)
    ensures
        r == v@.contains(x),
{
    let mut i: usize = 0;
    while i < v.len()
        invariant
            i <= v@.len(),
            forall|j: int| 0 <= j < i ==> v@[j] != x,
        decreases v@.len() - i,
    {
        if v[i] == x {
            return true;
        }
        i = i + 1;
    }
    false
}

impl VaccineLedger {
    /// Signs a unit off on behalf of an approved organization.  The
    /// sign-off list is a bounded set: a repeated sign-off changes
    /// nothing, and a full list rejects a new signer.
    pub fn approve_vaccine(&mut self, organization: u64, vac_id: u64) -> (r: Result<(), Error>)
        requires
            old(self)@.wf(),
        ensures
            r == approve_vaccine_outcome(old(self)@, organization, vac_id),
            r is Ok ==> final(self)@ == approve_vaccine_applied(old(self)@, organization, vac_id),
            r is Err ==> final(self)@ == old(self)@,
            final(self)@.wf(),
    {
        match self.check_account(organization, Role::VAO) {
            Err(Error::NotClaimed) | Err(Error::InvalidRole) => {
                return Err(Error::NotOrganization);
            },
            Err(e) => {
                return Err(e);
            },
            Ok(()) => {},
        }
        let vac_info = match self.vaccines.get(&vac_id) {
            None => return Err(Error::NotRegisteredVaccine),
            Some(v) => v.clone(),
        };
        if vac_info.inoculation_count != 0 {
            return Err(Error::VaccineAlreadyUsed);
        }
        if contains_u64(&vac_info.vao_list, organization) {
            return Ok(());
        }
        if vac_info.vao_list.len() >= self.max_list_size as usize {
            return Err(Error::FailToPush);
        }
        let mut new_vac_info = vac_info;
        new_vac_info.vao_list.push(organization);
        proof {
            lemma_units_view_insert(self.vaccines@, vac_id, new_vac_info);
        }
        self.vaccines.insert(vac_id, new_vac_info);
        Ok(())
    }

    /// Offers final administration of a unit to `user_id`: phase one
    /// of the administration handoff.  The allocation to this recipient
    /// becomes durable here and can never be repeated.
    pub fn transfer_get_vaccine_right(&mut self, sender: u64, user_id: u64, vac_id: u64) -> (r:
        Result<(), Error>)
        requires
            old(self)@.wf(),
        ensures
            r == transfer_right_outcome(old(self)@, sender, user_id, vac_id),
            r is Ok ==> final(self)@ == transfer_right_applied(old(self)@, sender, user_id, vac_id),
            r is Err ==> final(self)@ == old(self)@,
            final(self)@.wf(),
    {
        match self.check_account(sender, Role::VAD) {
            Err(Error::NotClaimed) | Err(Error::InvalidRole) => {
                return Err(Error::NotManufacture);
            },
            Err(e) => {
                return Err(e);
            },
            Ok(()) => {},
        }
        let vac_info = match self.vaccines.get(&vac_id) {
            None => return Err(Error::NotRegisteredVaccine),
            Some(v) => v.clone(),
        };
        if self.used.is_used(vac_id, user_id) {
            return Err(Error::VaccineAlreadyUsed);
        }
        if sender == user_id {
            return Err(Error::TransferByMyself);
        }
        if vac_info.owner_id != sender {
            return Err(Error::WrongVaccineOwner);
        }
        if vac_info.inoculation_count >= vac_info.max_inoculations_number {
            return Err(Error::ExceedMaxShotNumber);
        }
        let new_count = vac_info.inoculation_count + 1;
        let new_vac_info = VaccineInfo {
            buyer_id: Some(user_id),
            buy_confirm: false,
            inoculation_count: new_count,
            ..vac_info
        };
        proof {
            lemma_units_view_insert(self.vaccines@, vac_id, new_vac_info);
        }
        self.vaccines.insert(vac_id, new_vac_info);
        self.used.mark(vac_id, user_id);
        self.transfer_onwership(vac_id, Some(sender), Some(user_id), VacStatus::Usable);
        Ok(())
    }

    /// Appends a unit to the recipient's passport, creating the
    /// passport on first administration; only the capacity bound can
    /// reject it.
    pub fn register_vac_pass(&mut self, registrant: u64, vac_id: u64) -> (r: Result<(), Error>)
        requires
            old(self)@.wf(),
        ensures
            r == register_vac_pass_outcome(old(self)@, registrant),
            r is Ok ==> final(self)@ == register_vac_pass_applied(old(self)@, registrant, vac_id),
            r is Err ==> final(self)@ == old(self)@,
            final(self)@.wf(),
    {
        match self.passports.get(&registrant) {
            None => {
                if self.max_list_size == 0 {
                    return Err(Error::FailToPush);
                }
                let mut vac_list: Vec<u64> = Vec::new();
                vac_list.push(vac_id);
                let vac_pass = PassportInfo { user_id: registrant, vac_list, inoculation_count: 1 };
                proof {
                    lemma_passports_view_insert(self.passports@, registrant, vac_pass);
                    assert(vac_pass@.vac_list =~= seq![vac_id]);
                }
                self.passports.insert(registrant, vac_pass);
                Ok(())
            },
            Some(p) => {
                if p.vac_list.len() >= self.max_list_size as usize {
                    return Err(Error::FailToPush);
                }
                let mut passport = p.clone();
                passport.vac_list.push(vac_id);
                passport.inoculation_count = passport.inoculation_count + 1;
                proof {
                    lemma_passports_view_insert(self.passports@, registrant, passport);
                }
                self.passports.insert(registrant, passport);
                Ok(())
            },
        }
    }

    /// Confirms an administration offer: phase two of the
    /// administration handoff.  Custody is not transferred to the
    /// recipient; their passport records the unit instead.
    pub fn confirm_vaccine(&mut self, user: u64, vac_owner: u64, vac_id: u64) -> (r: Result<
        (),
        Error,
    >)
        requires
            old(self)@.wf(),
        ensures
            r == confirm_vaccine_outcome(old(self)@, user, vac_owner, vac_id),
            r is Ok ==> final(self)@ == confirm_vaccine_applied(old(self)@, user, vac_owner, vac_id),
            r is Err ==> final(self)@ == old(self)@,
            final(self)@.wf(),
    {
        let vac_info = match self.vaccines.get(&vac_id) {
            None => return Err(Error::NotRegisteredVaccine),
            Some(v) => v.clone(),
        };
        let is_buyer = match vac_info.buyer_id {
            Some(b) => b == user,
            None => false,
        };
        if !is_buyer {
            return Err(Error::NotVaccineBuyer);
        }
        if vac_info.buy_confirm {
            return Err(Error::VaccineAlreadyMine);
        }
        if vac_info.owner_id != vac_owner {
            return Err(Error::WrongVaccineOwner);
        }
        if !self.used.is_used(vac_id, user) {
            return Err(Error::NotSendFinalTransfer);
        }
        let has_room = match self.passports.get(&user) {
            None => self.max_list_size > 0,
            Some(p) => p.vac_list.len() < self.max_list_size as usize,
        };
        if !has_room {
            return Err(Error::FailToPush);
        }
        let new_vac_info = VaccineInfo { buy_confirm: true, ..vac_info };
        proof {
            lemma_units_view_insert(self.vaccines@, vac_id, new_vac_info);
        }
        self.vaccines.insert(vac_id, new_vac_info);
        match self.register_vac_pass(user, vac_id) {
            Err(e) => {
                return Err(e);
            },
            Ok(()) => {},
        }
        self.transfer_onwership(vac_id, Some(vac_owner), Some(user), VacStatus::Used);
        Ok(())
    }

    /// Registers a content identifier; the host decides who may.
    pub fn register_cid(&mut self, cid: Vec<u8>)
        ensures
            final(self)@ == (LedgerView { cids: old(self)@.cids.insert(cid@), ..old(self)@ }),
    {
        self.cids.register(cid);
    }

    /// Stores the proof gate's verification key, replacing any earlier
    /// one.
    pub fn add_vkey(&mut self, vkey: Vec<u8>)
        ensures
            final(self)@ == (LedgerView { vkey: Some(vkey@), ..old(self)@ }),
    {
        self.gate.add_vkey(vkey);
    }

    /// Reads a recipient's administration count, gated by a
    /// zero-knowledge proof: the content identifier must be registered
    /// and the proof must verify against the stored key.  The proof
    /// gate keeps the submitted proof; every other store is read only.
    pub fn check_immune(
        &mut self,
        pub_input: &Vec<u8>,
        zkproof: &Vec<u8>,
        user_id: u64,
        cid: &Vec<u8>,
    ) -> (r: Result<u32, Error>)
        requires
            old(self)@.wf(),
        ensures
            r == check_immune_outcome(old(self)@, pub_input@, zkproof@, user_id, cid@),
            old(self)@.cids.contains(cid@) ==> final(self)@ == (LedgerView {
                vkproof: Some(zkproof@),
                ..old(self)@
            }),
            !old(self)@.cids.contains(cid@) ==> final(self)@ == old(self)@,
            final(self)@.wf(),
    {
        if !self.cids.contains(cid) {
            return Err(Error::NotExistCID);
        }
        match self.gate.run_verifier(pub_input.as_slice(), zkproof.as_slice()) {
            Err(e) => {
                return Err(e);
            },
            Ok(()) => {},
        }
        match self.passports.get(&user_id) {
            None => Err(Error::NotRegisteredVaccinePass),
            Some(pass) => Ok(pass.inoculation_count),
        }
    }
}

impl VaccineLedger {
    /// Claims the system-manager role for the caller.
    pub fn claim_sys_man(&mut self, claimer: u64) -> (r: Result<(), Error>)
        requires
            old(self)@.wf(),
        ensures
            r == claim_outcome(old(self)@, claimer, Role::SYSMAN),
            r is Ok ==> final(self)@ == claim_applied(old(self)@, claimer, Role::SYSMAN),
            r is Err ==> final(self)@ == old(self)@,
            final(self)@.wf(),
    {
        self.claim_role(claimer, Role::SYSMAN)
    }

    /// Claims the manufacturer role for the caller.
    pub fn claim_vm(&mut self, claimer: u64) -> (r: Result<(), Error>)
        requires
            old(self)@.wf(),
        ensures
            r == claim_outcome(old(self)@, claimer, Role::VM),
            r is Ok ==> final(self)@ == claim_applied(old(self)@, claimer, Role::VM),
            r is Err ==> final(self)@ == old(self)@,
            final(self)@.wf(),
    {
        self.claim_role(claimer, Role::VM)
    }

    /// Claims the authorizing-organization role for the caller.
    pub fn claim_vao(&mut self, claimer: u64) -> (r: Result<(), Error>)
        requires
            old(self)@.wf(),
        ensures
            r == claim_outcome(old(self)@, claimer, Role::VAO),
            r is Ok ==> final(self)@ == claim_applied(old(self)@, claimer, Role::VAO),
            r is Err ==> final(self)@ == old(self)@,
            final(self)@.wf(),
    {
        self.claim_role(claimer, Role::VAO)
    }

    /// Claims the distributor role for the caller.
    pub fn claim_vad(&mut self, claimer: u64) -> (r: Result<(), Error>)
        requires
            old(self)@.wf(),
        ensures
            r == claim_outcome(old(self)@, claimer, Role::VAD),
            r is Ok ==> final(self)@ == claim_applied(old(self)@, claimer, Role::VAD),
            r is Err ==> final(self)@ == old(self)@,
            final(self)@.wf(),
    {
        self.claim_role(claimer, Role::VAD)
    }

    /// Approves a pending system-manager claim.
    pub fn approve_sys_man(&mut self, sender: u64, target: u64) -> (r: Result<(), Error>)
        requires
            old(self)@.wf(),
        ensures
            r == approve_outcome(old(self)@, sender, target, Role::SYSMAN),
            r is Ok ==> final(self)@ == approve_applied(old(self)@, target, Role::SYSMAN),
            r is Err ==> final(self)@ == old(self)@,
            final(self)@.wf(),
    {
        self.approve_role(sender, target, Role::SYSMAN)
    }

    /// Approves a pending manufacturer claim.
    pub fn approve_vm(&mut self, sender: u64, target: u64) -> (r: Result<(), Error>)
        requires
            old(self)@.wf(),
        ensures
            r == approve_outcome(old(self)@, sender, target, Role::VM),
            r is Ok ==> final(self)@ == approve_applied(old(self)@, target, Role::VM),
            r is Err ==> final(self)@ == old(self)@,
            final(self)@.wf(),
    {
        self.approve_role(sender, target, Role::VM)
    }

    /// Approves a pending authorizing-organization claim.
    pub fn approve_vao(&mut self, sender: u64, target: u64) -> (r: Result<(), Error>)
        requires
            old(self)@.wf(),
        ensures
            r == approve_outcome(old(self)@, sender, target, Role::VAO),
            r is Ok ==> final(self)@ == approve_applied(old(self)@, target, Role::VAO),
            r is Err ==> final(self)@ == old(self)@,
            final(self)@.wf(),
    {
        self.approve_role(sender, target, Role::VAO)
    }

    /// Approves a pending distributor claim.
    pub fn approve_vad(&mut self, sender: u64, target: u64) -> (r: Result<(), Error>)
        requires
            old(self)@.wf(),
        ensures
            r == approve_outcome(old(self)@, sender, target, Role::VAD),
            r is Ok ==> final(self)@ == approve_applied(old(self)@, target, Role::VAD),
            r is Err ==> final(self)@ == old(self)@,
            final(self)@.wf(),
    {
        self.approve_role(sender, target, Role::VAD)
    }
}

/// Claiming any claimable role after approval is always rejected as
/// already approved, whatever role is claimed.
pub proof fn lemma_claim_after_approved(s: LedgerView, claimer: u64, role: Role)
    requires
        s.roles.contains_key(claimer),
        s.roles[claimer].status == RoleStatus::Approved,
        role != Role::USER,
    ensures
        claim_outcome(s, claimer, role) == Err::<(), Error>(Error::AlreadyApproved),
{
}

/// One active role at a time: an identity cannot pass the role check
/// for two different roles in the same state.
pub proof fn lemma_single_active_role(roles: Map<u64, Account>, id: u64, role1: Role, role2: Role)
    requires
        is_approved(roles, id, role1),
        is_approved(roles, id, role2),
    ensures
        role1 == role2,
{
}

/// A second custody offer before acceptance replaces the pending
/// recipient: the unit table after two offers of the same unit is the
/// table after the second offer alone.
pub proof fn lemma_offer_custody_overwrites(
    s: LedgerView,
    sender1: u64,
    buyer1: u64,
    sender2: u64,
    buyer2: u64,
    vac_id: u64,
)
    requires
        transfer_vaccine_outcome(s, sender1, buyer1, vac_id) is Ok,
        transfer_vaccine_outcome(
            transfer_vaccine_applied(s, sender1, buyer1, vac_id),
            sender2,
            buyer2,
            vac_id,
        ) is Ok,
    ensures
        transfer_vaccine_applied(
            transfer_vaccine_applied(s, sender1, buyer1, vac_id),
            sender2,
            buyer2,
            vac_id,
        ).units =~= transfer_vaccine_applied(s, sender2, buyer2, vac_id).units,
        transfer_vaccine_applied(
            transfer_vaccine_applied(s, sender1, buyer1, vac_id),
            sender2,
            buyer2,
            vac_id,
        ).units[vac_id].buyer_id == Some(buyer2),
{
    let s1 = transfer_vaccine_applied(s, sender1, buyer1, vac_id);
    let s2 = transfer_vaccine_applied(s1, sender2, buyer2, vac_id);
    assert(s2.units =~= transfer_vaccine_applied(s, sender2, buyer2, vac_id).units);
}

/// An administration offer is exclusive: once a unit was offered to a
/// recipient, any further offer of that unit to the same recipient is
/// rejected as already used, whoever the distributor is.
pub proof fn lemma_second_offer_rejected(
    s: LedgerView,
    sender: u64,
    user_id: u64,
    vac_id: u64,
    sender2: u64,
)
    requires
        transfer_right_outcome(s, sender, user_id, vac_id) is Ok,
        is_approved(s.roles, sender2, Role::VAD),
    ensures
        transfer_right_outcome(
            transfer_right_applied(s, sender, user_id, vac_id),
            sender2,
            user_id,
            vac_id,
        ) == Err::<(), Error>(Error::VaccineAlreadyUsed),
{
}

/// A confirmation needs a prior administration offer: where every
/// earlier guard of the confirmation is satisfied but the consumption
/// guard holds no mark for the pair -- as after a custody offer alone
/// -- the confirmation is rejected for the missing offer.
pub proof fn lemma_confirm_requires_offer(s: LedgerView, user: u64, vac_owner: u64, vac_id: u64)
    requires
        s.units.contains_key(vac_id),
        s.units[vac_id].buyer_id == Some(user),
        !s.units[vac_id].buy_confirm,
        s.units[vac_id].owner_id == vac_owner,
        !s.used.contains((vac_id, user)),
    ensures
        confirm_vaccine_outcome(s, user, vac_owner, vac_id) == Err::<(), Error>(
            Error::NotSendFinalTransfer,
        ),
{
}

/// The unit ids of a sequence of (owner, unit) administration pairs.
pub open spec fn unit_ids(pairs: Seq<(u64, u64)>) -> Seq<u64>
    decreases pairs.len(),
{
    if pairs.len() == 0 {
        Seq::empty()
    } else {
        unit_ids(pairs.drop_last()).push(pairs.last().1)
    }
}

/// The state after a sequence of administration confirmations by one
/// recipient, each naming the owner and the unit of its offer.
pub open spec fn confirms_applied(s: LedgerView, user: u64, pairs: Seq<(u64, u64)>) -> LedgerView
    decreases pairs.len(),
{
    if pairs.len() == 0 {
        s
    } else {
        confirm_vaccine_applied(
            confirms_applied(s, user, pairs.drop_last()),
            user,
            pairs.last().0,
            pairs.last().1,
        )
    }
}

/// Whether every confirmation of the sequence succeeds in turn.
pub open spec fn confirms_ok(s: LedgerView, user: u64, pairs: Seq<(u64, u64)>) -> bool
    decreases pairs.len(),
{
    if pairs.len() == 0 {
        true
    } else {
        confirms_ok(s, user, pairs.drop_last()) && confirm_vaccine_outcome(
            confirms_applied(s, user, pairs.drop_last()),
            user,
            pairs.last().0,
            pairs.last().1,
        ) is Ok
    }
}

/// A sequence of pairs yields as many unit ids as it has pairs.
pub proof fn lemma_unit_ids_len(pairs: Seq<(u64, u64)>)
    ensures
        unit_ids(pairs).len() == pairs.len(),
    decreases pairs.len(),
{
    if pairs.len() > 0 {
        lemma_unit_ids_len(pairs.drop_last());
    }
}

/// Passport growth: a recipient without a passport who has N
/// administrations confirmed ends with a passport that counts N and
/// lists exactly the N units administered, in order.
pub proof fn lemma_passport_growth(s: LedgerView, user: u64, pairs: Seq<(u64, u64)>)
    requires
        !s.passports.contains_key(user),
        confirms_ok(s, user, pairs),
        pairs.len() > 0,
    ensures
        confirms_applied(s, user, pairs).passports.contains_key(user),
        confirms_applied(s, user, pairs).passports[user].vac_list =~= unit_ids(pairs),
        confirms_applied(s, user, pairs).passports[user].inoculation_count == pairs.len(),
        confirms_applied(s, user, pairs).max_list_size == s.max_list_size,
    decreases pairs.len(),
{
    let prev = confirms_applied(s, user, pairs.drop_last());
    let owner = pairs.last().0;
    let vac = pairs.last().1;
    if pairs.len() == 1 {
        assert(pairs.drop_last().len() == 0);
        assert(prev == s);
        assert(unit_ids(pairs.drop_last()) =~= Seq::<u64>::empty());
    } else {
        lemma_passport_growth(s, user, pairs.drop_last());
    }
    lemma_unit_ids_len(pairs.drop_last());
    assert(confirm_vaccine_outcome(prev, user, owner, vac) is Ok);
    assert(passport_has_room(prev, user));
    assert(confirms_applied(s, user, pairs) == confirm_vaccine_applied(prev, user, owner, vac));
    assert(unit_ids(pairs) == unit_ids(pairs.drop_last()).push(vac));
    assert(confirm_vaccine_applied(prev, user, owner, vac).passports == register_vac_pass_applied(
        prev,
        user,
        vac,
    ).passports);
}

} // verus!
