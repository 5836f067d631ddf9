//! Version and migration management for the escrow logic itself.
//!
//! A `ContractVersion` moves from idle to upgrading and back: starting an
//! upgrade is rejected while one is in progress, completing one installs
//! the new version and stamps the time, and cancelling returns to idle
//! without touching the version.  A `MigrationState` gathers an approval
//! quorum; an `UpgradeHistory` record is the append-only audit entry for
//! one upgrade event.  The clock is the environment's: completion takes the
//! current time as a value.

use vstd::prelude::*;
use crate::ident::{Hash32, Ident};

verus! {

/// Descriptor of the escrow logic's current version and of an upgrade in
/// flight.
#[derive(Clone, Copy, PartialEq, Eq, Debug)]
pub struct ContractVersion {
    pub version: u64,
    pub upgrade_authority: Ident,
    pub previous_version: Option<Ident>,
    pub last_upgrade: i64,
    pub upgrade_count: u64,
    pub upgrade_in_progress: bool,
    pub migration_complete: bool,
    pub bump: u8,
}

impl ContractVersion {
    /// Whether starting an upgrade is allowed: true iff none is in
    /// progress.
    pub open spec fn spec_can_upgrade(self) -> bool {
        !self.upgrade_in_progress
    }

    /// Whether starting an upgrade is allowed: true iff none is in
    /// progress.
    pub fn can_upgrade(&self) -> (r: bool)
        ensures
            r == self.spec_can_upgrade(),
    {
        !self.upgrade_in_progress
    }

    /// Begin the upgrade process: sets the in-progress flag and clears the
    /// migration flag.  Rejected, with nothing changed, while an upgrade is
    /// already in progress; the result says whether the upgrade started.
    pub fn start_upgrade(&mut self) -> (started: bool)
        ensures
            started == old(self).spec_can_upgrade(),
            started ==> *final(self) == (ContractVersion {
                upgrade_in_progress: true,
                migration_complete: false,
                ..*old(self)
            }),
            !started ==> *final(self) == *old(self),
    {
        if self.upgrade_in_progress {
            return false;
        }
        self.upgrade_in_progress = true;
        self.migration_complete = false;
        true
    }

    /// Finish an upgrade: installs `new_version`, counts the upgrade,
    /// stamps `now` as the upgrade time, clears the in-progress flag and
    /// marks the migration complete.  No ordering between `new_version`
    /// and the prior version is enforced at this layer; that policy is the
    /// caller's.
    pub fn complete_upgrade(&mut self, new_version: u64, now: i64)
        requires
            old(self).upgrade_count < u64::MAX,
        ensures
            *final(self) == (ContractVersion {
                version: new_version,
                upgrade_count: (old(self).upgrade_count + 1) as u64,
                last_upgrade: now,
                upgrade_in_progress: false,
                migration_complete: true,
                ..*old(self)
            }),
    {
        self.version = new_version;
        self.upgrade_count = self.upgrade_count + 1;
        self.last_upgrade = now;
        self.upgrade_in_progress = false;
        self.migration_complete = true;
    }

    /// Abandon an upgrade in flight: clears the in-progress flag only,
    /// leaving the version and the migration flag untouched.
    pub fn cancel_upgrade(&mut self)
        ensures
            *final(self) == (ContractVersion { upgrade_in_progress: false, ..*old(self) }),
    {
        self.upgrade_in_progress = false;
    }
}

/// Law: a cancelled upgrade restores the ability to upgrade without
/// altering the installed version, and a second start before completion is
/// rejected because the first left `can_upgrade` false.
pub proof fn lemma_cancel_restores_can_upgrade(v: ContractVersion)
    ensures
        !(ContractVersion { upgrade_in_progress: true, migration_complete: false, ..v })
            .spec_can_upgrade(),
        (ContractVersion {
            upgrade_in_progress: false,
            ..(ContractVersion { upgrade_in_progress: true, migration_complete: false, ..v })
        }).spec_can_upgrade(),
        (ContractVersion {
            upgrade_in_progress: false,
            ..(ContractVersion { upgrade_in_progress: true, migration_complete: false, ..v })
        }).version == v.version,
{
}

/// Immutable audit record of one upgrade event.  The rollback flag and
/// timestamp record that a rollback was bookkept; nothing here reverts the
/// version descriptor itself.
#[derive(Clone, Copy, PartialEq, Eq, Debug)]
pub struct UpgradeHistory {
    pub version_account: Ident,
    pub from_version: u64,
    pub to_version: u64,
    pub authorized_by: Ident,
    pub upgraded_at: i64,
    pub migration_hash: Hash32,
    pub rollback: bool,
    pub rolled_back_at: Option<i64>,
    pub bump: u8,
}

/// In-flight migration tracking: the logic references on both sides, a
/// state-snapshot hash, the validation flag and the approval quorum.
#[derive(Clone, Copy, PartialEq, Eq, Debug)]
pub struct MigrationState {
    pub original_contract: Ident,
    pub new_contract: Ident,
    pub migration_started: i64,
    pub migration_completed: Option<i64>,
    pub state_hash: Hash32,
    pub validation_passed: bool,
    pub stakeholders_notified: bool,
    pub approval_count: u8,
    pub required_approvals: u8,
    pub bump: u8,
}

impl MigrationState {
    /// Whether the migration is complete: it has a completion timestamp
    /// and validation passed.
    pub open spec fn spec_is_complete(self) -> bool {
        self.migration_completed is Some && self.validation_passed
    }

    /// Whether the migration is complete: it has a completion timestamp
    /// and validation passed.
    pub fn is_complete(&self) -> (r: bool)
        ensures
            r == self.spec_is_complete(),
    {
        self.migration_completed.is_some() && self.validation_passed
    }

    /// Whether the approval quorum is met: at least as many approvals as
    /// required.
    pub open spec fn spec_has_all_approvals(self) -> bool {
        self.approval_count >= self.required_approvals
    }

    /// Whether the approval quorum is met: at least as many approvals as
    /// required.
    pub fn has_all_approvals(&self) -> (r: bool)
        ensures
            r == self.spec_has_all_approvals(),
    {
        self.approval_count >= self.required_approvals
    }

    /// Record one more approval.  The count never decreases and is not
    /// capped at the requirement; it must stay representable.
    pub fn add_approval(&mut self)
        requires
            old(self).approval_count < u8::MAX,
        ensures
            *final(self) == (MigrationState {
                approval_count: (old(self).approval_count + 1) as u8,
                ..*old(self)
            }),
    {
        self.approval_count = self.approval_count + 1;
    }
}

} // verus!
