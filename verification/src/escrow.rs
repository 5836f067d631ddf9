//! Escrow bookkeeping records: per-project funding totals, milestone
//! tracking and their status machines, with small validation helpers.

use vstd::prelude::*;
use crate::ident::{Hash32, Ident};

verus! {

use vstd::arithmetic::div_mod::{lemma_div_by_multiple, lemma_div_is_ordered};
use vstd::arithmetic::mul::lemma_mul_inequality;

/// Lifecycle status of an escrow contract.
#[derive(Clone, Copy, PartialEq, Eq, Structural, Debug)]
pub enum EscrowStatus {
    /// Initialized but no funds deposited.
    Initialized,
    /// Active and accepting deposits.
    Active,
    /// All milestones completed and funds released.
    Completed,
    /// Disputed.
    Disputed,
    /// Emergency stop activated.
    EmergencyStopped,
}

impl Default for EscrowStatus {
    fn default() -> (r: Self)
        ensures
            r == EscrowStatus::Initialized,
    {
        EscrowStatus::Initialized
    }
}

/// Status of one milestone.
#[derive(Clone, Copy, PartialEq, Eq, Structural, Debug)]
pub enum MilestoneStatus {
    /// Not yet started.
    Pending,
    /// Work in progress.
    InProgress,
    /// Completed and verified.
    Completed,
    /// Verification failed.
    Failed,
    /// Disputed.
    Disputed,
}

impl Default for MilestoneStatus {
    fn default() -> (r: Self)
        ensures
            r == MilestoneStatus::Pending,
    {
        MilestoneStatus::Pending
    }
}

/// Main escrow account for one project's funding.
#[derive(Clone, Debug)]
pub struct EscrowAccount {
    /// Project identifier, stored as bytes.
    pub project_id: Vec<u8>,
    /// Creator's wallet address.
    pub creator: Ident,
    /// Total amount deposited.
    pub total_amount: u64,
    /// Amount released so far.
    pub released_amount: u64,
    /// Total number of milestones.
    pub milestone_count: u8,
    /// Number of completed milestones.
    pub completed_milestones: u8,
    /// Contract status.
    pub status: EscrowStatus,
    /// Oracle authority for verification.
    pub oracle_authority: Ident,
    /// Creation timestamp.
    pub created_at: i64,
    /// Derivation nonce.
    pub bump: u8,
}

impl EscrowAccount {
    /// Whether the escrow can accept more deposits.
    pub fn can_accept_deposits(&self) -> (r: bool)
        ensures
            r == (self.status is Active || self.status is Initialized),
    {
        matches!(self.status, EscrowStatus::Active | EscrowStatus::Initialized)
    }

    /// Whether every milestone is completed.
    pub fn all_milestones_completed(&self) -> (r: bool)
        ensures
            r == (self.completed_milestones == self.milestone_count),
    {
        self.completed_milestones == self.milestone_count
    }

    /// The funds not yet released, saturating at zero where more was
    /// released than deposited.
    pub fn remaining_funds(&self) -> (r: u64)
        ensures
            r == if self.released_amount <= self.total_amount {
                self.total_amount - self.released_amount
            } else {
                0
            },
    {
        if self.released_amount <= self.total_amount {
            self.total_amount - self.released_amount
        } else {
            0
        }
    }

    /// Completed milestones as a percentage of the milestone count, zero
    /// where no milestones exist.  The quotient is reduced to the result's
    /// width; with completed at most the count it is at most one hundred.
    pub fn completion_percentage(&self) -> (r: u8)
        ensures
            self.milestone_count == 0 ==> r == 0,
            self.milestone_count > 0 ==> r == (((self.completed_milestones as int) * 100 / (
            self.milestone_count as int)) as u8),
            self.milestone_count > 0 && self.completed_milestones <= self.milestone_count ==> r
                == (self.completed_milestones as int) * 100 / (self.milestone_count as int) && r
                <= 100,
    {
        if self.milestone_count == 0 {
            return 0;
        }
        let pct: u16 = (self.completed_milestones as u16) * 100 / (self.milestone_count as u16);
        proof {
            if self.completed_milestones <= self.milestone_count {
                lemma_mul_inequality(
                    self.completed_milestones as int,
                    self.milestone_count as int,
                    100,
                );
                lemma_div_is_ordered(
                    (self.completed_milestones as int) * 100,
                    (self.milestone_count as int) * 100,
                    self.milestone_count as int,
                );
                lemma_div_by_multiple(100, self.milestone_count as int);
            }
        }
        #[verifier::truncate]
        (pct as u8)
    }
}

/// Milestone tracking and verification record.
#[derive(Clone, Copy, PartialEq, Eq, Debug)]
pub struct MilestoneData {
    /// Parent escrow account.
    pub escrow_account: Ident,
    /// Milestone index, zero-based.
    pub milestone_index: u8,
    /// Target amount for this milestone.
    pub target_amount: u64,
    /// Energy production target.
    pub energy_target: u64,
    /// Due date for completion.
    pub due_date: i64,
    /// Milestone status.
    pub status: MilestoneStatus,
    /// Verification hash from the oracle.
    pub verification_hash: Hash32,
    /// Optional completion timestamp.
    pub completed_at: Option<i64>,
    /// Derivation nonce.
    pub bump: u8,
}

impl MilestoneData {
    /// Whether the milestone is overdue at `current_time`: not completed
    /// and past its due date.
    pub fn is_overdue(&self, current_time: i64) -> (r: bool)
        ensures
            r == (!(self.status is Completed) && current_time > self.due_date),
    {
        !matches!(self.status, MilestoneStatus::Completed) && current_time > self.due_date
    }

    /// Whether the milestone can be verified: work is in progress.
    pub fn can_verify(&self) -> (r: bool)
        ensures
            r == (self.status is InProgress),
    {
        matches!(self.status, MilestoneStatus::InProgress)
    }

    /// Whether a verification hash is set.
    pub fn has_verification(&self) -> (r: bool)
        ensures
            r == !self.verification_hash.is_zero(),
    {
        self.verification_hash != Hash32::zero()
    }
}

} // verus!
