use empower_grid::escrow::{
    EscrowAccount, EscrowStatus, MilestoneData, MilestoneStatus,
};
use empower_grid::ident::{Hash32, Ident};
use empower_grid::participant::{Participant, ParticipantRole, ParticipantStatus};

fn escrow(status: EscrowStatus) -> EscrowAccount {
    EscrowAccount {
        project_id: b"grid-7".to_vec(),
        creator: Ident { hi: 1, lo: 1 },
        total_amount: 0,
        released_amount: 0,
        milestone_count: 0,
        completed_milestones: 0,
        status,
        oracle_authority: Ident { hi: 2, lo: 2 },
        created_at: 0,
        bump: 1,
    }
}

fn milestone_data(status: MilestoneStatus) -> MilestoneData {
    MilestoneData {
        escrow_account: Ident { hi: 3, lo: 3 },
        milestone_index: 0,
        target_amount: 100,
        energy_target: 1000,
        due_date: 500,
        status,
        verification_hash: Hash32 { hi: 0, lo: 0 },
        completed_at: None,
        bump: 1,
    }
}

fn participant(role: ParticipantRole, status: ParticipantStatus) -> Participant {
    Participant {
        escrow_contract: Ident { hi: 4, lo: 4 },
        wallet_address: Ident { hi: 5, lo: 5 },
        role,
        status,
        contributed_amount: 0,
        joined_at: 0,
        bump: 1,
    }
}

#[test]
fn deposits_allowed_while_initialized_or_active() {
    assert!(escrow(EscrowStatus::Initialized).can_accept_deposits());
    assert!(escrow(EscrowStatus::Active).can_accept_deposits());
    assert!(!escrow(EscrowStatus::Completed).can_accept_deposits());
    assert!(!escrow(EscrowStatus::Disputed).can_accept_deposits());
    assert!(!escrow(EscrowStatus::EmergencyStopped).can_accept_deposits());
}

#[test]
fn all_milestones_completed_compares_counts() {
    let mut e = escrow(EscrowStatus::Active);
    assert!(e.all_milestones_completed());
    e.milestone_count = 3;
    e.completed_milestones = 2;
    assert!(!e.all_milestones_completed());
    e.completed_milestones = 3;
    assert!(e.all_milestones_completed());
}

#[test]
fn remaining_funds_subtracts_released() {
    let mut e = escrow(EscrowStatus::Active);
    e.total_amount = 10;
    e.released_amount = 3;
    assert_eq!(e.remaining_funds(), 7);
}

#[test]
fn remaining_funds_saturates_at_zero() {
    let mut e = escrow(EscrowStatus::Active);
    e.total_amount = 3;
    e.released_amount = 10;
    assert_eq!(e.remaining_funds(), 0);
}

#[test]
fn completion_percentage_exact_values() {
    let mut e = escrow(EscrowStatus::Active);
    assert_eq!(e.completion_percentage(), 0);
    e.milestone_count = 3;
    e.completed_milestones = 1;
    assert_eq!(e.completion_percentage(), 33);
    e.milestone_count = 4;
    e.completed_milestones = 2;
    assert_eq!(e.completion_percentage(), 50);
    e.milestone_count = 3;
    e.completed_milestones = 3;
    assert_eq!(e.completion_percentage(), 100);
}

#[test]
fn overdue_only_before_completion() {
    let m = milestone_data(MilestoneStatus::Pending);
    assert!(!m.is_overdue(500));
    assert!(m.is_overdue(501));
    let done = milestone_data(MilestoneStatus::Completed);
    assert!(!done.is_overdue(501));
}

#[test]
fn verification_requires_in_progress() {
    assert!(!milestone_data(MilestoneStatus::Pending).can_verify());
    assert!(milestone_data(MilestoneStatus::InProgress).can_verify());
    assert!(!milestone_data(MilestoneStatus::Failed).can_verify());
    assert!(!milestone_data(MilestoneStatus::Disputed).can_verify());
}

#[test]
fn verification_hash_presence() {
    let mut m = milestone_data(MilestoneStatus::InProgress);
    assert!(!m.has_verification());
    m.verification_hash = Hash32 { hi: 0, lo: 1 };
    assert!(m.has_verification());
}

#[test]
fn only_active_funders_contribute() {
    assert!(participant(ParticipantRole::Funder, ParticipantStatus::Active).can_contribute());
    assert!(!participant(ParticipantRole::Client, ParticipantStatus::Active).can_contribute());
    assert!(!participant(ParticipantRole::Funder, ParticipantStatus::Withdrawn).can_contribute());
    assert!(!participant(ParticipantRole::Arbiter, ParticipantStatus::Suspended).can_contribute());
}

#[test]
fn activity_follows_status() {
    assert!(participant(ParticipantRole::Freelancer, ParticipantStatus::Active).is_active());
    assert!(!participant(ParticipantRole::Freelancer, ParticipantStatus::Withdrawn).is_active());
    assert!(!participant(ParticipantRole::Freelancer, ParticipantStatus::Suspended).is_active());
}

#[test]
fn default_statuses() {
    assert_eq!(EscrowStatus::default(), EscrowStatus::Initialized);
    assert_eq!(MilestoneStatus::default(), MilestoneStatus::Pending);
    assert_eq!(ParticipantRole::default(), ParticipantRole::Funder);
    assert_eq!(ParticipantStatus::default(), ParticipantStatus::Active);
}
