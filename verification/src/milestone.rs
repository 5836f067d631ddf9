//! Milestones and the release engine.
//!
//! A milestone is one release condition for a project: metric thresholds, a
//! payout amount and a payee.  Its `released` flag moves from false to true
//! exactly once and never reverses; releasing is the only path that
//! decreases a vault balance.

use vstd::prelude::*;
use crate::errors::ErrorCode;
use crate::events::MilestoneReleased;
use crate::ident::Ident;
use crate::project::{Project, ProjectV};

verus! {

/// One release condition for a project, stored at the slot addressed by the
/// project and the index.
#[derive(Clone, Copy, PartialEq, Eq, Structural, Debug)]
pub struct Milestone {
    pub project: Ident,
    pub index: u8,
    pub amount_lamports: u64,
    pub kwh_target: u64,
    pub co2_target: u64,
    pub payee: Ident,
    pub released: bool,
}

/// Outcome of `create_milestone`: the project after the call and either the
/// milestone record for the slot or the error.
pub open spec fn create_milestone_spec(
    p: ProjectV,
    project_addr: Ident,
    creator: Ident,
    governance_authority: Ident,
    index: u8,
    amount_lamports: u64,
    kwh_target: u64,
    co2_target: u64,
    payee: Ident,
) -> (ProjectV, Result<Milestone, ErrorCode>) {
    if creator != p.creator && governance_authority != p.governance_authority {
        (p, Err(ErrorCode::Unauthorized))
    } else {
        let count = if index + 1 > p.num_milestones {
            (index + 1) as u8
        } else {
            p.num_milestones
        };
        (
            ProjectV { num_milestones: count, ..p },
            Ok(
                Milestone {
                    project: project_addr,
                    index,
                    amount_lamports,
                    kwh_target,
                    co2_target,
                    payee,
                    released: false,
                },
            ),
        )
    }
}

/// Write the milestone slot at `index` for a project and raise the
/// project's milestone count to cover it.
///
/// Only the project creator or the current governance authority may define
/// milestones.  Slots are addressed deterministically by project and index,
/// so calling again with the same index overwrites an un-released
/// milestone's terms.  The milestone count must stay representable, which
/// keeps the index below its type's maximum.
pub fn create_milestone(
    project: &mut Project,
    project_addr: Ident,
    creator: Ident,
    governance_authority: Ident,
    index: u8,
    amount_lamports: u64,
    kwh_target: u64,
    co2_target: u64,
    payee: Ident,
) -> (r: Result<Milestone, ErrorCode>)
    requires
        index < u8::MAX,
    ensures
        final(project)@ == create_milestone_spec(
            old(project)@,
            project_addr,
            creator,
            governance_authority,
            index,
            amount_lamports,
            kwh_target,
            co2_target,
            payee,
        ).0,
        r == create_milestone_spec(
            old(project)@,
            project_addr,
            creator,
            governance_authority,
            index,
            amount_lamports,
            kwh_target,
            co2_target,
            payee,
        ).1,
        r is Ok <==> creator == old(project).creator || governance_authority == old(
            project,
        ).governance_authority,
        r is Ok ==> final(project).num_milestones >= index + 1 && final(project).num_milestones
            >= old(project).num_milestones,
        r is Err ==> r == Err::<Milestone, ErrorCode>(ErrorCode::Unauthorized) && final(project)@
            == old(project)@,
        old(project)@.wf() ==> final(project)@.wf(),
{
    if !(creator == project.creator) && !(governance_authority == project.governance_authority) {
        return Err(ErrorCode::Unauthorized);
    }
    if index + 1 > project.num_milestones {
        project.num_milestones = index + 1;
    }
    Ok(
        Milestone {
            project: project_addr,
            index,
            amount_lamports,
            kwh_target,
            co2_target,
            payee,
            released: false,
        },
    )
}

/// Outcome of `release_milestone`: the milestone, vault balance and payee
/// balance after the call, and either the release event or the error.  The
/// project record itself is never changed by a release.
pub open spec fn release_milestone_spec(
    p: ProjectV,
    m: Milestone,
    project_addr: Ident,
    governance_authority: Ident,
    governance_signed: bool,
    vault_balance: u64,
    payee_balance: u64,
) -> (Milestone, u64, u64, Result<MilestoneReleased, ErrorCode>) {
    if !governance_signed || governance_authority != p.governance_authority {
        (m, vault_balance, payee_balance, Err(ErrorCode::Unauthorized))
    } else if m.released {
        (m, vault_balance, payee_balance, Err(ErrorCode::AlreadyReleased))
    } else if m.project != project_addr {
        (m, vault_balance, payee_balance, Err(ErrorCode::InvalidMilestone))
    } else if p.kwh_total < m.kwh_target || p.co2_total < m.co2_target {
        (m, vault_balance, payee_balance, Err(ErrorCode::MetricThresholdNotMet))
    } else if vault_balance < m.amount_lamports {
        (m, vault_balance, payee_balance, Err(ErrorCode::InsufficientFunds))
    } else if payee_balance + m.amount_lamports > u64::MAX {
        (m, vault_balance, payee_balance, Err(ErrorCode::NumericalOverflow))
    } else {
        (
            Milestone { released: true, ..m },
            (vault_balance - m.amount_lamports) as u64,
            (payee_balance + m.amount_lamports) as u64,
            Ok(
                MilestoneReleased {
                    project: project_addr,
                    index: m.index,
                    amount: m.amount_lamports,
                    payee: m.payee,
                },
            ),
        )
    }
}

/// Release a milestone's payout from the vault to the payee, exactly once.
///
/// Requires the caller to be the project's governance authority,
/// cryptographically authenticated; the milestone must belong to the
/// project, be unreleased, and both cumulative metric totals must meet its
/// targets; the vault must hold at least the payout.  On success both legs
/// of the transfer commit together: the vault is debited and the payee
/// credited by exactly the payout amount, and the milestone is marked
/// released.  On failure nothing changes.
pub fn release_milestone(
    project: &Project,
    milestone: &mut Milestone,
    vault_balance: &mut u64,
    payee_balance: &mut u64,
    project_addr: Ident,
    governance_authority: Ident,
    governance_signed: bool,
) -> (r: Result<MilestoneReleased, ErrorCode>)
    ensures
        *final(milestone) == release_milestone_spec(
            project@,
            *old(milestone),
            project_addr,
            governance_authority,
            governance_signed,
            *old(vault_balance),
            *old(payee_balance),
        ).0,
        *final(vault_balance) == release_milestone_spec(
            project@,
            *old(milestone),
            project_addr,
            governance_authority,
            governance_signed,
            *old(vault_balance),
            *old(payee_balance),
        ).1,
        *final(payee_balance) == release_milestone_spec(
            project@,
            *old(milestone),
            project_addr,
            governance_authority,
            governance_signed,
            *old(vault_balance),
            *old(payee_balance),
        ).2,
        r == release_milestone_spec(
            project@,
            *old(milestone),
            project_addr,
            governance_authority,
            governance_signed,
            *old(vault_balance),
            *old(payee_balance),
        ).3,
        !governance_signed || governance_authority != project.governance_authority ==> r == Err::<
            MilestoneReleased,
            ErrorCode,
        >(ErrorCode::Unauthorized),
        r == Err::<MilestoneReleased, ErrorCode>(ErrorCode::MetricThresholdNotMet)
            <==> governance_signed && governance_authority == project.governance_authority
            && !old(milestone).released && old(milestone).project == project_addr && !(
        project.kwh_total >= old(milestone).kwh_target && project.co2_total >= old(
            milestone,
        ).co2_target),
        r is Ok ==> *final(vault_balance) == *old(vault_balance) - old(milestone).amount_lamports
            && *final(payee_balance) == *old(payee_balance) + old(milestone).amount_lamports
            && final(milestone).released,
        r is Err ==> *final(milestone) == *old(milestone) && *final(vault_balance) == *old(
            vault_balance,
        ) && *final(payee_balance) == *old(payee_balance),
{
    if !governance_signed {
        return Err(ErrorCode::Unauthorized);
    }
    if !(governance_authority == project.governance_authority) {
        return Err(ErrorCode::Unauthorized);
    }
    if milestone.released {
        return Err(ErrorCode::AlreadyReleased);
    }
    if !(milestone.project == project_addr) {
        return Err(ErrorCode::InvalidMilestone);
    }
    if project.kwh_total < milestone.kwh_target {
        return Err(ErrorCode::MetricThresholdNotMet);
    }
    if project.co2_total < milestone.co2_target {
        return Err(ErrorCode::MetricThresholdNotMet);
    }
    if *vault_balance < milestone.amount_lamports {
        return Err(ErrorCode::InsufficientFunds);
    }
    if milestone.amount_lamports > u64::MAX - *payee_balance {
        return Err(ErrorCode::NumericalOverflow);
    }
    *vault_balance = *vault_balance - milestone.amount_lamports;
    *payee_balance = *payee_balance + milestone.amount_lamports;
    milestone.released = true;
    Ok(
        MilestoneReleased {
            project: project_addr,
            index: milestone.index,
            amount: milestone.amount_lamports,
            payee: milestone.payee,
        },
    )
}

/// Law: releasing is idempotent in effect.  Where a release succeeds, a
/// second release of the same milestone against the same project fails with
/// `AlreadyReleased` and changes neither the milestone nor any balance, so
/// the vault balance drops by the payout amount exactly once.
pub proof fn lemma_release_milestone_idempotent(
    p: ProjectV,
    m: Milestone,
    project_addr: Ident,
    governance_authority: Ident,
    vault_balance: u64,
    payee_balance: u64,
)
    requires
        release_milestone_spec(
            p,
            m,
            project_addr,
            governance_authority,
            true,
            vault_balance,
            payee_balance,
        ).3 is Ok,
    ensures
        ({
            let first = release_milestone_spec(
                p,
                m,
                project_addr,
                governance_authority,
                true,
                vault_balance,
                payee_balance,
            );
            let second = release_milestone_spec(
                p,
                first.0,
                project_addr,
                governance_authority,
                true,
                first.1,
                first.2,
            );
            &&& second.3 == Err::<MilestoneReleased, ErrorCode>(ErrorCode::AlreadyReleased)
            &&& second.0 == first.0
            &&& second.1 == first.1
            &&& second.2 == first.2
            &&& first.1 == vault_balance - m.amount_lamports
        }),
{
}

/// Law: a release never lifts the vault balance above the cumulative funded
/// amount.  Funding establishes the bound and a release only debits the
/// vault, so funds available for release never exceed what was transferred
/// in.
pub proof fn lemma_release_preserves_vault_bound(
    p: ProjectV,
    m: Milestone,
    project_addr: Ident,
    governance_authority: Ident,
    governance_signed: bool,
    vault_balance: u64,
    payee_balance: u64,
)
    requires
        vault_balance <= p.funded_amount,
    ensures
        release_milestone_spec(
            p,
            m,
            project_addr,
            governance_authority,
            governance_signed,
            vault_balance,
            payee_balance,
        ).1 <= p.funded_amount,
{
}

} // verus!
