//! Projects and their custody vaults: creation, funding, metric ingest and
//! authority rotation.
//!
//! A vault's balance is held by the record store, not by the project record,
//! so operations that move value take the balance as a plain cell and state
//! how it changes.  Each operation's outcome is fixed by a specification
//! transition function; the executable function is proved to agree with it.

use vstd::prelude::*;
use crate::errors::ErrorCode;
use crate::events::{MetricsUpdated, ProjectFunded};
use crate::ident::{Hash32, Ident};
use crate::registry::State;

verus! {

/// Byte cap on a project name.
pub const MAX_NAME_LEN: usize = 64;

/// Byte cap on a project description.
pub const MAX_DESCRIPTION_LEN: usize = 256;

/// Custody sub-account scoped to one project.  Its balance lives in the
/// record store; the record itself only keeps the derivation nonce.
#[derive(Clone, Copy, PartialEq, Eq, Structural, Debug)]
pub struct Vault {
    pub bump: u8,
}

/// A funded initiative: identities, cumulative totals and the address of its
/// paired vault.
#[derive(Clone, Debug)]
pub struct Project {
    pub id: u64,
    pub name: Vec<u8>,
    pub description: Vec<u8>,
    pub creator: Ident,
    pub governance_authority: Ident,
    pub oracle_authority: Ident,
    pub vault: Ident,
    pub vault_bump: u8,
    pub funded_amount: u64,
    pub kwh_total: u64,
    pub co2_total: u64,
    pub last_metrics_root: Hash32,
    pub num_milestones: u8,
}

/// The mathematical value of a `Project`: the same fields with the byte
/// strings abstracted to sequences.
pub struct ProjectV {
    pub id: u64,
    pub name: Seq<u8>,
    pub description: Seq<u8>,
    pub creator: Ident,
    pub governance_authority: Ident,
    pub oracle_authority: Ident,
    pub vault: Ident,
    pub vault_bump: u8,
    pub funded_amount: u64,
    pub kwh_total: u64,
    pub co2_total: u64,
    pub last_metrics_root: Hash32,
    pub num_milestones: u8,
}

impl ProjectV {
    /// Well-formedness: the byte strings respect their caps.  Creation
    /// establishes this and no operation touches the strings afterwards.
    pub open spec fn wf(self) -> bool {
        self.name.len() <= MAX_NAME_LEN && self.description.len() <= MAX_DESCRIPTION_LEN
    }
}

impl View for Project {
    type V = ProjectV;

    open spec fn view(&self) -> ProjectV {
        ProjectV {
            id: self.id,
            name: self.name@,
            description: self.description@,
            creator: self.creator,
            governance_authority: self.governance_authority,
            oracle_authority: self.oracle_authority,
            vault: self.vault,
            vault_bump: self.vault_bump,
            funded_amount: self.funded_amount,
            kwh_total: self.kwh_total,
            co2_total: self.co2_total,
            last_metrics_root: self.last_metrics_root,
            num_milestones: self.num_milestones,
        }
    }
}

/// A `Result` carrying a new `Project`, abstracted to its view.
pub open spec fn project_result_view(r: Result<Project, ErrorCode>) -> Result<ProjectV, ErrorCode> {
    match r {
        Ok(p) => Ok(p@),
        Err(e) => Err(e),
    }
}

/// Outcome of `create_project`: the registry after the call and either the
/// new project's value or the error.
pub open spec fn create_project_spec(
    s: State,
    creator: Ident,
    name: Seq<u8>,
    description: Seq<u8>,
    governance_authority: Ident,
    oracle_authority: Ident,
    vault: Ident,
    vault_bump: u8,
) -> (State, Result<ProjectV, ErrorCode>) {
    if name.len() > MAX_NAME_LEN || description.len() > MAX_DESCRIPTION_LEN {
        (s, Err(ErrorCode::StringTooLong))
    } else if s.project_count == u64::MAX {
        (s, Err(ErrorCode::NumericalOverflow))
    } else {
        let id = (s.project_count + 1) as u64;
        (
            State { project_count: id, ..s },
            Ok(
                ProjectV {
                    id,
                    name,
                    description,
                    creator,
                    governance_authority,
                    oracle_authority,
                    vault,
                    vault_bump,
                    funded_amount: 0,
                    kwh_total: 0,
                    co2_total: 0,
                    last_metrics_root: Hash32::spec_zero(),
                    num_milestones: 0,
                },
            ),
        )
    }
}

/// Create a new project record and advance the registry counter.
///
/// The record store has already derived the project and vault addresses and
/// checked that `creator` signed; the new `Project` and the vault record are
/// persisted by the caller on success.  No funds move here.
pub fn create_project(
    state: &mut State,
    creator: Ident,
    name: Vec<u8>,
    description: Vec<u8>,
    governance_authority: Ident,
    oracle_authority: Ident,
    vault: Ident,
    vault_bump: u8,
) -> (r: Result<Project, ErrorCode>)
    ensures
        *final(state) == create_project_spec(
            *old(state),
            creator,
            name@,
            description@,
            governance_authority,
            oracle_authority,
            vault,
            vault_bump,
        ).0,
        project_result_view(r) == create_project_spec(
            *old(state),
            creator,
            name@,
            description@,
            governance_authority,
            oracle_authority,
            vault,
            vault_bump,
        ).1,
        r == Err::<Project, ErrorCode>(ErrorCode::StringTooLong) <==> name@.len() > MAX_NAME_LEN
            || description@.len() > MAX_DESCRIPTION_LEN,
        r matches Ok(p) ==> p@.wf(),
        final(state).project_count >= old(state).project_count,
        final(state).authority == old(state).authority,
        r is Err ==> *final(state) == *old(state),
{
    if name.len() > MAX_NAME_LEN || description.len() > MAX_DESCRIPTION_LEN {
        return Err(ErrorCode::StringTooLong);
    }
    if state.project_count == u64::MAX {
        return Err(ErrorCode::NumericalOverflow);
    }
    state.project_count = state.project_count + 1;
    Ok(
        Project {
            id: state.project_count,
            name,
            description,
            creator,
            governance_authority,
            oracle_authority,
            vault,
            vault_bump,
            funded_amount: 0,
            kwh_total: 0,
            co2_total: 0,
            last_metrics_root: Hash32::zero(),
            num_milestones: 0,
        },
    )
}

/// Outcome of `fund_project`: the project and vault balance after the call,
/// and either the funding event or the error.
pub open spec fn fund_project_spec(
    p: ProjectV,
    vault_balance: u64,
    project_addr: Ident,
    funder: Ident,
    amount: u64,
) -> (ProjectV, u64, Result<ProjectFunded, ErrorCode>) {
    if amount == 0 {
        (p, vault_balance, Err(ErrorCode::InvalidAmount))
    } else if p.funded_amount + amount > u64::MAX {
        (p, vault_balance, Err(ErrorCode::NumericalOverflow))
    } else {
        (
            ProjectV { funded_amount: (p.funded_amount + amount) as u64, ..p },
            (vault_balance + amount) as u64,
            Ok(ProjectFunded { project: project_addr, funder, amount }),
        )
    }
}

/// Fund a project: move `amount` from the funder to the project's vault and
/// count it in `funded_amount`.  This is the only path that increases a
/// vault balance.
///
/// `vault_balance` is the vault's balance cell in the record store; the
/// funder's debit is the ledger-transfer primitive's side and is committed
/// by the environment together with this credit.
pub fn fund_project(
    project: &mut Project,
    vault_balance: &mut u64,
    project_addr: Ident,
    funder: Ident,
    amount: u64,
) -> (r: Result<ProjectFunded, ErrorCode>)
    requires
        *old(vault_balance) <= old(project).funded_amount,
    ensures
        final(project)@ == fund_project_spec(
            old(project)@,
            *old(vault_balance),
            project_addr,
            funder,
            amount,
        ).0,
        *final(vault_balance) == fund_project_spec(
            old(project)@,
            *old(vault_balance),
            project_addr,
            funder,
            amount,
        ).1,
        r == fund_project_spec(
            old(project)@,
            *old(vault_balance),
            project_addr,
            funder,
            amount,
        ).2,
        *final(vault_balance) <= final(project).funded_amount,
        final(project).funded_amount >= old(project).funded_amount,
        old(project)@.wf() ==> final(project)@.wf(),
        r == Err::<ProjectFunded, ErrorCode>(ErrorCode::NumericalOverflow) <==> amount > 0 && old(
            project,
        ).funded_amount + amount > u64::MAX,
        r is Err ==> final(project)@ == old(project)@ && *final(vault_balance) == *old(
            vault_balance,
        ),
{
    if amount == 0 {
        return Err(ErrorCode::InvalidAmount);
    }
    if amount > u64::MAX - project.funded_amount {
        return Err(ErrorCode::NumericalOverflow);
    }
    project.funded_amount = project.funded_amount + amount;
    *vault_balance = *vault_balance + amount;
    Ok(ProjectFunded { project: project_addr, funder, amount })
}

/// Outcome of `submit_metrics`: the project after the call and either the
/// metrics event or the error.
pub open spec fn submit_metrics_spec(
    p: ProjectV,
    project_addr: Ident,
    oracle_authority: Ident,
    kwh_delta: u64,
    co2_delta: u64,
    new_root: Option<Hash32>,
) -> (ProjectV, Result<MetricsUpdated, ErrorCode>) {
    if oracle_authority != p.oracle_authority {
        (p, Err(ErrorCode::Unauthorized))
    } else if p.kwh_total + kwh_delta > u64::MAX || p.co2_total + co2_delta > u64::MAX {
        (p, Err(ErrorCode::NumericalOverflow))
    } else {
        let kwh_total = (p.kwh_total + kwh_delta) as u64;
        let co2_total = (p.co2_total + co2_delta) as u64;
        let root = match new_root {
            Some(root) => root,
            None => p.last_metrics_root,
        };
        (
            ProjectV { kwh_total, co2_total, last_metrics_root: root, ..p },
            Ok(MetricsUpdated { project: project_addr, kwh_total, co2_total }),
        )
    }
}

/// Advance a project's cumulative metric totals by the oracle's deltas and,
/// when one is supplied, replace the stored integrity anchor wholesale.
///
/// Only the project's recorded oracle authority may call this; the record
/// store has already checked its signature.
pub fn submit_metrics(
    project: &mut Project,
    project_addr: Ident,
    oracle_authority: Ident,
    kwh_delta: u64,
    co2_delta: u64,
    new_root: Option<Hash32>,
) -> (r: Result<MetricsUpdated, ErrorCode>)
    ensures
        final(project)@ == submit_metrics_spec(
            old(project)@,
            project_addr,
            oracle_authority,
            kwh_delta,
            co2_delta,
            new_root,
        ).0,
        r == submit_metrics_spec(
            old(project)@,
            project_addr,
            oracle_authority,
            kwh_delta,
            co2_delta,
            new_root,
        ).1,
        oracle_authority != old(project).oracle_authority ==> r == Err::<
            MetricsUpdated,
            ErrorCode,
        >(ErrorCode::Unauthorized),
        r == Err::<MetricsUpdated, ErrorCode>(ErrorCode::NumericalOverflow) <==> oracle_authority
            == old(project).oracle_authority && (old(project).kwh_total + kwh_delta > u64::MAX
            || old(project).co2_total + co2_delta > u64::MAX),
        final(project).kwh_total >= old(project).kwh_total,
        final(project).co2_total >= old(project).co2_total,
        old(project)@.wf() ==> final(project)@.wf(),
        r is Err ==> final(project)@ == old(project)@,
{
    if !(oracle_authority == project.oracle_authority) {
        return Err(ErrorCode::Unauthorized);
    }
    if kwh_delta > u64::MAX - project.kwh_total {
        return Err(ErrorCode::NumericalOverflow);
    }
    if co2_delta > u64::MAX - project.co2_total {
        return Err(ErrorCode::NumericalOverflow);
    }
    project.kwh_total = project.kwh_total + kwh_delta;
    project.co2_total = project.co2_total + co2_delta;
    if let Some(root) = new_root {
        project.last_metrics_root = root;
    }
    Ok(
        MetricsUpdated {
            project: project_addr,
            kwh_total: project.kwh_total,
            co2_total: project.co2_total,
        },
    )
}

/// The project and vault balance after a whole sequence of funding
/// attempts, applied first to last.
pub open spec fn run_funding(
    p: ProjectV,
    vault_balance: u64,
    project_addr: Ident,
    funder: Ident,
    amounts: Seq<u64>,
) -> (ProjectV, u64)
    decreases amounts.len(),
{
    if amounts.len() == 0 {
        (p, vault_balance)
    } else {
        let step = fund_project_spec(p, vault_balance, project_addr, funder, amounts[0]);
        run_funding(step.0, step.1, project_addr, funder, amounts.subrange(1, amounts.len() as int))
    }
}

/// The sum of the amounts in a funding sequence that succeed, given the
/// cumulative funded amount the sequence starts from: an attempt fails,
/// and is not counted, where its amount is zero or the running total would
/// wrap.
pub open spec fn accepted_funding_sum(funded_amount: u64, amounts: Seq<u64>) -> int
    decreases amounts.len(),
{
    if amounts.len() == 0 {
        0
    } else {
        let a = amounts[0];
        let rest = amounts.subrange(1, amounts.len() as int);
        if 0 < a && funded_amount + a <= u64::MAX {
            a + accepted_funding_sum((funded_amount + a) as u64, rest)
        } else {
            accepted_funding_sum(funded_amount, rest)
        }
    }
}

/// Law: over any funding sequence, the project's `funded_amount` grows by
/// exactly the sum of the successful amounts, the vault balance grows by
/// that same sum, the vault balance never exceeds `funded_amount`, and no
/// other field of the project changes.
pub proof fn lemma_funded_amount_is_sum(
    p: ProjectV,
    vault_balance: u64,
    project_addr: Ident,
    funder: Ident,
    amounts: Seq<u64>,
)
    requires
        vault_balance <= p.funded_amount,
    ensures
        ({
            let (p2, v2) = run_funding(p, vault_balance, project_addr, funder, amounts);
            &&& p2.funded_amount == p.funded_amount + accepted_funding_sum(
                p.funded_amount,
                amounts,
            )
            &&& v2 == vault_balance + accepted_funding_sum(p.funded_amount, amounts)
            &&& v2 <= p2.funded_amount
            &&& p2 == (ProjectV { funded_amount: p2.funded_amount, ..p })
        }),
    decreases amounts.len(),
{
    if amounts.len() == 0 {
    } else {
        let step = fund_project_spec(p, vault_balance, project_addr, funder, amounts[0]);
        lemma_funded_amount_is_sum(
            step.0,
            step.1,
            project_addr,
            funder,
            amounts.subrange(1, amounts.len() as int),
        );
    }
}

/// Replace a project's governance authority.  Only the current governance
/// authority, cryptographically authenticated, may rotate itself; no funds
/// move.
pub fn set_project_authority(
    project: &mut Project,
    current_governance_authority: Ident,
    current_signed: bool,
    new_governance_authority: Ident,
) -> (r: Result<(), ErrorCode>)
    ensures
        r is Ok <==> current_signed && current_governance_authority == old(
            project,
        ).governance_authority,
        r is Ok ==> final(project)@ == (ProjectV {
            governance_authority: new_governance_authority,
            ..old(project)@
        }),
        r is Err ==> r == Err::<(), ErrorCode>(ErrorCode::Unauthorized) && final(project)@ == old(
            project,
        )@,
        old(project)@.wf() ==> final(project)@.wf(),
{
    if !current_signed {
        return Err(ErrorCode::Unauthorized);
    }
    if !(current_governance_authority == project.governance_authority) {
        return Err(ErrorCode::Unauthorized);
    }
    project.governance_authority = new_governance_authority;
    Ok(())
}

} // verus!
