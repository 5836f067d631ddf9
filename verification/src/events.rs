//! Structured event records.  An operation returns its event on success;
//! the environment's event sink forwards it only after the commit.

use vstd::prelude::*;
use crate::ident::Ident;

verus! {

/// Value entered a project's vault.
#[derive(Clone, Copy, PartialEq, Eq, Structural, Debug)]
pub struct ProjectFunded {
    pub project: Ident,
    pub funder: Ident,
    pub amount: u64,
}

/// A project's cumulative metric totals advanced.
#[derive(Clone, Copy, PartialEq, Eq, Structural, Debug)]
pub struct MetricsUpdated {
    pub project: Ident,
    pub kwh_total: u64,
    pub co2_total: u64,
}

/// A milestone's payout left the vault for its payee.
#[derive(Clone, Copy, PartialEq, Eq, Structural, Debug)]
pub struct MilestoneReleased {
    pub project: Ident,
    pub index: u8,
    pub amount: u64,
    pub payee: Ident,
}

} // verus!
