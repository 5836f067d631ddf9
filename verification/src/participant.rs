//! Participants of an escrow contract, their roles and standing.

use vstd::prelude::*;
use crate::ident::Ident;

verus! {

/// A participant's role in an escrow contract.
#[derive(Clone, Copy, PartialEq, Eq, Structural, Debug)]
pub enum ParticipantRole {
    /// Contract creator.
    Client,
    /// Project executor.
    Freelancer,
    /// Dispute arbiter.
    Arbiter,
    /// Funder.
    Funder,
}

impl Default for ParticipantRole {
    fn default() -> (r: Self)
        ensures
            r == ParticipantRole::Funder,
    {
        ParticipantRole::Funder
    }
}

/// A participant's standing in the contract.
#[derive(Clone, Copy, PartialEq, Eq, Structural, Debug)]
pub enum ParticipantStatus {
    /// Active participant.
    Active,
    /// Withdrawn from the contract.
    Withdrawn,
    /// Suspended, for instance during a dispute.
    Suspended,
}

impl Default for ParticipantStatus {
    fn default() -> (r: Self)
        ensures
            r == ParticipantStatus::Active,
    {
        ParticipantStatus::Active
    }
}

/// One participant of an escrow contract.
#[derive(Clone, Copy, PartialEq, Eq, Debug)]
pub struct Participant {
    /// Escrow contract reference.
    pub escrow_contract: Ident,
    /// Participant wallet address.
    pub wallet_address: Ident,
    /// Participant role.
    pub role: ParticipantRole,
    /// Participation status.
    pub status: ParticipantStatus,
    /// Amount contributed, for funders.
    pub contributed_amount: u64,
    /// Joined timestamp.
    pub joined_at: i64,
    /// Derivation nonce.
    pub bump: u8,
}

impl Participant {
    /// Whether the participant can contribute funds: an active funder.
    pub fn can_contribute(&self) -> (r: bool)
        ensures
            r == (self.status is Active && self.role is Funder),
    {
        matches!(self.status, ParticipantStatus::Active) && matches!(
            self.role,
            ParticipantRole::Funder,
        )
    }

    /// Whether the participant is active.
    pub fn is_active(&self) -> (r: bool)
        ensures
            r == (self.status is Active),
    {
        matches!(self.status, ParticipantStatus::Active)
    }
}

} // verus!
