//! The global registry: the singleton root of project numbering.
//!
//! The record store's create-only semantics guarantee that the singleton is
//! created exactly once; a second creation fails there, not here.

use vstd::prelude::*;
use crate::ident::Ident;

verus! {

/// Singleton platform state: the platform authority and the monotonic
/// project counter.
#[derive(Clone, Copy, PartialEq, Eq, Structural, Debug)]
pub struct State {
    pub authority: Ident,
    pub project_count: u64,
}

/// Create the singleton platform state: records the platform authority and
/// zeroes the project counter.
pub fn initialize(authority: Ident) -> (s: State)
    ensures
        s.authority == authority,
        s.project_count == 0,
{
    State { authority, project_count: 0 }
}

} // verus!
