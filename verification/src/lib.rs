//! Milestone-gated escrow ledger.
//!
//! Third parties deposit value into a project-scoped custody vault, an
//! oracle authority attests real-world progress metrics, and a governance
//! authority releases custody funds to a payee once the attested metrics
//! cross a milestone's thresholds.  A separate subsystem tracks versioned
//! upgrades of the escrow logic itself, gated by an in-progress flag and an
//! approval quorum.
//!
//! The surrounding environment supplies authenticated principal identities,
//! record storage at derived addresses, and the ledger-transfer primitive.
//! Each operation here is the committed effect of one atomic transaction:
//! it takes the records it touches as plain values, decides, and either
//! applies the full state change and reports an event, or changes nothing
//! and reports exactly one error.

pub mod errors;
pub mod escrow;
pub mod events;
pub mod ident;
pub mod milestone;
pub mod participant;
pub mod project;
pub mod registry;
pub mod upgrade;
