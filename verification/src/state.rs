//! The persisted records: squads, proposals and vote receipts.

pub mod proposal;
pub mod squad;
pub mod vote;
