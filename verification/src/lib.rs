//! A milestone-based escrow engine for public-works projects.
//!
//! The engine tracks projects, lets each project's owner decompose it into
//! milestones with a funding amount and a required verifier quorum, records
//! independent verifier attestations, and releases funds to a recipient
//! exactly once a milestone reaches quorum.
//!
//! Identity proofs, durable storage and token transfers are external
//! collaborators: every operation takes the identity the host has already
//! authenticated as `caller`, works on the engine's own state, and returns
//! the transfer instruction the host must carry out, if any.

pub mod escrow;
pub mod laws;
pub mod tally;
pub mod types;
