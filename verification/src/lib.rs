//! Task marketplace core: agents, tasks, escrow-backed settlement and
//! reputation scoring.
//!
//! A requester creates a task and escrows its budget; an eligible agent
//! accepts it, works, and submits a result; the requester approves, which
//! pays the agent out of the escrow and raises its score, or rejects, which
//! opens a dispute and lowers it. The operations work on plain records and
//! hand back, beside the changed records, the event of their outcome and the
//! transfer that is due. Every operation names the party that must sign it
//! and turns another signer away. Carrying out the transfer, storing the
//! records and proving that the signer controls its identity are the host's
//! part.

pub mod agent;
pub mod clock;
pub mod error;
pub mod events;
pub mod identity;
pub mod laws;
pub mod lifecycle;
pub mod reputation;
pub mod settlement;
pub mod task;
