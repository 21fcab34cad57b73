//! Micropayment channels: a two-party value-transfer state machine with
//! monotonic sequence numbers, cooperative and unilateral close, a challenge
//! window and dispute arbitration (`channel`, `registry`, `laws`, `digest`),
//! beside the network-settings service of the same platform (`settings`,
//! `controllers`, `middleware`, `services`, `routes`, `platforms`).
pub mod channel;
pub mod controllers;
pub mod digest;
pub mod errors;
pub mod laws;
pub mod middleware;
pub mod platforms;
pub mod registry;
pub mod routes;
pub mod services;
pub mod settings;
pub mod text;
pub mod types;

pub use channel::{Channel, ChannelOp, CHALLENGE_PERIOD};
pub use registry::{ChannelEvent, ChannelRegistry, ChannelState};
pub use types::{
    ChannelError, ChannelStatus, Dispute, DisputeEvidence, DisputeOutcome, DisputeResolution,
    DisputeStatus, EvidenceType, Payment, Pubkey, ServiceData, ServiceType, Settlement,
};
