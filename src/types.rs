use vstd::prelude::*;

verus! {

/// A 32-byte identity handle of a party.
#[derive(Clone, Copy, Debug)]
pub struct Pubkey(pub [u8; 32]);

impl PartialEq for Pubkey {
    fn eq(&self, other: &Pubkey) -> (r: bool) {
        let mut i: usize = 0;
        while i < 32
            invariant
                i <= 32,
                forall|j: int| 0 <= j < i ==> self.0@[j] == other.0@[j],
            decreases 32 - i,
        {
            if self.0[i] != other.0[i] {
                return false;
            }
            i = i + 1;
        }
        assert(self.0@ =~= other.0@);
        true
    }
}

impl vstd::std_specs::cmp::PartialEqSpecImpl for Pubkey {
    open spec fn obeys_eq_spec() -> bool {
        true
    }

    open spec fn eq_spec(&self, other: &Pubkey) -> bool {
        self.0@ == other.0@
    }
}

/// Lifecycle state of a channel. `Closed` is terminal.
#[derive(Clone, Copy, Debug, PartialEq, Eq, Structural)]
pub enum ChannelStatus {
    Active,
    Closing,
    Closed,
    Disputed,
}

/// Every way a channel operation can be rejected. A rejected operation
/// changes nothing.
#[derive(Clone, Copy, Debug, PartialEq, Eq, Structural)]
pub enum ChannelError {
    InvalidDeposit,
    InvalidDuration,
    ChannelNotActive,
    ChannelExpired,
    InvalidAmount,
    InsufficientBalance,
    InvalidSequence,
    InvalidBalance,
    ChannelNotCloseable,
    NotInChallengePeriod,
    ChallengePeriodExpired,
    ChallengePeriodNotExpired,
    DisputeNotOpen,
    Unauthorized,
    InvalidSignature,
    DuplicateChannel,
    NotFound,
}

#[derive(Clone, Copy, Debug, PartialEq, Eq, Structural)]
pub enum ServiceType {
    DataTransfer,
    VoiceCall,
    VideoStream,
    WebBrowsing,
    FileDownload,
}

/// Opaque description of the service a payment pays for.
#[derive(Clone, Copy, Debug, PartialEq, Eq, Structural)]
pub struct ServiceData {
    pub service_type: ServiceType,
    /// Bytes transferred.
    pub data_amount: u64,
    /// Quality score, 0 to 100.
    pub quality_score: u8,
    /// Seconds of service.
    pub duration: u32,
}

/// Immutable record of one accepted payment.
#[derive(Clone, Copy, Debug, PartialEq, Eq, Structural)]
pub struct Payment {
    pub amount: u64,
    pub service_data: ServiceData,
    pub timestamp: i64,
    pub sequence_number: u64,
}

#[derive(Clone, Copy, Debug, PartialEq, Eq, Structural)]
pub enum EvidenceType {
    ServiceLog,
    QualityMeasurement,
    NetworkTrace,
    UserComplaint,
}

#[derive(Clone, Debug)]
pub struct DisputeEvidence {
    pub evidence_type: EvidenceType,
    pub description: String,
    pub data_hash: [u8; 32],
    pub timestamp: i64,
}

#[derive(Clone, Copy, Debug, PartialEq, Eq, Structural)]
pub enum DisputeOutcome {
    /// The whole disputed amount goes back to the payer.
    FavorUser,
    /// The payment stands.
    FavorOperator,
    /// Half of the disputed amount (rounded down) goes back to the payer.
    PartialRefund,
}

#[derive(Clone, Debug)]
pub struct DisputeResolution {
    pub outcome: DisputeOutcome,
    pub amount: u64,
    pub reasoning: String,
}

#[derive(Clone, Copy, Debug, PartialEq, Eq, Structural)]
pub enum DisputeStatus {
    Open,
    Resolved,
}

/// A contested payment of one channel, settled by the arbitration authority.
#[derive(Debug)]
pub struct Dispute {
    /// Sequence number of the contested payment.
    pub disputed_payment: u64,
    pub evidence: DisputeEvidence,
    pub status: DisputeStatus,
    pub created_at: i64,
    pub resolution: Option<DisputeResolution>,
}

/// Final payout of a settled channel: what escrow pays to each party.
#[derive(Clone, Copy, Debug, PartialEq, Eq, Structural)]
pub struct Settlement {
    pub to_user: u64,
    pub to_node_operator: u64,
}

} // verus!
