use vstd::prelude::*;

use crate::types::{ChannelError, ChannelStatus, DisputeOutcome, Payment, Pubkey, ServiceData, Settlement};

verus! {

/// Challenge window, in seconds, given to every channel at creation.
pub const CHALLENGE_PERIOD: i64 = 3600;

/// A payment channel between a payer (`user`) and a provider (`node_operator`).
pub struct Channel {
    pub channel_id: String,
    pub user: Pubkey,
    pub node_operator: Pubkey,
    pub initial_deposit: u64,
    /// Value still owed back to the payer.
    pub current_balance: u64,
    /// Value earned by the provider so far.
    pub total_spent: u64,
    pub created_at: i64,
    pub expires_at: i64,
    pub status: ChannelStatus,
    pub sequence_number: u64,
    pub challenge_period: i64,
    /// Deadline for challenges; set when a unilateral close starts.
    pub challenge_expires_at: Option<i64>,
    pub last_update: i64,
}

/// The state-changing operations of a channel, with the inputs that decide
/// their outcome. A `signature_valid` flag is the verdict of the signature
/// verifier on the signature that came with the call.
pub enum ChannelOp {
    Pay { amount: u64, signature_valid: bool },
    Update { new_balance: u64, sequence_number: u64, signature_valid: bool },
    /// `Some(valid)` when a joint final signature was presented.
    Close { final_signature: Option<bool> },
    Challenge { sequence_number: u64, balance: u64, signature_valid: bool },
    Finalize,
    Dispute,
    Resolve { outcome: DisputeOutcome, amount: u64 },
}

/// What a dispute outcome returns to the payer.
pub open spec fn refund_of(outcome: DisputeOutcome, amount: u64) -> u64 {
    match outcome {
        DisputeOutcome::FavorUser => amount,
        DisputeOutcome::FavorOperator => 0,
        DisputeOutcome::PartialRefund => amount / 2,
    }
}

impl Channel {
    /// The channel invariant: value is conserved, the deposit is positive, and
    /// a closing channel has a challenge deadline.
    pub open spec fn wf(&self) -> bool {
        &&& self.current_balance + self.total_spent == self.initial_deposit
        &&& self.initial_deposit > 0
        &&& self.challenge_period == CHALLENGE_PERIOD
        &&& self.status == ChannelStatus::Closing ==> self.challenge_expires_at is Some
    }

    /// Closing deadline of a channel that is closing.
    pub open spec fn deadline(&self) -> i64 {
        self.challenge_expires_at.unwrap()
    }

    pub open spec fn with_status(self, status: ChannelStatus) -> Channel {
        Channel { status, ..self }
    }

    /// The state after a payment of `amount`.
    pub open spec fn paid(self, amount: u64, now: i64) -> Channel {
        Channel {
            current_balance: (self.current_balance - amount) as u64,
            total_spent: (self.total_spent + amount) as u64,
            sequence_number: (self.sequence_number + 1) as u64,
            last_update: now,
            ..self
        }
    }

    /// The state after adopting the signed balance `balance` at `sequence_number`.
    pub open spec fn rebalanced(self, balance: u64, sequence_number: u64) -> Channel {
        Channel {
            current_balance: balance,
            total_spent: (self.initial_deposit - balance) as u64,
            sequence_number,
            ..self
        }
    }

    /// The state after a dispute was settled with `outcome` over `amount`.
    pub open spec fn refunded(self, outcome: DisputeOutcome, amount: u64) -> Channel {
        Channel {
            current_balance: (self.current_balance + refund_of(outcome, amount)) as u64,
            total_spent: (self.total_spent - refund_of(outcome, amount)) as u64,
            status: ChannelStatus::Active,
            ..self
        }
    }

    /// The outcome of applying `op` at time `now`: the new state, or the
    /// error with which the operation is rejected. Guards are tested in the
    /// order written.
    pub open spec fn step(self, op: ChannelOp, now: i64) -> Result<Channel, ChannelError> {
        match op {
            ChannelOp::Pay { amount, signature_valid } => {
                if self.status != ChannelStatus::Active {
                    Err(ChannelError::ChannelNotActive)
                } else if now >= self.expires_at {
                    Err(ChannelError::ChannelExpired)
                } else if amount == 0 {
                    Err(ChannelError::InvalidAmount)
                } else if self.current_balance < amount {
                    Err(ChannelError::InsufficientBalance)
                } else if self.sequence_number == u64::MAX {
                    Err(ChannelError::InvalidSequence)
                } else if !signature_valid {
                    Err(ChannelError::InvalidSignature)
                } else {
                    Ok(self.paid(amount, now))
                }
            },
            ChannelOp::Update { new_balance, sequence_number, signature_valid } => {
                if self.status != ChannelStatus::Active {
                    Err(ChannelError::ChannelNotActive)
                } else if sequence_number <= self.sequence_number {
                    Err(ChannelError::InvalidSequence)
                } else if new_balance > self.initial_deposit {
                    Err(ChannelError::InvalidBalance)
                } else if !signature_valid {
                    Err(ChannelError::InvalidSignature)
                } else {
                    Ok(Channel { last_update: now, ..self.rebalanced(new_balance, sequence_number) })
                }
            },
            ChannelOp::Close { final_signature } => {
                if self.status != ChannelStatus::Active && self.status != ChannelStatus::Disputed {
                    Err(ChannelError::ChannelNotCloseable)
                } else {
                    match final_signature {
                        Some(valid) => {
                            if valid {
                                Ok(self.with_status(ChannelStatus::Closed))
                            } else {
                                Err(ChannelError::InvalidSignature)
                            }
                        },
                        None => Ok(
                            Channel {
                                status: ChannelStatus::Closing,
                                challenge_expires_at: Some((now + self.challenge_period) as i64),
                                ..self
                            },
                        ),
                    }
                }
            },
            ChannelOp::Challenge { sequence_number, balance, signature_valid } => {
                if self.status != ChannelStatus::Closing {
                    Err(ChannelError::NotInChallengePeriod)
                } else if now >= self.deadline() {
                    Err(ChannelError::ChallengePeriodExpired)
                } else if sequence_number <= self.sequence_number {
                    Err(ChannelError::InvalidSequence)
                } else if balance > self.initial_deposit {
                    Err(ChannelError::InvalidBalance)
                } else if !signature_valid {
                    Err(ChannelError::InvalidSignature)
                } else {
                    Ok(self.rebalanced(balance, sequence_number))
                }
            },
            ChannelOp::Finalize => {
                if self.status != ChannelStatus::Closing {
                    Err(ChannelError::NotInChallengePeriod)
                } else if now < self.deadline() {
                    Err(ChannelError::ChallengePeriodNotExpired)
                } else {
                    Ok(self.with_status(ChannelStatus::Closed))
                }
            },
            ChannelOp::Dispute => {
                if self.status != ChannelStatus::Active {
                    Err(ChannelError::ChannelNotActive)
                } else {
                    Ok(self.with_status(ChannelStatus::Disputed))
                }
            },
            ChannelOp::Resolve { outcome, amount } => {
                if self.status != ChannelStatus::Disputed {
                    Err(ChannelError::DisputeNotOpen)
                } else if amount > self.total_spent {
                    Err(ChannelError::InvalidAmount)
                } else {
                    Ok(self.refunded(outcome, amount))
                }
            },
        }
    }

    /// The payout of a channel that settles now.
    pub open spec fn settlement(&self) -> Settlement {
        Settlement { to_user: self.current_balance, to_node_operator: self.total_spent }
    }

    /// A fresh active channel holding `initial_deposit`, expiring `duration`
    /// seconds after `now`.
    pub open spec fn opened(
        channel_id: String,
        user: Pubkey,
        node_operator: Pubkey,
        initial_deposit: u64,
        duration: i64,
        now: i64,
    ) -> Channel {
        Channel {
            channel_id,
            user,
            node_operator,
            initial_deposit,
            current_balance: initial_deposit,
            total_spent: 0,
            created_at: now,
            expires_at: (now + duration) as i64,
            status: ChannelStatus::Active,
            sequence_number: 0,
            challenge_period: CHALLENGE_PERIOD,
            challenge_expires_at: None,
            last_update: now,
        }
    }

    /// A copy of this channel.
    pub fn snapshot(&self) -> (r: Channel)
        ensures
            r == *self,
    {
        Channel {
            channel_id: self.channel_id.clone(),
            user: self.user,
            node_operator: self.node_operator,
            initial_deposit: self.initial_deposit,
            current_balance: self.current_balance,
            total_spent: self.total_spent,
            created_at: self.created_at,
            expires_at: self.expires_at,
            status: self.status,
            sequence_number: self.sequence_number,
            challenge_period: self.challenge_period,
            challenge_expires_at: self.challenge_expires_at,
            last_update: self.last_update,
        }
    }

    /// Opens a channel of `initial_deposit` that expires `duration` seconds
    /// after `now`.
    pub fn new(
        channel_id: String,
        user: Pubkey,
        node_operator: Pubkey,
        initial_deposit: u64,
        duration: i64,
        now: i64,
    ) -> (r: Result<Channel, ChannelError>)
        requires
            now + duration <= i64::MAX,
        ensures
            initial_deposit == 0 ==> r == Err::<Channel, ChannelError>(ChannelError::InvalidDeposit),
            initial_deposit > 0 && duration <= 0 ==> r == Err::<Channel, ChannelError>(
                ChannelError::InvalidDuration,
            ),
            initial_deposit > 0 && duration > 0 ==> r == Ok::<Channel, ChannelError>(
                Channel::opened(channel_id, user, node_operator, initial_deposit, duration, now),
            ),
            r matches Ok(c) ==> c.wf(),
    {
        if initial_deposit == 0 {
            return Err(ChannelError::InvalidDeposit);
        }
        if duration <= 0 {
            return Err(ChannelError::InvalidDuration);
        }
        Ok(Channel {
            channel_id,
            user,
            node_operator,
            initial_deposit,
            current_balance: initial_deposit,
            total_spent: 0,
            created_at: now,
            expires_at: now + duration,
            status: ChannelStatus::Active,
            sequence_number: 0,
            challenge_period: CHALLENGE_PERIOD,
            challenge_expires_at: None,
            last_update: now,
        })
    }

    /// Pays `amount` from the payer's balance to the provider and returns the
    /// payment record.
    pub fn make_payment(
        &mut self,
        amount: u64,
        service_data: ServiceData,
        signature_valid: bool,
        now: i64,
    ) -> (r: Result<Payment, ChannelError>)
        requires
            old(self).wf(),
        ensures
            final(self).wf(),
            match old(self).step(ChannelOp::Pay { amount, signature_valid }, now) {
                Ok(c) => *final(self) == c && r == Ok::<Payment, ChannelError>(
                    Payment { amount, service_data, timestamp: now, sequence_number: c.sequence_number },
                ),
                Err(e) => *final(self) == *old(self) && r == Err::<Payment, ChannelError>(e),
            },
    {
        if self.status != ChannelStatus::Active {
            return Err(ChannelError::ChannelNotActive);
        }
        if now >= self.expires_at {
            return Err(ChannelError::ChannelExpired);
        }
        if amount == 0 {
            return Err(ChannelError::InvalidAmount);
        }
        if self.current_balance < amount {
            return Err(ChannelError::InsufficientBalance);
        }
        if self.sequence_number == u64::MAX {
            return Err(ChannelError::InvalidSequence);
        }
        if !signature_valid {
            return Err(ChannelError::InvalidSignature);
        }
        self.current_balance = self.current_balance - amount;
        self.total_spent = self.total_spent + amount;
        self.sequence_number = self.sequence_number + 1;
        self.last_update = now;
        Ok(Payment { amount, service_data, timestamp: now, sequence_number: self.sequence_number })
    }

    /// Adopts a state signed by both parties: `new_balance` at a newer
    /// `sequence_number`.
    pub fn update_channel(
        &mut self,
        new_balance: u64,
        sequence_number: u64,
        signature_valid: bool,
        now: i64,
    ) -> (r: Result<(), ChannelError>)
        requires
            old(self).wf(),
        ensures
            final(self).wf(),
            match old(self).step(ChannelOp::Update { new_balance, sequence_number, signature_valid }, now) {
                Ok(c) => *final(self) == c && r is Ok,
                Err(e) => *final(self) == *old(self) && r == Err::<(), ChannelError>(e),
            },
    {
        if self.status != ChannelStatus::Active {
            return Err(ChannelError::ChannelNotActive);
        }
        if sequence_number <= self.sequence_number {
            return Err(ChannelError::InvalidSequence);
        }
        if new_balance > self.initial_deposit {
            return Err(ChannelError::InvalidBalance);
        }
        if !signature_valid {
            return Err(ChannelError::InvalidSignature);
        }
        self.current_balance = new_balance;
        self.total_spent = self.initial_deposit - new_balance;
        self.sequence_number = sequence_number;
        self.last_update = now;
        Ok(())
    }

    /// Marks the channel closed and returns what escrow pays out.
    fn settle(&mut self) -> (r: Settlement)
        requires
            old(self).wf(),
        ensures
            *final(self) == old(self).with_status(ChannelStatus::Closed),
            r == old(self).settlement(),
    {
        self.status = ChannelStatus::Closed;
        Settlement { to_user: self.current_balance, to_node_operator: self.total_spent }
    }

    /// Closes the channel: at once when a valid joint final signature is
    /// presented (returning the settlement), otherwise by opening the
    /// challenge window.
    pub fn close_channel(&mut self, final_signature: Option<bool>, now: i64) -> (r: Result<
        Option<Settlement>,
        ChannelError,
    >)
        requires
            old(self).wf(),
            now <= i64::MAX - CHALLENGE_PERIOD,
        ensures
            final(self).wf(),
            match old(self).step(ChannelOp::Close { final_signature }, now) {
                Ok(c) => *final(self) == c && r == Ok::<Option<Settlement>, ChannelError>(
                    if final_signature is Some {
                        Some(old(self).settlement())
                    } else {
                        None
                    },
                ),
                Err(e) => *final(self) == *old(self) && r == Err::<Option<Settlement>, ChannelError>(e),
            },
    {
        if self.status != ChannelStatus::Active && self.status != ChannelStatus::Disputed {
            return Err(ChannelError::ChannelNotCloseable);
        }
        match final_signature {
            Some(valid) => {
                if !valid {
                    return Err(ChannelError::InvalidSignature);
                }
                Ok(Some(self.settle()))
            },
            None => {
                self.status = ChannelStatus::Closing;
                self.challenge_expires_at = Some(now + self.challenge_period);
                Ok(None)
            },
        }
    }

    /// Replaces the closing state by a newer signed one during the challenge
    /// window. The deadline is not moved.
    pub fn challenge_close(
        &mut self,
        sequence_number: u64,
        balance: u64,
        signature_valid: bool,
        now: i64,
    ) -> (r: Result<(), ChannelError>)
        requires
            old(self).wf(),
        ensures
            final(self).wf(),
            match old(self).step(ChannelOp::Challenge { sequence_number, balance, signature_valid }, now) {
                Ok(c) => *final(self) == c && r is Ok,
                Err(e) => *final(self) == *old(self) && r == Err::<(), ChannelError>(e),
            },
    {
        if self.status != ChannelStatus::Closing {
            return Err(ChannelError::NotInChallengePeriod);
        }
        let deadline = match self.challenge_expires_at {
            Some(d) => d,
            None => {
                return Err(ChannelError::NotInChallengePeriod);
            },
        };
        if now >= deadline {
            return Err(ChannelError::ChallengePeriodExpired);
        }
        if sequence_number <= self.sequence_number {
            return Err(ChannelError::InvalidSequence);
        }
        if balance > self.initial_deposit {
            return Err(ChannelError::InvalidBalance);
        }
        if !signature_valid {
            return Err(ChannelError::InvalidSignature);
        }
        self.sequence_number = sequence_number;
        self.current_balance = balance;
        self.total_spent = self.initial_deposit - balance;
        Ok(())
    }

    /// Settles a closing channel once its challenge window has passed.
    pub fn finalize_close(&mut self, now: i64) -> (r: Result<Settlement, ChannelError>)
        requires
            old(self).wf(),
        ensures
            final(self).wf(),
            match old(self).step(ChannelOp::Finalize, now) {
                Ok(c) => *final(self) == c && r == Ok::<Settlement, ChannelError>(old(self).settlement()),
                Err(e) => *final(self) == *old(self) && r == Err::<Settlement, ChannelError>(e),
            },
    {
        if self.status != ChannelStatus::Closing {
            return Err(ChannelError::NotInChallengePeriod);
        }
        let deadline = match self.challenge_expires_at {
            Some(d) => d,
            None => {
                return Err(ChannelError::NotInChallengePeriod);
            },
        };
        if now < deadline {
            return Err(ChannelError::ChallengePeriodNotExpired);
        }
        Ok(self.settle())
    }

    /// Suspends an active channel while one of its payments is contested.
    pub fn dispute_transaction(&mut self) -> (r: Result<(), ChannelError>)
        requires
            old(self).wf(),
        ensures
            final(self).wf(),
            match old(self).step(ChannelOp::Dispute, 0) {
                Ok(c) => *final(self) == c && r is Ok,
                Err(e) => *final(self) == *old(self) && r == Err::<(), ChannelError>(e),
            },
    {
        if self.status != ChannelStatus::Active {
            return Err(ChannelError::ChannelNotActive);
        }
        self.status = ChannelStatus::Disputed;
        Ok(())
    }

    /// Applies the arbitrated `outcome` over `amount` and reactivates the
    /// channel.
    pub fn resolve_dispute(&mut self, outcome: DisputeOutcome, amount: u64) -> (r: Result<
        (),
        ChannelError,
    >)
        requires
            old(self).wf(),
        ensures
            final(self).wf(),
            match old(self).step(ChannelOp::Resolve { outcome, amount }, 0) {
                Ok(c) => *final(self) == c && r is Ok,
                Err(e) => *final(self) == *old(self) && r == Err::<(), ChannelError>(e),
            },
    {
        if self.status != ChannelStatus::Disputed {
            return Err(ChannelError::DisputeNotOpen);
        }
        if amount > self.total_spent {
            return Err(ChannelError::InvalidAmount);
        }
        let refund = match outcome {
            DisputeOutcome::FavorUser => amount,
            DisputeOutcome::FavorOperator => 0,
            DisputeOutcome::PartialRefund => amount / 2,
        };
        self.current_balance = self.current_balance + refund;
        self.total_spent = self.total_spent - refund;
        self.status = ChannelStatus::Active;
        Ok(())
    }
}

} // verus!
