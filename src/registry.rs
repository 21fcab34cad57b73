use vstd::prelude::*;

use crate::channel::{Channel, ChannelOp, CHALLENGE_PERIOD};
use crate::types::{
    ChannelError, ChannelStatus, Dispute, DisputeEvidence, DisputeOutcome, DisputeResolution,
    DisputeStatus, Payment, Pubkey, ServiceData, Settlement,
};

use crate::text::str_eq;

verus! {

/// Program-wide settings and counters.
#[derive(Clone, Copy, Debug)]
pub struct ChannelState {
    /// The arbitration authority that may resolve disputes.
    pub authority: Pubkey,
    pub total_channels: u64,
    /// Sum of all accepted payments, saturating at `u64::MAX`.
    pub total_volume: u64,
}

/// One entry of the append-only event log.
pub enum ChannelEvent {
    ChannelCreated {
        channel_id: String,
        user: Pubkey,
        node_operator: Pubkey,
        initial_deposit: u64,
        expires_at: i64,
    },
    PaymentMade { channel_id: String, amount: u64, sequence_number: u64 },
    ChannelUpdated { channel_id: String, new_balance: u64, sequence_number: u64, timestamp: i64 },
    ChannelClosing { channel_id: String, challenge_expires_at: i64 },
    ChannelChallenged { channel_id: String, new_sequence_number: u64, new_balance: u64 },
    ChannelClosed { channel_id: String, final_user_balance: u64, final_operator_earnings: u64 },
    TransactionDisputed { channel_id: String, disputed_payment: u64 },
    DisputeResolved { channel_id: String, outcome: DisputeOutcome, amount: u64 },
}

/// Everything the registry holds for one channel.
pub struct ChannelRecord {
    pub channel: Channel,
    /// Accepted payments, oldest first.
    pub payments: Vec<Payment>,
    /// The latest dispute filed on the channel.
    pub dispute: Option<Dispute>,
}

/// Mathematical view of a `ChannelRecord`.
pub struct RecordView {
    pub channel: Channel,
    pub payments: Seq<Payment>,
    pub dispute: Option<Dispute>,
}

impl ChannelRecord {
    pub open spec fn view(&self) -> RecordView {
        RecordView { channel: self.channel, payments: self.payments@, dispute: self.dispute }
    }
}

/// Owns every channel, keyed by its identifier, with its payments, its
/// dispute and the event log.
pub struct ChannelRegistry {
    state: ChannelState,
    records: Vec<ChannelRecord>,
    events: Vec<ChannelEvent>,
}

impl ChannelRegistry {
    spec fn keys(&self) -> Seq<Seq<char>> {
        self.records@.map_values(|r: ChannelRecord| r.channel.channel_id@)
    }

    spec fn index_of(&self, id: Seq<char>) -> int {
        choose|i: int| 0 <= i < self.keys().len() && self.keys()[i] == id
    }

    /// The channels by identifier.
    pub closed spec fn view(&self) -> Map<Seq<char>, RecordView> {
        Map::new(
            |id: Seq<char>| self.keys().contains(id),
            |id: Seq<char>| self.records@[self.index_of(id)].view(),
        )
    }

    /// The settings and counters.
    pub closed spec fn counters(&self) -> ChannelState {
        self.state
    }

    /// The event log, oldest first.
    pub closed spec fn log(&self) -> Seq<ChannelEvent> {
        self.events@
    }

    /// Identifiers are unique, every channel is well formed, and the channel
    /// counter counts the channels.
    pub closed spec fn wf(&self) -> bool {
        &&& forall|i: int, j: int|
            0 <= i < j < self.records@.len() ==> self.records@[i].channel.channel_id@
                != self.records@[j].channel.channel_id@
        &&& forall|i: int| 0 <= i < self.records@.len() ==> #[trigger] self.records@[i].channel.wf()
        &&& self.state.total_channels == self.records@.len()
    }

    /// Conservation across the registry: every channel it holds is well
    /// formed, so its balance and its earnings add up to its deposit; and the
    /// channel counter counts the channels.
    pub proof fn lemma_channels_wf(&self)
        requires
            self.wf(),
        ensures
            forall|id: Seq<char>| #[trigger] self@.contains_key(id) ==> self@[id].channel.wf(),
            forall|id: Seq<char>| #[trigger] self@.contains_key(id) ==> self@[id].channel.current_balance
                + self@[id].channel.total_spent == self@[id].channel.initial_deposit,
            self.counters().total_channels == self@.dom().len(),
    {
        assert forall|id: Seq<char>| #[trigger] self@.contains_key(id) implies self@[id].channel.wf() by {
            let i = self.index_of(id);
            assert(self.keys().contains(id));
            assert(self.records@[i].channel.wf());
        }
        self.lemma_dom_len();
    }

    proof fn lemma_dom_len(&self)
        requires
            self.wf(),
        ensures
            self@.dom().len() == self.records@.len(),
            self@.dom().finite(),
    {
        self.lemma_keys_unique();
        assert(self@.dom() =~= self.keys().to_set());
        self.keys().unique_seq_to_set();
    }

    proof fn lemma_keys_unique(&self)
        requires
            self.wf(),
        ensures
            self.keys().no_duplicates(),
    {
        assert forall|i: int, j: int|
            0 <= i < self.keys().len() && 0 <= j < self.keys().len() && i != j implies self.keys()[i]
            != self.keys()[j] by {
            if i < j {
                assert(self.records@[i].channel.channel_id@ != self.records@[j].channel.channel_id@);
            } else {
                assert(self.records@[j].channel.channel_id@ != self.records@[i].channel.channel_id@);
            }
        }
    }

    /// The record at index `i` is the one viewed under its identifier.
    proof fn lemma_view_at(&self, i: int)
        requires
            self.wf(),
            0 <= i < self.records@.len(),
        ensures
            self.index_of(self.records@[i].channel.channel_id@) == i,
            self@.contains_key(self.records@[i].channel.channel_id@),
            self@[self.records@[i].channel.channel_id@] == self.records@[i].view(),
    {
        let id = self.records@[i].channel.channel_id@;
        assert(self.keys()[i] == id);
        assert(self.keys().contains(id));
        let j = self.index_of(id);
        if j != i {
            if i < j {
                assert(self.records@[i].channel.channel_id@ != self.records@[j].channel.channel_id@);
            } else {
                assert(self.records@[j].channel.channel_id@ != self.records@[i].channel.channel_id@);
            }
        }
    }

    /// Replacing the record at `i` by one under the same identifier updates
    /// the view at that identifier only.
    proof fn lemma_replace(old_reg: Self, new_reg: Self, i: int)
        requires
            old_reg.wf(),
            0 <= i < old_reg.records@.len(),
            new_reg.records@.len() == old_reg.records@.len(),
            forall|j: int|
                0 <= j < old_reg.records@.len() && j != i ==> new_reg.records@[j]
                    == old_reg.records@[j],
            new_reg.records@[i].channel.channel_id@ == old_reg.records@[i].channel.channel_id@,
            new_reg.records@[i].channel.wf(),
            new_reg.state.total_channels == old_reg.state.total_channels,
        ensures
            new_reg.wf(),
            new_reg@ == old_reg@.insert(
                old_reg.records@[i].channel.channel_id@,
                new_reg.records@[i].view(),
            ),
    {
        assert(new_reg.keys() =~= old_reg.keys());
        assert forall|j: int| 0 <= j < new_reg.records@.len() implies #[trigger] new_reg.records@[j].channel.wf() by {
            if j != i {
                assert(old_reg.records@[j].channel.wf());
            }
        }
        assert forall|a: int, b: int|
            0 <= a < b < new_reg.records@.len() implies new_reg.records@[a].channel.channel_id@
            != new_reg.records@[b].channel.channel_id@ by {
            assert(new_reg.keys()[a] == old_reg.keys()[a]);
            assert(new_reg.keys()[b] == old_reg.keys()[b]);
        }
        let id = old_reg.records@[i].channel.channel_id@;
        assert forall|k: Seq<char>| #[trigger] new_reg@.contains_key(k) implies new_reg@[k] == old_reg@.insert(
            id,
            new_reg.records@[i].view(),
        )[k] by {
            let j = new_reg.index_of(k);
            new_reg.lemma_view_at(j);
            old_reg.lemma_view_at(j);
            if k == id {
                old_reg.lemma_view_at(i);
            }
        }
        old_reg.lemma_view_at(i);
        assert(new_reg@.dom() =~= old_reg@.dom());
        assert(new_reg@ =~= old_reg@.insert(id, new_reg.records@[i].view()));
    }

    /// Index of the channel `id`, if the registry holds it.
    fn find(&self, id: &str) -> (r: Option<usize>)
        requires
            self.wf(),
        ensures
            r is None <==> !self@.contains_key(id@),
            r matches Some(i) ==> i < self.records@.len() && self.records@[i as int].channel.channel_id@
                == id@ && self@[id@] == self.records@[i as int].view(),
    {
        let mut i: usize = 0;
        while i < self.records.len()
            invariant
                self.wf(),
                i <= self.records@.len(),
                forall|j: int| 0 <= j < i ==> self.records@[j].channel.channel_id@ != id@,
            decreases self.records@.len() - i,
        {
            if str_eq(self.records[i].channel.channel_id.as_str(), id) {
                proof {
                    self.lemma_view_at(i as int);
                }
                return Some(i);
            }
            i = i + 1;
        }
        proof {
            if self@.contains_key(id@) {
                assert(self.keys().contains(id@));
                let j = choose|j: int| 0 <= j < self.keys().len() && self.keys()[j] == id@;
                assert(self.records@[j].channel.channel_id@ == id@);
            }
        }
        None
    }

    /// Whether `other` holds the same channels, counters and log as `self`.
    pub open spec fn same(&self, other: &Self) -> bool {
        &&& other@ == self@
        &&& other.counters() == self.counters()
        &&& other.log() == self.log()
    }

    /// Appending a record under a new identifier extends the view by it.
    proof fn lemma_push(old_reg: Self, new_reg: Self, rec: ChannelRecord)
        requires
            old_reg.wf(),
            !old_reg@.contains_key(rec.channel.channel_id@),
            rec.channel.wf(),
            new_reg.records@ == old_reg.records@.push(rec),
            new_reg.state.total_channels == old_reg.state.total_channels + 1,
        ensures
            new_reg.wf(),
            new_reg@ == old_reg@.insert(rec.channel.channel_id@, rec.view()),
    {
        let id = rec.channel.channel_id@;
        let n = old_reg.records@.len() as int;
        assert forall|j: int| 0 <= j < n implies old_reg.records@[j].channel.channel_id@ != id by {
            old_reg.lemma_view_at(j);
        }
        assert forall|j: int| 0 <= j < new_reg.records@.len() implies #[trigger] new_reg.records@[j].channel.wf() by {
            if j < n {
                assert(old_reg.records@[j].channel.wf());
            }
        }
        assert forall|a: int, b: int|
            0 <= a < b < new_reg.records@.len() implies new_reg.records@[a].channel.channel_id@
            != new_reg.records@[b].channel.channel_id@ by {
            if b < n {
                assert(old_reg.records@[a].channel.channel_id@ != old_reg.records@[b].channel.channel_id@);
            }
        }
        assert(new_reg.keys() =~= old_reg.keys().push(id));
        assert forall|k: Seq<char>| #[trigger] new_reg@.contains_key(k) implies new_reg@[k]
            == old_reg@.insert(id, rec.view())[k] by {
            let j = new_reg.index_of(k);
            new_reg.lemma_view_at(j);
            if j < n {
                old_reg.lemma_view_at(j);
            }
        }
        assert forall|k: Seq<char>| #[trigger] old_reg@.insert(id, rec.view()).contains_key(k)
            implies new_reg@.contains_key(k) by {
            if k != id {
                let j = old_reg.index_of(k);
                old_reg.lemma_view_at(j);
                assert(new_reg.keys()[j] == k);
            } else {
                assert(new_reg.keys()[n] == id);
            }
        }
        assert(new_reg@ =~= old_reg@.insert(id, rec.view()));
    }

    /// An empty registry whose disputes `authority` arbitrates.
    pub fn initialize(authority: Pubkey) -> (r: ChannelRegistry)
        ensures
            r.wf(),
            r@ == Map::<Seq<char>, RecordView>::empty(),
            r.log() == Seq::<ChannelEvent>::empty(),
            r.counters() == (ChannelState { authority, total_channels: 0, total_volume: 0 }),
    {
        let r = ChannelRegistry {
            state: ChannelState { authority, total_channels: 0, total_volume: 0 },
            records: Vec::new(),
            events: Vec::new(),
        };
        assert(r@ =~= Map::<Seq<char>, RecordView>::empty());
        r
    }

    pub fn authority(&self) -> (r: Pubkey)
        ensures
            r == self.counters().authority,
    {
        self.state.authority
    }

    pub fn total_channels(&self) -> (r: u64)
        ensures
            r == self.counters().total_channels,
    {
        self.state.total_channels
    }

    pub fn total_volume(&self) -> (r: u64)
        ensures
            r == self.counters().total_volume,
    {
        self.state.total_volume
    }

    pub fn events(&self) -> (r: &Vec<ChannelEvent>)
        ensures
            r@ == self.log(),
    {
        &self.events
    }

    /// The verdict `create_channel` gives on these inputs, without creating
    /// anything: a caller checks it before moving the deposit into escrow.
    pub fn check_create(&self, channel_id: &str, initial_deposit: u64, duration: i64) -> (r: Result<
        (),
        ChannelError,
    >)
        requires
            self.wf(),
        ensures
            r == create_verdict(self@.contains_key(channel_id@), initial_deposit, duration),
    {
        if self.find(channel_id).is_some() {
            Err(ChannelError::DuplicateChannel)
        } else if initial_deposit == 0 {
            Err(ChannelError::InvalidDeposit)
        } else if duration <= 0 {
            Err(ChannelError::InvalidDuration)
        } else {
            Ok(())
        }
    }

    /// Creates the channel `channel_id` between the payer `user` and the
    /// provider `node_operator`. The caller moves `initial_deposit` into
    /// escrow when this succeeds.
    pub fn create_channel(
        &mut self,
        channel_id: String,
        user: Pubkey,
        node_operator: Pubkey,
        initial_deposit: u64,
        duration: i64,
        now: i64,
    ) -> (r: Result<(), ChannelError>)
        requires
            old(self).wf(),
            now + duration <= i64::MAX,
            old(self).counters().total_channels < u64::MAX,
        ensures
            final(self).wf(),
            old(self)@.contains_key(channel_id@) ==> r == Err::<(), ChannelError>(
                ChannelError::DuplicateChannel,
            ),
            !old(self)@.contains_key(channel_id@) && initial_deposit == 0 ==> r == Err::<
                (),
                ChannelError,
            >(ChannelError::InvalidDeposit),
            !old(self)@.contains_key(channel_id@) && initial_deposit > 0 && duration <= 0 ==> r
                == Err::<(), ChannelError>(ChannelError::InvalidDuration),
            !old(self)@.contains_key(channel_id@) && initial_deposit > 0 && duration > 0 ==> r is Ok,
            r is Err ==> old(self).same(final(self)),
            r is Ok ==> ({
                let c = Channel::opened(channel_id, user, node_operator, initial_deposit, duration, now);
                &&& !old(self)@.contains_key(channel_id@) && initial_deposit > 0 && duration > 0
                &&& final(self)@ == old(self)@.insert(
                    channel_id@,
                    RecordView { channel: c, payments: Seq::empty(), dispute: None },
                )
                &&& final(self).counters() == (ChannelState {
                    total_channels: (old(self).counters().total_channels + 1) as u64,
                    ..old(self).counters()
                })
                &&& final(self).log() == old(self).log().push(
                    ChannelEvent::ChannelCreated {
                        channel_id,
                        user,
                        node_operator,
                        initial_deposit,
                        expires_at: c.expires_at,
                    },
                )
            }),
    {
        if self.find(channel_id.as_str()).is_some() {
            return Err(ChannelError::DuplicateChannel);
        }
        let event_id = channel_id.clone();
        let channel = match Channel::new(channel_id, user, node_operator, initial_deposit, duration, now) {
            Ok(c) => c,
            Err(e) => {
                return Err(e);
            },
        };
        let expires_at = channel.expires_at;
        let rec = ChannelRecord { channel, payments: Vec::new(), dispute: None };
        assert(rec.view().payments =~= Seq::<Payment>::empty());
        self.records.push(rec);
        self.state.total_channels = self.state.total_channels + 1;
        proof {
            ChannelRegistry::lemma_push(*old(self), *self, rec);
        }
        self.events.push(
            ChannelEvent::ChannelCreated {
                channel_id: event_id,
                user,
                node_operator,
                initial_deposit,
                expires_at,
            },
        );
        Ok(())
    }

    /// A copy of the channel `channel_id`.
    pub fn get_channel(&self, channel_id: &str) -> (r: Result<Channel, ChannelError>)
        requires
            self.wf(),
        ensures
            !self@.contains_key(channel_id@) ==> r == Err::<Channel, ChannelError>(
                ChannelError::NotFound,
            ),
            self@.contains_key(channel_id@) ==> r == Ok::<Channel, ChannelError>(
                self@[channel_id@].channel,
            ),
    {
        match self.find(channel_id) {
            Some(i) => Ok(self.records[i].channel.snapshot()),
            None => Err(ChannelError::NotFound),
        }
    }

    /// The payments of the channel `channel_id`, oldest first.
    pub fn payments(&self, channel_id: &str) -> (r: Result<Vec<Payment>, ChannelError>)
        requires
            self.wf(),
        ensures
            !self@.contains_key(channel_id@) ==> r == Err::<Vec<Payment>, ChannelError>(
                ChannelError::NotFound,
            ),
            self@.contains_key(channel_id@) ==> (r matches Ok(v) && v@ == self@[channel_id@].payments),
    {
        let i = match self.find(channel_id) {
            Some(i) => i,
            None => {
                return Err(ChannelError::NotFound);
            },
        };
        let src = &self.records[i].payments;
        let mut out: Vec<Payment> = Vec::new();
        let mut k: usize = 0;
        while k < src.len()
            invariant
                k <= src@.len(),
                out@ == src@.subrange(0, k as int),
            decreases src@.len() - k,
        {
            out.push(src[k]);
            k = k + 1;
            assert(out@ =~= src@.subrange(0, k as int));
        }
        assert(out@ =~= src@);
        Ok(out)
    }

    /// Status of the latest dispute filed on the channel `channel_id`.
    pub fn dispute_status(&self, channel_id: &str) -> (r: Result<Option<DisputeStatus>, ChannelError>)
        requires
            self.wf(),
        ensures
            !self@.contains_key(channel_id@) ==> r == Err::<Option<DisputeStatus>, ChannelError>(
                ChannelError::NotFound,
            ),
            self@.contains_key(channel_id@) ==> r == Ok::<Option<DisputeStatus>, ChannelError>(
                match self@[channel_id@].dispute {
                    Some(d) => Some(d.status),
                    None => None,
                },
            ),
    {
        match self.find(channel_id) {
            Some(i) => match &self.records[i].dispute {
                Some(d) => Ok(Some(d.status)),
                None => Ok(None),
            },
            None => Err(ChannelError::NotFound),
        }
    }

    /// Records a payment of `amount` on the channel `channel_id`.
    /// `signature_valid` is the verifier's verdict on the payer's signature
    /// over `payment_digest` of the call.
    pub fn make_payment(
        &mut self,
        channel_id: &str,
        amount: u64,
        service_data: ServiceData,
        signature_valid: bool,
        now: i64,
    ) -> (r: Result<Payment, ChannelError>)
        requires
            old(self).wf(),
        ensures
            final(self).wf(),
            !old(self)@.contains_key(channel_id@) ==> r == Err::<Payment, ChannelError>(
                ChannelError::NotFound,
            ) && old(self).same(final(self)),
            old(self)@.contains_key(channel_id@) ==> ({
                let rec = old(self)@[channel_id@];
                match rec.channel.step(ChannelOp::Pay { amount, signature_valid }, now) {
                    Ok(c) => {
                        let p = Payment {
                            amount,
                            service_data,
                            timestamp: now,
                            sequence_number: c.sequence_number,
                        };
                        &&& r == Ok::<Payment, ChannelError>(p)
                        &&& final(self)@ == old(self)@.insert(
                            channel_id@,
                            RecordView { channel: c, payments: rec.payments.push(p), dispute: rec.dispute },
                        )
                        &&& final(self).counters() == (ChannelState {
                            total_volume: sat_add(old(self).counters().total_volume, amount),
                            ..old(self).counters()
                        })
                        &&& final(self).log() == old(self).log().push(
                            ChannelEvent::PaymentMade {
                                channel_id: rec.channel.channel_id,
                                amount,
                                sequence_number: c.sequence_number,
                            },
                        )
                    },
                    Err(e) => r == Err::<Payment, ChannelError>(e) && old(self).same(final(self)),
                }
            }),
    {
        let i = match self.find(channel_id) {
            Some(i) => i,
            None => {
                return Err(ChannelError::NotFound);
            },
        };
        let r = self.records[i].channel.make_payment(amount, service_data, signature_valid, now);
        if let Ok(p) = r {
            self.records[i].payments.push(p);
            self.state.total_volume = self.state.total_volume.saturating_add(amount);
            let event_id = self.records[i].channel.channel_id.clone();
            self.events.push(
                ChannelEvent::PaymentMade { channel_id: event_id, amount, sequence_number: p.sequence_number },
            );
        }
        proof {
            ChannelRegistry::lemma_replace(*old(self), *self, i as int);
            if r is Err {
                assert(self@ =~= old(self)@);
            }
        }
        r
    }

    /// Adopts a state signed by both parties on the channel `channel_id`.
    pub fn update_channel(
        &mut self,
        channel_id: &str,
        new_balance: u64,
        sequence_number: u64,
        signature_valid: bool,
        now: i64,
    ) -> (r: Result<(), ChannelError>)
        requires
            old(self).wf(),
        ensures
            final(self).wf(),
            !old(self)@.contains_key(channel_id@) ==> r == Err::<(), ChannelError>(
                ChannelError::NotFound,
            ) && old(self).same(final(self)),
            old(self)@.contains_key(channel_id@) ==> ({
                let rec = old(self)@[channel_id@];
                match rec.channel.step(
                    ChannelOp::Update { new_balance, sequence_number, signature_valid },
                    now,
                ) {
                    Ok(c) => {
                        &&& r is Ok
                        &&& final(self)@ == with_channel(old(self)@, channel_id@, c)
                        &&& final(self).counters() == old(self).counters()
                        &&& final(self).log() == old(self).log().push(
                            ChannelEvent::ChannelUpdated {
                                channel_id: rec.channel.channel_id,
                                new_balance,
                                sequence_number,
                                timestamp: now,
                            },
                        )
                    },
                    Err(e) => r == Err::<(), ChannelError>(e) && old(self).same(final(self)),
                }
            }),
    {
        let i = match self.find(channel_id) {
            Some(i) => i,
            None => {
                return Err(ChannelError::NotFound);
            },
        };
        let r = self.records[i].channel.update_channel(new_balance, sequence_number, signature_valid, now);
        if r.is_ok() {
            let event_id = self.records[i].channel.channel_id.clone();
            self.events.push(
                ChannelEvent::ChannelUpdated { channel_id: event_id, new_balance, sequence_number, timestamp: now },
            );
        }
        proof {
            ChannelRegistry::lemma_replace(*old(self), *self, i as int);
            assert(self@ =~= with_channel(old(self)@, channel_id@, self.records@[i as int].channel));
            if r is Err {
                assert(self@ =~= old(self)@);
            }
        }
        r
    }

    /// Closes the channel `channel_id`: with a valid joint final signature it
    /// settles at once and returns the payout for escrow to make; without one
    /// it opens the challenge window.
    pub fn close_channel(&mut self, channel_id: &str, final_signature: Option<bool>, now: i64) -> (r:
        Result<Option<Settlement>, ChannelError>)
        requires
            old(self).wf(),
            now <= i64::MAX - CHALLENGE_PERIOD,
        ensures
            final(self).wf(),
            !old(self)@.contains_key(channel_id@) ==> r == Err::<Option<Settlement>, ChannelError>(
                ChannelError::NotFound,
            ) && old(self).same(final(self)),
            old(self)@.contains_key(channel_id@) ==> ({
                let rec = old(self)@[channel_id@];
                match rec.channel.step(ChannelOp::Close { final_signature }, now) {
                    Ok(c) => {
                        &&& final(self)@ == with_channel(old(self)@, channel_id@, c)
                        &&& final(self).counters() == old(self).counters()
                        &&& if final_signature is Some {
                            &&& r == Ok::<Option<Settlement>, ChannelError>(Some(rec.channel.settlement()))
                            &&& final(self).log() == old(self).log().push(
                                ChannelEvent::ChannelClosed {
                                    channel_id: rec.channel.channel_id,
                                    final_user_balance: rec.channel.current_balance,
                                    final_operator_earnings: rec.channel.total_spent,
                                },
                            )
                        } else {
                            &&& r == Ok::<Option<Settlement>, ChannelError>(None)
                            &&& final(self).log() == old(self).log().push(
                                ChannelEvent::ChannelClosing {
                                    channel_id: rec.channel.channel_id,
                                    challenge_expires_at: c.deadline(),
                                },
                            )
                        }
                    },
                    Err(e) => r == Err::<Option<Settlement>, ChannelError>(e) && old(self).same(
                        final(self),
                    ),
                }
            }),
    {
        let i = match self.find(channel_id) {
            Some(i) => i,
            None => {
                return Err(ChannelError::NotFound);
            },
        };
        let r = self.records[i].channel.close_channel(final_signature, now);
        match r {
            Ok(Some(s)) => {
                let event_id = self.records[i].channel.channel_id.clone();
                self.events.push(
                    ChannelEvent::ChannelClosed {
                        channel_id: event_id,
                        final_user_balance: s.to_user,
                        final_operator_earnings: s.to_node_operator,
                    },
                );
            },
            Ok(None) => {
                let event_id = self.records[i].channel.channel_id.clone();
                let deadline = now + CHALLENGE_PERIOD;
                self.events.push(
                    ChannelEvent::ChannelClosing { channel_id: event_id, challenge_expires_at: deadline },
                );
            },
            Err(_) => {},
        }
        proof {
            ChannelRegistry::lemma_replace(*old(self), *self, i as int);
            assert(self@ =~= with_channel(old(self)@, channel_id@, self.records@[i as int].channel));
            if r is Err {
                assert(self@ =~= old(self)@);
            }
        }
        r
    }

    /// Replaces the closing state of the channel `channel_id` by a newer
    /// signed one.
    pub fn challenge_close(
        &mut self,
        channel_id: &str,
        sequence_number: u64,
        balance: u64,
        signature_valid: bool,
        now: i64,
    ) -> (r: Result<(), ChannelError>)
        requires
            old(self).wf(),
        ensures
            final(self).wf(),
            !old(self)@.contains_key(channel_id@) ==> r == Err::<(), ChannelError>(
                ChannelError::NotFound,
            ) && old(self).same(final(self)),
            old(self)@.contains_key(channel_id@) ==> ({
                let rec = old(self)@[channel_id@];
                match rec.channel.step(
                    ChannelOp::Challenge { sequence_number, balance, signature_valid },
                    now,
                ) {
                    Ok(c) => {
                        &&& r is Ok
                        &&& final(self)@ == with_channel(old(self)@, channel_id@, c)
                        &&& final(self).counters() == old(self).counters()
                        &&& final(self).log() == old(self).log().push(
                            ChannelEvent::ChannelChallenged {
                                channel_id: rec.channel.channel_id,
                                new_sequence_number: sequence_number,
                                new_balance: balance,
                            },
                        )
                    },
                    Err(e) => r == Err::<(), ChannelError>(e) && old(self).same(final(self)),
                }
            }),
    {
        let i = match self.find(channel_id) {
            Some(i) => i,
            None => {
                return Err(ChannelError::NotFound);
            },
        };
        let r = self.records[i].channel.challenge_close(sequence_number, balance, signature_valid, now);
        if r.is_ok() {
            let event_id = self.records[i].channel.channel_id.clone();
            self.events.push(
                ChannelEvent::ChannelChallenged {
                    channel_id: event_id,
                    new_sequence_number: sequence_number,
                    new_balance: balance,
                },
            );
        }
        proof {
            ChannelRegistry::lemma_replace(*old(self), *self, i as int);
            assert(self@ =~= with_channel(old(self)@, channel_id@, self.records@[i as int].channel));
            if r is Err {
                assert(self@ =~= old(self)@);
            }
        }
        r
    }

    /// Settles the channel `channel_id` once its challenge window has passed
    /// and returns the payout for escrow to make.
    pub fn finalize_close(&mut self, channel_id: &str, now: i64) -> (r: Result<Settlement, ChannelError>)
        requires
            old(self).wf(),
        ensures
            final(self).wf(),
            !old(self)@.contains_key(channel_id@) ==> r == Err::<Settlement, ChannelError>(
                ChannelError::NotFound,
            ) && old(self).same(final(self)),
            old(self)@.contains_key(channel_id@) ==> ({
                let rec = old(self)@[channel_id@];
                match rec.channel.step(ChannelOp::Finalize, now) {
                    Ok(c) => {
                        &&& r == Ok::<Settlement, ChannelError>(rec.channel.settlement())
                        &&& final(self)@ == with_channel(old(self)@, channel_id@, c)
                        &&& final(self).counters() == old(self).counters()
                        &&& final(self).log() == old(self).log().push(
                            ChannelEvent::ChannelClosed {
                                channel_id: rec.channel.channel_id,
                                final_user_balance: rec.channel.current_balance,
                                final_operator_earnings: rec.channel.total_spent,
                            },
                        )
                    },
                    Err(e) => r == Err::<Settlement, ChannelError>(e) && old(self).same(final(self)),
                }
            }),
    {
        let i = match self.find(channel_id) {
            Some(i) => i,
            None => {
                return Err(ChannelError::NotFound);
            },
        };
        let r = self.records[i].channel.finalize_close(now);
        if let Ok(s) = r {
            let event_id = self.records[i].channel.channel_id.clone();
            self.events.push(
                ChannelEvent::ChannelClosed {
                    channel_id: event_id,
                    final_user_balance: s.to_user,
                    final_operator_earnings: s.to_node_operator,
                },
            );
        }
        proof {
            ChannelRegistry::lemma_replace(*old(self), *self, i as int);
            assert(self@ =~= with_channel(old(self)@, channel_id@, self.records@[i as int].channel));
            if r is Err {
                assert(self@ =~= old(self)@);
            }
        }
        r
    }

    /// Files a dispute over the payment `disputed_payment` (its sequence
    /// number) of the active channel `channel_id` and suspends the channel.
    pub fn dispute_transaction(
        &mut self,
        channel_id: &str,
        disputed_payment: u64,
        evidence: DisputeEvidence,
        now: i64,
    ) -> (r: Result<(), ChannelError>)
        requires
            old(self).wf(),
        ensures
            final(self).wf(),
            !old(self)@.contains_key(channel_id@) ==> r == Err::<(), ChannelError>(
                ChannelError::NotFound,
            ) && old(self).same(final(self)),
            old(self)@.contains_key(channel_id@) ==> ({
                let rec = old(self)@[channel_id@];
                if rec.channel.step(ChannelOp::Dispute, now) is Err || has_open_dispute(rec) {
                    r == Err::<(), ChannelError>(ChannelError::ChannelNotActive) && old(self).same(
                        final(self),
                    )
                } else {
                    &&& r is Ok
                    &&& final(self)@ == old(self)@.insert(
                        channel_id@,
                        RecordView {
                            channel: rec.channel.with_status(ChannelStatus::Disputed),
                            payments: rec.payments,
                            dispute: Some(
                                Dispute {
                                    disputed_payment,
                                    evidence,
                                    status: DisputeStatus::Open,
                                    created_at: now,
                                    resolution: None,
                                },
                            ),
                        },
                    )
                    &&& final(self).counters() == old(self).counters()
                    &&& final(self).log() == old(self).log().push(
                        ChannelEvent::TransactionDisputed {
                            channel_id: rec.channel.channel_id,
                            disputed_payment,
                        },
                    )
                }
            }),
    {
        let i = match self.find(channel_id) {
            Some(i) => i,
            None => {
                return Err(ChannelError::NotFound);
            },
        };
        let open = match &self.records[i].dispute {
            Some(d) => d.status == DisputeStatus::Open,
            None => false,
        };
        if open {
            return Err(ChannelError::ChannelNotActive);
        }
        let r = self.records[i].channel.dispute_transaction();
        if r.is_ok() {
            self.records[i].dispute = Some(
                Dispute {
                    disputed_payment,
                    evidence,
                    status: DisputeStatus::Open,
                    created_at: now,
                    resolution: None,
                },
            );
            let event_id = self.records[i].channel.channel_id.clone();
            self.events.push(ChannelEvent::TransactionDisputed { channel_id: event_id, disputed_payment });
        }
        proof {
            ChannelRegistry::lemma_replace(*old(self), *self, i as int);
            if r is Err {
                assert(self@ =~= old(self)@);
            }
        }
        r
    }

    /// Applies the arbitration `resolution` to the open dispute of the
    /// channel `channel_id` and reactivates the channel. Only the registry's
    /// authority may call it.
    pub fn resolve_dispute(&mut self, channel_id: &str, caller: Pubkey, resolution: DisputeResolution) -> (r:
        Result<(), ChannelError>)
        requires
            old(self).wf(),
        ensures
            final(self).wf(),
            !old(self)@.contains_key(channel_id@) ==> r == Err::<(), ChannelError>(
                ChannelError::NotFound,
            ) && old(self).same(final(self)),
            old(self)@.contains_key(channel_id@) ==> ({
                let rec = old(self)@[channel_id@];
                let op = ChannelOp::Resolve { outcome: resolution.outcome, amount: resolution.amount };
                if !has_open_dispute(rec) {
                    r == Err::<(), ChannelError>(ChannelError::DisputeNotOpen) && old(self).same(
                        final(self),
                    )
                } else if caller.0@ != old(self).counters().authority.0@ {
                    r == Err::<(), ChannelError>(ChannelError::Unauthorized) && old(self).same(
                        final(self),
                    )
                } else {
                    match rec.channel.step(op, 0) {
                        Ok(c) => {
                            let d = rec.dispute.unwrap();
                            &&& r is Ok
                            &&& final(self)@ == old(self)@.insert(
                                channel_id@,
                                RecordView {
                                    channel: c,
                                    payments: rec.payments,
                                    dispute: Some(
                                        Dispute {
                                            status: DisputeStatus::Resolved,
                                            resolution: Some(resolution),
                                            ..d
                                        },
                                    ),
                                },
                            )
                            &&& final(self).counters() == old(self).counters()
                            &&& final(self).log() == old(self).log().push(
                                ChannelEvent::DisputeResolved {
                                    channel_id: rec.channel.channel_id,
                                    outcome: resolution.outcome,
                                    amount: resolution.amount,
                                },
                            )
                        },
                        Err(e) => r == Err::<(), ChannelError>(e) && old(self).same(final(self)),
                    }
                }
            }),
    {
        let i = match self.find(channel_id) {
            Some(i) => i,
            None => {
                return Err(ChannelError::NotFound);
            },
        };
        let open = match &self.records[i].dispute {
            Some(d) => d.status == DisputeStatus::Open,
            None => false,
        };
        if !open {
            return Err(ChannelError::DisputeNotOpen);
        }
        if !(caller == self.state.authority) {
            return Err(ChannelError::Unauthorized);
        }
        let outcome = resolution.outcome;
        let amount = resolution.amount;
        let r = self.records[i].channel.resolve_dispute(outcome, amount);
        if r.is_ok() {
            match &mut self.records[i].dispute {
                Some(d) => {
                    d.status = DisputeStatus::Resolved;
                    d.resolution = Some(resolution);
                },
                None => {},
            }
            let event_id = self.records[i].channel.channel_id.clone();
            self.events.push(ChannelEvent::DisputeResolved { channel_id: event_id, outcome, amount });
        }
        proof {
            ChannelRegistry::lemma_replace(*old(self), *self, i as int);
            if r is Err {
                assert(self@ =~= old(self)@);
            }
        }
        r
    }
}

/// Whether a channel can be created, given whether its identifier is taken.
pub open spec fn create_verdict(taken: bool, initial_deposit: u64, duration: i64) -> Result<(), ChannelError> {
    if taken {
        Err(ChannelError::DuplicateChannel)
    } else if initial_deposit == 0 {
        Err(ChannelError::InvalidDeposit)
    } else if duration <= 0 {
        Err(ChannelError::InvalidDuration)
    } else {
        Ok(())
    }
}

/// Whether the record holds a dispute that is still open.
pub open spec fn has_open_dispute(rec: RecordView) -> bool {
    rec.dispute matches Some(d) && d.status == DisputeStatus::Open
}

/// `m` with the channel under `id` replaced by `c`, its payments and dispute
/// kept.
pub open spec fn with_channel(m: Map<Seq<char>, RecordView>, id: Seq<char>, c: Channel) -> Map<
    Seq<char>,
    RecordView,
> {
    m.insert(id, RecordView { channel: c, ..m[id] })
}

/// `a + b`, or `u64::MAX` when that overflows.
pub open spec fn sat_add(a: u64, b: u64) -> u64 {
    if a + b > u64::MAX {
        u64::MAX
    } else {
        (a + b) as u64
    }
}

} // verus!
