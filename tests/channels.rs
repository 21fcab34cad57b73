use micropayment_channels::digest::{payment_digest, state_digest, CHALLENGE_TAG, PAYMENT_TAG, UPDATE_TAG};
use micropayment_channels::registry::{ChannelEvent, ChannelRegistry};
use micropayment_channels::{
    Channel, ChannelError, ChannelStatus, DisputeEvidence, DisputeOutcome, DisputeResolution,
    DisputeStatus, EvidenceType, Payment, Pubkey, ServiceData, ServiceType, Settlement,
    CHALLENGE_PERIOD,
};
use sha2::{Digest, Sha256};

const USER: Pubkey = Pubkey([1u8; 32]);
const OPERATOR: Pubkey = Pubkey([2u8; 32]);
const AUTHORITY: Pubkey = Pubkey([9u8; 32]);

fn service() -> ServiceData {
    ServiceData { service_type: ServiceType::DataTransfer, data_amount: 4096, quality_score: 90, duration: 60 }
}

fn evidence() -> DisputeEvidence {
    DisputeEvidence {
        evidence_type: EvidenceType::ServiceLog,
        description: "no data delivered".to_string(),
        data_hash: [7u8; 32],
        timestamp: 10,
    }
}

fn resolution(outcome: DisputeOutcome, amount: u64) -> DisputeResolution {
    DisputeResolution { outcome, amount, reasoning: "reviewed".to_string() }
}

/// A registry holding the channel "ch" of 1000 that expires at 3600.
fn registry() -> ChannelRegistry {
    let mut reg = ChannelRegistry::initialize(AUTHORITY);
    reg.create_channel("ch".to_string(), USER, OPERATOR, 1000, 3600, 0).unwrap();
    reg
}

fn channel(reg: &ChannelRegistry) -> Channel {
    reg.get_channel("ch").unwrap()
}

#[test]
fn scenario_single_payment() {
    let mut reg = registry();
    let p = reg.make_payment("ch", 100, service(), true, 10).unwrap();
    assert_eq!(p, Payment { amount: 100, service_data: service(), timestamp: 10, sequence_number: 1 });
    let c = channel(&reg);
    assert_eq!(c.current_balance, 900);
    assert_eq!(c.total_spent, 100);
    assert_eq!(c.sequence_number, 1);
    assert_eq!(c.last_update, 10);
    assert_eq!(reg.payments("ch").unwrap(), vec![p]);
    assert_eq!(reg.total_volume(), 100);
}

#[test]
fn scenario_two_payments_then_overdraft() {
    let mut reg = registry();
    reg.make_payment("ch", 100, service(), true, 10).unwrap();
    reg.make_payment("ch", 100, service(), true, 20).unwrap();
    let c = channel(&reg);
    assert_eq!(c.sequence_number, 2);
    assert_eq!(c.current_balance, 800);
    assert_eq!(c.total_spent, 200);
    assert_eq!(reg.make_payment("ch", 900, service(), true, 30), Err(ChannelError::InsufficientBalance));
    let c = channel(&reg);
    assert_eq!((c.sequence_number, c.current_balance, c.total_spent), (2, 800, 200));
}

#[test]
fn scenario_unilateral_close() {
    let mut reg = registry();
    reg.make_payment("ch", 300, service(), true, 10).unwrap();
    assert_eq!(reg.close_channel("ch", None, 100), Ok(None));
    let c = channel(&reg);
    assert_eq!(c.status, ChannelStatus::Closing);
    assert_eq!(c.challenge_expires_at, Some(100 + CHALLENGE_PERIOD));
    assert_eq!(reg.finalize_close("ch", 100 + CHALLENGE_PERIOD - 1), Err(ChannelError::ChallengePeriodNotExpired));
    assert_eq!(
        reg.finalize_close("ch", 100 + CHALLENGE_PERIOD),
        Ok(Settlement { to_user: 700, to_node_operator: 300 })
    );
    assert_eq!(channel(&reg).status, ChannelStatus::Closed);
}

#[test]
fn scenario_dispute_favoring_user() {
    let mut reg = registry();
    reg.make_payment("ch", 100, service(), true, 10).unwrap();
    assert_eq!(reg.dispute_transaction("ch", 1, evidence(), 20), Ok(()));
    assert_eq!(channel(&reg).status, ChannelStatus::Disputed);
    assert_eq!(reg.dispute_status("ch"), Ok(Some(DisputeStatus::Open)));
    assert_eq!(reg.make_payment("ch", 10, service(), true, 30), Err(ChannelError::ChannelNotActive));
    assert_eq!(reg.resolve_dispute("ch", AUTHORITY, resolution(DisputeOutcome::FavorUser, 50)), Ok(()));
    let c = channel(&reg);
    assert_eq!(c.status, ChannelStatus::Active);
    assert_eq!(c.current_balance, 950);
    assert_eq!(c.total_spent, 50);
    assert_eq!(reg.dispute_status("ch"), Ok(Some(DisputeStatus::Resolved)));
}

#[test]
fn scenario_update_rejections() {
    let mut reg = registry();
    reg.make_payment("ch", 100, service(), true, 10).unwrap();
    assert_eq!(reg.update_channel("ch", 500, 1, true, 20), Err(ChannelError::InvalidSequence));
    assert_eq!(reg.update_channel("ch", 1001, 2, true, 20), Err(ChannelError::InvalidBalance));
    assert_eq!(reg.update_channel("ch", 600, 5, true, 20), Ok(()));
    let c = channel(&reg);
    assert_eq!((c.current_balance, c.total_spent, c.sequence_number, c.last_update), (600, 400, 5, 20));
}

#[test]
fn create_errors() {
    let mut reg = registry();
    assert_eq!(reg.create_channel("ch".to_string(), USER, OPERATOR, 5, 10, 0), Err(ChannelError::DuplicateChannel));
    assert_eq!(reg.create_channel("b".to_string(), USER, OPERATOR, 0, 10, 0), Err(ChannelError::InvalidDeposit));
    assert_eq!(reg.create_channel("b".to_string(), USER, OPERATOR, 5, 0, 0), Err(ChannelError::InvalidDuration));
    assert_eq!(reg.create_channel("b".to_string(), USER, OPERATOR, 5, -3, 0), Err(ChannelError::InvalidDuration));
    assert_eq!(reg.total_channels(), 1);
    assert_eq!(reg.create_channel("b".to_string(), USER, OPERATOR, 5, 10, 7), Ok(()));
    assert_eq!(reg.total_channels(), 2);
    let b = reg.get_channel("b").unwrap();
    assert_eq!((b.created_at, b.expires_at, b.challenge_period), (7, 17, 3600));
    assert!(b.user == USER && b.node_operator == OPERATOR);
    assert!(reg.get_channel("missing").is_err());
    assert_eq!(reg.make_payment("missing", 1, service(), true, 0), Err(ChannelError::NotFound));
}

#[test]
fn payment_errors_in_order() {
    let mut reg = registry();
    assert_eq!(reg.make_payment("ch", 0, service(), true, 3600), Err(ChannelError::ChannelExpired));
    assert_eq!(reg.make_payment("ch", 0, service(), false, 10), Err(ChannelError::InvalidAmount));
    assert_eq!(reg.make_payment("ch", 1001, service(), false, 10), Err(ChannelError::InsufficientBalance));
    assert_eq!(reg.make_payment("ch", 1000, service(), false, 10), Err(ChannelError::InvalidSignature));
    assert_eq!(reg.make_payment("ch", 1000, service(), true, 3599).map(|p| p.sequence_number), Ok(1));
    assert_eq!(channel(&reg).current_balance, 0);
}

#[test]
fn expired_payment_fails_even_when_valid() {
    let mut reg = registry();
    for now in [3600i64, 3601, 100_000] {
        assert_eq!(reg.make_payment("ch", 10, service(), true, now), Err(ChannelError::ChannelExpired));
    }
    assert_eq!(channel(&reg).sequence_number, 0);
}

#[test]
fn cooperative_close() {
    let mut reg = registry();
    reg.make_payment("ch", 250, service(), true, 10).unwrap();
    assert_eq!(reg.close_channel("ch", Some(false), 20), Err(ChannelError::InvalidSignature));
    assert_eq!(channel(&reg).status, ChannelStatus::Active);
    assert_eq!(
        reg.close_channel("ch", Some(true), 20),
        Ok(Some(Settlement { to_user: 750, to_node_operator: 250 }))
    );
    assert_eq!(channel(&reg).status, ChannelStatus::Closed);
    assert_eq!(reg.close_channel("ch", Some(true), 30), Err(ChannelError::ChannelNotCloseable));
}

#[test]
fn closed_channel_rejects_everything() {
    let mut reg = registry();
    reg.close_channel("ch", Some(true), 5).unwrap();
    assert_eq!(reg.make_payment("ch", 1, service(), true, 6), Err(ChannelError::ChannelNotActive));
    assert_eq!(reg.update_channel("ch", 1, 9, true, 6), Err(ChannelError::ChannelNotActive));
    assert_eq!(reg.close_channel("ch", None, 6), Err(ChannelError::ChannelNotCloseable));
    assert_eq!(reg.challenge_close("ch", 9, 1, true, 6), Err(ChannelError::NotInChallengePeriod));
    assert_eq!(reg.finalize_close("ch", 6), Err(ChannelError::NotInChallengePeriod));
    assert_eq!(reg.dispute_transaction("ch", 1, evidence(), 6), Err(ChannelError::ChannelNotActive));
    assert_eq!(reg.resolve_dispute("ch", AUTHORITY, resolution(DisputeOutcome::FavorUser, 0)), Err(ChannelError::DisputeNotOpen));
    assert_eq!(channel(&reg).status, ChannelStatus::Closed);
}

#[test]
fn challenge_window() {
    let mut reg = registry();
    reg.make_payment("ch", 100, service(), true, 10).unwrap();
    assert_eq!(reg.challenge_close("ch", 5, 500, true, 20), Err(ChannelError::NotInChallengePeriod));
    reg.close_channel("ch", None, 1000).unwrap();
    let deadline = 1000 + CHALLENGE_PERIOD;
    assert_eq!(reg.challenge_close("ch", 1, 500, true, 1001), Err(ChannelError::InvalidSequence));
    assert_eq!(reg.challenge_close("ch", 5, 1001, true, 1001), Err(ChannelError::InvalidBalance));
    assert_eq!(reg.challenge_close("ch", 5, 500, false, 1001), Err(ChannelError::InvalidSignature));
    assert_eq!(reg.challenge_close("ch", 5, 500, true, 1001), Ok(()));
    let c = channel(&reg);
    assert_eq!((c.sequence_number, c.current_balance, c.total_spent), (5, 500, 500));
    assert_eq!(c.challenge_expires_at, Some(deadline));
    assert_eq!(reg.challenge_close("ch", 6, 400, true, deadline), Err(ChannelError::ChallengePeriodExpired));
    assert_eq!(reg.finalize_close("ch", deadline), Ok(Settlement { to_user: 500, to_node_operator: 500 }));
}

#[test]
fn dispute_outcomes_and_guards() {
    let mut reg = registry();
    reg.make_payment("ch", 200, service(), true, 10).unwrap();
    assert_eq!(reg.resolve_dispute("ch", AUTHORITY, resolution(DisputeOutcome::FavorUser, 1)), Err(ChannelError::DisputeNotOpen));
    reg.dispute_transaction("ch", 1, evidence(), 20).unwrap();
    assert_eq!(reg.dispute_transaction("ch", 1, evidence(), 21), Err(ChannelError::ChannelNotActive));
    assert_eq!(reg.resolve_dispute("ch", USER, resolution(DisputeOutcome::FavorUser, 1)), Err(ChannelError::Unauthorized));
    assert_eq!(reg.resolve_dispute("ch", AUTHORITY, resolution(DisputeOutcome::FavorUser, 201)), Err(ChannelError::InvalidAmount));
    assert_eq!(reg.resolve_dispute("ch", AUTHORITY, resolution(DisputeOutcome::PartialRefund, 51)), Ok(()));
    let c = channel(&reg);
    assert_eq!((c.current_balance, c.total_spent, c.status), (825, 175, ChannelStatus::Active));
    reg.dispute_transaction("ch", 1, evidence(), 30).unwrap();
    assert_eq!(reg.resolve_dispute("ch", AUTHORITY, resolution(DisputeOutcome::FavorOperator, 100)), Ok(()));
    let c = channel(&reg);
    assert_eq!((c.current_balance, c.total_spent, c.status), (825, 175, ChannelStatus::Active));
}

#[test]
fn disputed_channel_can_close() {
    let mut reg = registry();
    reg.make_payment("ch", 100, service(), true, 10).unwrap();
    reg.dispute_transaction("ch", 1, evidence(), 20).unwrap();
    assert_eq!(reg.close_channel("ch", None, 30), Ok(None));
    assert_eq!(channel(&reg).status, ChannelStatus::Closing);
    assert_eq!(reg.resolve_dispute("ch", AUTHORITY, resolution(DisputeOutcome::FavorUser, 10)), Err(ChannelError::DisputeNotOpen));
}

#[test]
fn conservation_over_a_session() {
    let mut reg = registry();
    let _ = reg.make_payment("ch", 120, service(), true, 1);
    let _ = reg.update_channel("ch", 700, 4, true, 2);
    let _ = reg.dispute_transaction("ch", 4, evidence(), 3);
    let _ = reg.resolve_dispute("ch", AUTHORITY, resolution(DisputeOutcome::PartialRefund, 100));
    let _ = reg.make_payment("ch", 30, service(), true, 4);
    let _ = reg.close_channel("ch", None, 5);
    let _ = reg.challenge_close("ch", 9, 640, true, 6);
    let c = channel(&reg);
    assert_eq!(c.current_balance + c.total_spent, c.initial_deposit);
    assert_eq!(c.sequence_number, 9);
}

#[test]
fn sequence_numbers_strictly_increase() {
    let mut reg = registry();
    let mut last = 0;
    for (i, amount) in [5u64, 7, 11].iter().enumerate() {
        let p = reg.make_payment("ch", *amount, service(), true, i as i64).unwrap();
        assert!(p.sequence_number > last);
        last = p.sequence_number;
    }
    reg.update_channel("ch", 900, 10, true, 5).unwrap();
    assert_eq!(reg.update_channel("ch", 900, 10, true, 6), Err(ChannelError::InvalidSequence));
    assert_eq!(reg.update_channel("ch", 900, 3, true, 6), Err(ChannelError::InvalidSequence));
    assert_eq!(reg.make_payment("ch", 1, service(), true, 7).unwrap().sequence_number, 11);
}

#[test]
fn events_are_logged_in_order() {
    let mut reg = registry();
    reg.make_payment("ch", 100, service(), true, 10).unwrap();
    let _ = reg.make_payment("ch", 0, service(), true, 11);
    reg.close_channel("ch", None, 20).unwrap();
    reg.finalize_close("ch", 20 + CHALLENGE_PERIOD).unwrap();
    let events = reg.events();
    assert_eq!(events.len(), 4);
    assert!(matches!(&events[0], ChannelEvent::ChannelCreated { channel_id, initial_deposit: 1000, expires_at: 3600, .. } if channel_id == "ch"));
    assert!(matches!(&events[1], ChannelEvent::PaymentMade { amount: 100, sequence_number: 1, .. }));
    assert!(matches!(&events[2], ChannelEvent::ChannelClosing { challenge_expires_at, .. } if *challenge_expires_at == 20 + CHALLENGE_PERIOD));
    assert!(matches!(&events[3], ChannelEvent::ChannelClosed { final_user_balance: 900, final_operator_earnings: 100, .. }));
}

fn expected_message(tag: u8, id: &str, fields: &[u64]) -> Vec<u8> {
    let mut m = vec![tag];
    m.extend_from_slice(&(id.len() as u64).to_be_bytes());
    m.extend_from_slice(id.as_bytes());
    for f in fields {
        m.extend_from_slice(&f.to_be_bytes());
    }
    m
}

#[test]
fn payment_digest_is_sha256_of_the_message() {
    let d = payment_digest("ch", 100, service(), 1);
    let msg = expected_message(PAYMENT_TAG, "ch", &[100, 0, 4096, 90, 60, 1]);
    assert_eq!(d.len(), 32);
    assert_eq!(d, Sha256::digest(&msg).to_vec());
    assert_ne!(d, msg);
}

#[test]
fn state_digests_bind_sequence_and_operation() {
    let a = state_digest(UPDATE_TAG, "ch", 500, 2);
    assert_eq!(a, Sha256::digest(expected_message(UPDATE_TAG, "ch", &[500, 2])).to_vec());
    assert_ne!(a, state_digest(UPDATE_TAG, "ch", 500, 3));
    assert_ne!(a, state_digest(CHALLENGE_TAG, "ch", 500, 2));
    assert_ne!(a, state_digest(UPDATE_TAG, "ci", 500, 2));
}

#[test]
fn check_create_gives_the_create_verdict() {
    let reg = registry();
    assert_eq!(reg.check_create("ch", 5, 10), Err(ChannelError::DuplicateChannel));
    assert_eq!(reg.check_create("b", 0, 10), Err(ChannelError::InvalidDeposit));
    assert_eq!(reg.check_create("b", 5, 0), Err(ChannelError::InvalidDuration));
    assert_eq!(reg.check_create("b", 5, 10), Ok(()));
    assert_eq!(reg.total_channels(), 1);
}
