use vstd::prelude::*;

use crate::types::{ServiceData, ServiceType};
use sha2::Digest;
use vstd::string::{StrSliceExecFns, StringSliceAdditionalSpecFns};

verus! {

/// The SHA-256 digest of `data`.
pub uninterp spec fn sha256_of(data: Seq<u8>) -> Seq<u8>;

/// Relies on sha2's `Sha256::digest`: the 32-byte SHA-256 digest of the
/// bytes, which depends on the bytes alone.
#[verifier::external_body]
fn sha256(data: &Vec<u8>) -> (r: Vec<u8>)
    ensures
        r@ == sha256_of(data@),
        r@.len() == 32,
{
    sha2::Sha256::digest(data.as_slice()).to_vec()
}

/// The eight big-endian bytes of `v`.
pub open spec fn be_bytes(v: u64) -> Seq<u8> {
    seq![
        (v >> 56u64) as u8,
        (v >> 48u64) as u8,
        (v >> 40u64) as u8,
        (v >> 32u64) as u8,
        (v >> 24u64) as u8,
        (v >> 16u64) as u8,
        (v >> 8u64) as u8,
        v as u8,
    ]
}

/// Distinct integers have distinct encodings.
pub proof fn lemma_be_bytes_injective(a: u64, b: u64)
    requires
        be_bytes(a) == be_bytes(b),
    ensures
        a == b,
{
    assert(be_bytes(a)[0] == be_bytes(b)[0]);
    assert(be_bytes(a)[1] == be_bytes(b)[1]);
    assert(be_bytes(a)[2] == be_bytes(b)[2]);
    assert(be_bytes(a)[3] == be_bytes(b)[3]);
    assert(be_bytes(a)[4] == be_bytes(b)[4]);
    assert(be_bytes(a)[5] == be_bytes(b)[5]);
    assert(be_bytes(a)[6] == be_bytes(b)[6]);
    assert(be_bytes(a)[7] == be_bytes(b)[7]);
    assert(a == b) by (bit_vector)
        requires
            (a >> 56u64) as u8 == (b >> 56u64) as u8,
            (a >> 48u64) as u8 == (b >> 48u64) as u8,
            (a >> 40u64) as u8 == (b >> 40u64) as u8,
            (a >> 32u64) as u8 == (b >> 32u64) as u8,
            (a >> 24u64) as u8 == (b >> 24u64) as u8,
            (a >> 16u64) as u8 == (b >> 16u64) as u8,
            (a >> 8u64) as u8 == (b >> 8u64) as u8,
            a as u8 == b as u8,
    ;
}

fn push_u64(out: &mut Vec<u8>, v: u64)
    ensures
        final(out)@ == old(out)@ + be_bytes(v),
{
    out.push((v >> 56u64) as u8);
    out.push((v >> 48u64) as u8);
    out.push((v >> 40u64) as u8);
    out.push((v >> 32u64) as u8);
    out.push((v >> 24u64) as u8);
    out.push((v >> 16u64) as u8);
    out.push((v >> 8u64) as u8);
    out.push(v as u8);
    assert(final(out)@ =~= old(out)@ + be_bytes(v));
}

/// Domain tags that keep the messages of different operations apart.
pub const PAYMENT_TAG: u8 = 1;
pub const UPDATE_TAG: u8 = 2;
pub const CLOSE_TAG: u8 = 3;
pub const CHALLENGE_TAG: u8 = 4;

/// A message: its tag, the length-prefixed channel identifier, then each
/// committed field in big-endian order.
pub open spec fn message(tag: u8, id: Seq<u8>, fields: Seq<u64>) -> Seq<u8>
    decreases fields.len(),
{
    if fields.len() == 0 {
        seq![tag] + be_bytes(id.len() as u64) + id
    } else {
        message(tag, id, fields.drop_last()) + be_bytes(fields.last())
    }
}

pub open spec fn service_code(t: ServiceType) -> u64 {
    match t {
        ServiceType::DataTransfer => 0,
        ServiceType::VoiceCall => 1,
        ServiceType::VideoStream => 2,
        ServiceType::WebBrowsing => 3,
        ServiceType::FileDownload => 4,
    }
}

pub open spec fn payment_fields(amount: u64, service_data: ServiceData, sequence_number: u64) -> Seq<u64> {
    seq![
        amount,
        service_code(service_data.service_type),
        service_data.data_amount,
        service_data.quality_score as u64,
        service_data.duration as u64,
        sequence_number,
    ]
}

fn encode(tag: u8, id: &str, fields: &Vec<u64>) -> (r: Vec<u8>)
    requires
        id.spec_bytes().len() <= u64::MAX,
    ensures
        r@ == message(tag, id.spec_bytes(), fields@),
{
    let mut out: Vec<u8> = Vec::new();
    out.push(tag);
    let bytes = id.as_bytes_vec();
    let n = bytes.len();
    push_u64(&mut out, n as u64);
    let mut k: usize = 0;
    while k < bytes.len()
        invariant
            k <= bytes@.len(),
            bytes@ == id.spec_bytes(),
            n == bytes@.len(),
            out@ == seq![tag] + be_bytes(n as u64) + bytes@.subrange(0, k as int),
        decreases bytes@.len() - k,
    {
        out.push(bytes[k]);
        k = k + 1;
        assert(out@ =~= seq![tag] + be_bytes(n as u64) + bytes@.subrange(0, k as int));
    }
    assert(bytes@.subrange(0, k as int) =~= bytes@);
    let mut j: usize = 0;
    while j < fields.len()
        invariant
            j <= fields@.len(),
            out@ == message(tag, id.spec_bytes(), fields@.subrange(0, j as int)),
        decreases fields@.len() - j,
    {
        push_u64(&mut out, fields[j]);
        j = j + 1;
        assert(fields@.subrange(0, j as int).drop_last() =~= fields@.subrange(0, j as int - 1));
    }
    assert(fields@.subrange(0, j as int) =~= fields@);
    out
}

/// The digest a payer signs to authorise a payment of `amount` for
/// `service_data` at `sequence_number` on the channel `channel_id`.
pub fn payment_digest(channel_id: &str, amount: u64, service_data: ServiceData, sequence_number: u64) -> (r:
    Vec<u8>)
    requires
        channel_id.spec_bytes().len() <= u64::MAX,
    ensures
        r@ == sha256_of(
            message(
                PAYMENT_TAG,
                channel_id.spec_bytes(),
                payment_fields(amount, service_data, sequence_number),
            ),
        ),
{
    let code: u64 = match service_data.service_type {
        ServiceType::DataTransfer => 0,
        ServiceType::VoiceCall => 1,
        ServiceType::VideoStream => 2,
        ServiceType::WebBrowsing => 3,
        ServiceType::FileDownload => 4,
    };
    let fields = vec![
        amount,
        code,
        service_data.data_amount,
        service_data.quality_score as u64,
        service_data.duration as u64,
        sequence_number,
    ];
    assert(fields@ =~= payment_fields(amount, service_data, sequence_number));
    sha256(&encode(PAYMENT_TAG, channel_id, &fields))
}

/// The digest both parties sign to move the channel `channel_id` to
/// `balance` at `sequence_number` (`UPDATE_TAG` for an update,
/// `CHALLENGE_TAG` for a challenge, `CLOSE_TAG` for a cooperative close).
pub fn state_digest(tag: u8, channel_id: &str, balance: u64, sequence_number: u64) -> (r: Vec<u8>)
    requires
        channel_id.spec_bytes().len() <= u64::MAX,
    ensures
        r@ == sha256_of(message(tag, channel_id.spec_bytes(), seq![balance, sequence_number])),
{
    let fields = vec![balance, sequence_number];
    assert(fields@ =~= seq![balance, sequence_number]);
    sha256(&encode(tag, channel_id, &fields))
}

/// Replay protection: two signed states of one channel whose messages agree
/// carry the same sequence number and the same balance, so a signature over
/// one sequence number never stands for another.
pub proof fn lemma_state_message_binds(tag: u8, id: Seq<u8>, b1: u64, s1: u64, b2: u64, s2: u64)
    requires
        message(tag, id, seq![b1, s1]) == message(tag, id, seq![b2, s2]),
    ensures
        s1 == s2,
        b1 == b2,
{
    let f1 = seq![b1, s1];
    let f2 = seq![b2, s2];
    let m1 = message(tag, id, f1);
    let m2 = message(tag, id, f2);
    let head = seq![tag] + be_bytes(id.len() as u64) + id;
    lemma_message_len_split(tag, id, f1);
    lemma_message_len_split(tag, id, f2);
    let n = head.len() as int;
    assert(be_bytes(f1[0]) == m1.subrange(n, n + 8));
    assert(be_bytes(f2[0]) == m2.subrange(n, n + 8));
    assert(be_bytes(f1[1]) == m1.subrange(n + 8, n + 16));
    assert(be_bytes(f2[1]) == m2.subrange(n + 8, n + 16));
    lemma_be_bytes_injective(b1, b2);
    lemma_be_bytes_injective(s1, s2);
}

/// Replay protection for payments: payer signatures over messages that agree
/// commit to the same amount and the same sequence number.
pub proof fn lemma_payment_message_binds(
    id: Seq<u8>,
    a1: u64,
    d1: ServiceData,
    s1: u64,
    a2: u64,
    d2: ServiceData,
    s2: u64,
)
    requires
        message(PAYMENT_TAG, id, payment_fields(a1, d1, s1)) == message(
            PAYMENT_TAG,
            id,
            payment_fields(a2, d2, s2),
        ),
    ensures
        s1 == s2,
        a1 == a2,
{
    let f1 = payment_fields(a1, d1, s1);
    let f2 = payment_fields(a2, d2, s2);
    let m1 = message(PAYMENT_TAG, id, f1);
    let m2 = message(PAYMENT_TAG, id, f2);
    let head = seq![PAYMENT_TAG] + be_bytes(id.len() as u64) + id;
    lemma_message_len_split(PAYMENT_TAG, id, f1);
    lemma_message_len_split(PAYMENT_TAG, id, f2);
    let n = head.len() as int;
    assert(be_bytes(f1[0]) == m1.subrange(n, n + 8));
    assert(be_bytes(f2[0]) == m2.subrange(n, n + 8));
    assert(be_bytes(f1[5]) == m1.subrange(n + 40, n + 48));
    assert(be_bytes(f2[5]) == m2.subrange(n + 40, n + 48));
    lemma_be_bytes_injective(a1, a2);
    lemma_be_bytes_injective(s1, s2);
}

/// The message holds the head, then field `i` at bytes `8 * i` after it.
proof fn lemma_message_len_split(tag: u8, id: Seq<u8>, fields: Seq<u64>)
    ensures
        ({
            let head = seq![tag] + be_bytes(id.len() as u64) + id;
            &&& message(tag, id, fields).len() == head.len() + 8 * fields.len()
            &&& message(tag, id, fields).subrange(0, head.len() as int) == head
            &&& forall|i: int|
                0 <= i < fields.len() ==> message(tag, id, fields).subrange(
                    head.len() + 8 * i,
                    head.len() + 8 * i + 8,
                ) == be_bytes(#[trigger] fields[i])
        }),
    decreases fields.len(),
{
    let head = seq![tag] + be_bytes(id.len() as u64) + id;
    if fields.len() == 0 {
        assert(message(tag, id, fields).subrange(0, head.len() as int) =~= head);
    } else {
        let rest = fields.drop_last();
        lemma_message_len_split(tag, id, rest);
        let m = message(tag, id, fields);
        let mr = message(tag, id, rest);
        assert(m == mr + be_bytes(fields.last()));
        assert(m.subrange(0, head.len() as int) =~= mr.subrange(0, head.len() as int));
        assert forall|i: int| 0 <= i < fields.len() implies m.subrange(
            head.len() + 8 * i,
            head.len() + 8 * i + 8,
        ) == be_bytes(#[trigger] fields[i]) by {
            if i < rest.len() {
                assert(rest[i] == fields[i]);
                assert(m.subrange(head.len() + 8 * i, head.len() + 8 * i + 8) =~= mr.subrange(
                    head.len() + 8 * i,
                    head.len() + 8 * i + 8,
                ));
            } else {
                assert(m.subrange(head.len() + 8 * i, head.len() + 8 * i + 8) =~= be_bytes(
                    fields.last(),
                ));
            }
        }
    }
}

} // verus!
