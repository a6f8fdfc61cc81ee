//! The stored form of a session, before it is sealed.
//!
//! ```text
//! byte 0          format version (1)
//! bytes 1..33     the peer's identity key
//! bytes 33..41    messages sent, little-endian
//! bytes 41..49    messages received, little-endian
//! bytes 49..57    number of chain marks, little-endian
//! 40 bytes each   a chain mark: ratchet key, then the next index, little-endian
//! the rest        the ratchet's own state
//! ```

use vstd::prelude::*;
use vstd::bytes::{
    lemma_auto_spec_u64_to_from_le_bytes, spec_u64_from_le_bytes, spec_u64_to_le_bytes,
    u64_from_le_bytes, u64_to_le_bytes,
};
use vstd::slice::{slice_subrange, slice_to_vec};
use vstd::array::array_as_slice;
use crate::bytes::{append_bytes, array32_from_slice};
use crate::ratchet::ChainMark;

verus! {

/// The version byte that opens a stored session.
pub const RECORD_VERSION: u8 = 1;

/// Length of the fixed part of a stored session.
pub const RECORD_HEADER_LEN: usize = 57;

/// What a session keeps besides the ratchet: the peer, the message counts
/// and the chain marks, together with the ratchet's own state as bytes.
#[derive(Debug)]
pub struct SessionRecord {
    /// The peer's identity key.
    pub peer_key: [u8; 32],
    /// Number of messages sent.
    pub messages_sent: u64,
    /// Number of messages received.
    pub messages_received: u64,
    /// How far each receiving chain has been read.
    pub marks: Vec<ChainMark>,
    /// The ratchet's own state.
    pub ratchet_state: Vec<u8>,
}

/// The stored form of the chain marks, 40 bytes each.
pub open spec fn marks_bytes(marks: Seq<ChainMark>) -> Seq<u8> {
    Seq::new(
        40 * marks.len(),
        |k: int|
            if k % 40 < 32 {
                marks[k / 40].ratchet_key@[k % 40]
            } else {
                spec_u64_to_le_bytes(marks[k / 40].next_index)[k % 40 - 32]
            },
    )
}

/// The stored form of a session.
pub open spec fn record_bytes(
    peer_key: Seq<u8>,
    sent: u64,
    received: u64,
    marks: Seq<ChainMark>,
    ratchet_state: Seq<u8>,
) -> Seq<u8> {
    seq![1u8] + peer_key + spec_u64_to_le_bytes(sent) + spec_u64_to_le_bytes(received)
        + spec_u64_to_le_bytes(marks.len() as u64) + marks_bytes(marks) + ratchet_state
}

/// The number of chain marks that a stored session announces.
pub open spec fn stored_count(bytes: Seq<u8>) -> u64 {
    spec_u64_from_le_bytes(bytes.subrange(49, 57))
}

/// Whether bytes have the shape of a stored session: the fixed part is
/// there, the version is known, and the announced marks fit.
pub open spec fn is_record(bytes: Seq<u8>) -> bool {
    &&& bytes.len() >= 57
    &&& bytes[0] == 1
    &&& stored_count(bytes) <= (bytes.len() - 57) / 40
}

/// The peer's identity key in a stored session.
pub open spec fn stored_peer_key(bytes: Seq<u8>) -> Seq<u8> {
    bytes.subrange(1, 33)
}

/// The number of messages sent in a stored session.
pub open spec fn stored_sent(bytes: Seq<u8>) -> u64 {
    spec_u64_from_le_bytes(bytes.subrange(33, 41))
}

/// The number of messages received in a stored session.
pub open spec fn stored_received(bytes: Seq<u8>) -> u64 {
    spec_u64_from_le_bytes(bytes.subrange(41, 49))
}

/// The ratchet key of the `i`-th chain mark in a stored session.
pub open spec fn stored_mark_key(bytes: Seq<u8>, i: int) -> Seq<u8> {
    bytes.subrange(57 + 40 * i, 57 + 40 * i + 32)
}

/// The next index of the `i`-th chain mark in a stored session.
pub open spec fn stored_mark_next(bytes: Seq<u8>, i: int) -> u64 {
    spec_u64_from_le_bytes(bytes.subrange(57 + 40 * i + 32, 57 + 40 * i + 40))
}

/// The ratchet's own state in a stored session.
pub open spec fn stored_ratchet_state(bytes: Seq<u8>) -> Seq<u8> {
    bytes.subrange(57 + 40 * stored_count(bytes), bytes.len() as int)
}

/// Whether a record is what the stored bytes say.
pub open spec fn matches_record(record: SessionRecord, bytes: Seq<u8>) -> bool {
    &&& record.peer_key@ == stored_peer_key(bytes)
    &&& record.messages_sent == stored_sent(bytes)
    &&& record.messages_received == stored_received(bytes)
    &&& record.marks@.len() == stored_count(bytes)
    &&& forall|i: int|
        0 <= i < record.marks@.len() ==> (#[trigger] record.marks@[i]).ratchet_key@
            == stored_mark_key(bytes, i) && record.marks@[i].next_index == stored_mark_next(bytes, i)
    &&& record.ratchet_state@ == stored_ratchet_state(bytes)
}

/// Reading undoes writing: the stored form of a session has the shape of a
/// stored session, and every part read from it is the part that was written.
pub proof fn lemma_record_round_trip(
    peer_key: Seq<u8>,
    sent: u64,
    received: u64,
    marks: Seq<ChainMark>,
    ratchet_state: Seq<u8>,
)
    requires
        peer_key.len() == 32,
        marks.len() <= u64::MAX,
    ensures
        ({
            let bytes = record_bytes(peer_key, sent, received, marks, ratchet_state);
            &&& is_record(bytes)
            &&& stored_peer_key(bytes) == peer_key
            &&& stored_sent(bytes) == sent
            &&& stored_received(bytes) == received
            &&& stored_count(bytes) == marks.len()
            &&& forall|i: int|
                0 <= i < marks.len() ==> stored_mark_key(bytes, i) == (#[trigger] marks[i]).ratchet_key@
                    && stored_mark_next(bytes, i) == marks[i].next_index
            &&& stored_ratchet_state(bytes) == ratchet_state
        }),
{
    lemma_auto_spec_u64_to_from_le_bytes();
    let bytes = record_bytes(peer_key, sent, received, marks, ratchet_state);
    let count = marks.len() as u64;
    assert(bytes.len() == 57 + 40 * marks.len() + ratchet_state.len());
    assert(bytes.subrange(1, 33) =~= peer_key);
    assert(bytes.subrange(33, 41) =~= spec_u64_to_le_bytes(sent));
    assert(bytes.subrange(41, 49) =~= spec_u64_to_le_bytes(received));
    assert(bytes.subrange(49, 57) =~= spec_u64_to_le_bytes(count));
    assert(stored_count(bytes) == count);
    assert(bytes.subrange(57 + 40 * (marks.len() as int), bytes.len() as int) =~= ratchet_state);
    assert forall|i: int| 0 <= i < marks.len() implies stored_mark_key(bytes, i) == (
    #[trigger] marks[i]).ratchet_key@ && stored_mark_next(bytes, i) == marks[i].next_index by {
        let key = stored_mark_key(bytes, i);
        assert forall|o: int| 0 <= o < 32 implies key[o] == marks[i].ratchet_key@[o] by {
            assert(key[o] == bytes[57 + 40 * i + o]);
            assert(bytes[57 + 40 * i + o] == marks_bytes(marks)[40 * i + o]);
            assert((40 * i + o) / 40 == i && (40 * i + o) % 40 == o);
        }
        assert(key =~= marks[i].ratchet_key@);
        let next = bytes.subrange(57 + 40 * i + 32, 57 + 40 * i + 40);
        let want = spec_u64_to_le_bytes(marks[i].next_index);
        assert forall|o: int| 0 <= o < 8 implies next[o] == want[o] by {
            assert(next[o] == bytes[57 + 40 * i + 32 + o]);
            assert(bytes[57 + 40 * i + 32 + o] == marks_bytes(marks)[40 * i + 32 + o]);
            assert((40 * i + 32 + o) / 40 == i && (40 * i + 32 + o) % 40 == 32 + o);
        }
        assert(next =~= want);
    }
}

/// Writes the stored form of a session.
pub fn encode_session_record(record: &SessionRecord) -> (bytes: Vec<u8>)
    ensures
        bytes@ == record_bytes(
            record.peer_key@,
            record.messages_sent,
            record.messages_received,
            record.marks@,
            record.ratchet_state@,
        ),
{
    proof {
        lemma_auto_spec_u64_to_from_le_bytes();
    }
    let mut bytes: Vec<u8> = Vec::new();
    bytes.push(RECORD_VERSION);
    append_bytes(&mut bytes, array_as_slice(&record.peer_key));
    append_bytes(&mut bytes, u64_to_le_bytes(record.messages_sent).as_slice());
    append_bytes(&mut bytes, u64_to_le_bytes(record.messages_received).as_slice());
    append_bytes(&mut bytes, u64_to_le_bytes(record.marks.len() as u64).as_slice());
    let ghost head = bytes@;
    assert(head =~= seq![1u8] + record.peer_key@ + spec_u64_to_le_bytes(record.messages_sent)
        + spec_u64_to_le_bytes(record.messages_received) + spec_u64_to_le_bytes(
        record.marks@.len() as u64,
    ));
    let mut i: usize = 0;
    while i < record.marks.len()
        invariant
            i <= record.marks@.len(),
            bytes@ == head + marks_bytes(record.marks@.subrange(0, i as int)),
        decreases record.marks@.len() - i,
    {
        let mark = &record.marks[i];
        let ghost before = bytes@;
        let next = u64_to_le_bytes(mark.next_index);
        append_bytes(&mut bytes, array_as_slice(&mark.ratchet_key));
        append_bytes(&mut bytes, next.as_slice());
        proof {
            let done = record.marks@.subrange(0, i as int);
            let more = record.marks@.subrange(0, i + 1);
            let grown = marks_bytes(done) + mark.ratchet_key@ + next@;
            assert forall|k: int| 0 <= k < 40 * (i + 1) implies grown[k] == marks_bytes(more)[k] by {
                if k < 40 * i {
                    assert(more[k / 40] == done[k / 40]);
                } else {
                    assert(k / 40 == i && k % 40 == k - 40 * i);
                    assert(more[i as int] == *mark);
                }
            }
            assert(grown =~= marks_bytes(more));
            assert(bytes@ =~= head + marks_bytes(more));
        }
        i += 1;
    }
    assert(record.marks@.subrange(0, i as int) =~= record.marks@);
    append_bytes(&mut bytes, record.ratchet_state.as_slice());
    bytes
}

/// Reads the stored form of a session; `None` where the bytes do not have
/// its shape.
pub fn decode_session_record(bytes: &[u8]) -> (record: Option<SessionRecord>)
    ensures
        record is Some <==> is_record(bytes@),
        record is Some ==> matches_record(record->0, bytes@),
{
    if bytes.len() < RECORD_HEADER_LEN {
        return None;
    }
    if bytes[0] != RECORD_VERSION {
        return None;
    }
    let peer_key = array32_from_slice(slice_subrange(bytes, 1, 33)).unwrap();
    let messages_sent = u64_from_le_bytes(slice_subrange(bytes, 33, 41));
    let messages_received = u64_from_le_bytes(slice_subrange(bytes, 41, 49));
    let count = u64_from_le_bytes(slice_subrange(bytes, 49, 57));
    let room: usize = (bytes.len() - 57) / 40;
    if count > room as u64 {
        return None;
    }
    let count: usize = count as usize;
    let total: usize = bytes.len();
    assert(57 + 40 * count <= total);
    let mut marks: Vec<ChainMark> = Vec::new();
    let mut i: usize = 0;
    while i < count
        invariant
            i <= count,
            total == bytes@.len(),
            57 + 40 * count <= total,
            marks@.len() == i,
            forall|k: int|
                0 <= k < i ==> (#[trigger] marks@[k]).ratchet_key@ == stored_mark_key(bytes@, k)
                    && marks@[k].next_index == stored_mark_next(bytes@, k),
        decreases count - i,
    {
                let at: usize = 57 + 40 * i;
        let ratchet_key = array32_from_slice(slice_subrange(bytes, at, at + 32)).unwrap();
        let next_index = u64_from_le_bytes(slice_subrange(bytes, at + 32, at + 40));
        marks.push(ChainMark { ratchet_key, next_index });
        i += 1;
    }
    let rest = slice_subrange(bytes, 57 + 40 * count, bytes.len());
    Some(
        SessionRecord {
            peer_key,
            messages_sent,
            messages_received,
            marks,
            ratchet_state: slice_to_vec(rest),
        },
    )
}

} // verus!
