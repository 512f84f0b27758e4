//! Decoding of RLP-encoded EVM log entries.

use vstd::prelude::*;

verus! {

/// What the RLP decoder yields for the item at `index` of the list that
/// `data` encodes, read as a byte string; `None` when it reports an error.
pub uninterp spec fn rlp_value_at(data: Seq<u8>, index: int) -> Option<Seq<u8>>;

/// What the RLP decoder yields for the item at `index` of the list that
/// `data` encodes, read as a list of byte strings; `None` when it reports an
/// error.
pub uninterp spec fn rlp_list_at(data: Seq<u8>, index: int) -> Option<Seq<Seq<u8>>>;

/// The views of a sequence of byte vectors.
pub open spec fn byte_vec_views(v: Seq<Vec<u8>>) -> Seq<Seq<u8>> {
    v.map_values(|b: Vec<u8>| b@)
}

/// rlp's `Rlp::new(data).val_at::<Vec<u8>>(index)`: the byte string at
/// `index` of the encoded list, `None` where the decoder reports an error.
/// Nothing is stated of which inputs decode: that is the RLP format, kept to
/// the name.
#[verifier::external_body]
fn rlp_val_at_bytes(data: &[u8], index: usize) -> (r: Option<Vec<u8>>)
    ensures
        match r {
            Some(v) => rlp_value_at(data@, index as int) == Some(v@),
            None => rlp_value_at(data@, index as int) is None,
        },
{
    rlp::Rlp::new(data).val_at::<Vec<u8>>(index).ok()
}

/// rlp's `Rlp::new(data).list_at::<Vec<u8>>(index)`: the byte strings that
/// the decoder's iterator yields for the list at `index` of the encoded list,
/// in order (the iterator stops at the first item it cannot locate), `None`
/// where the decoder reports an error.
#[verifier::external_body]
fn rlp_list_at_bytes(data: &[u8], index: usize) -> (r: Option<Vec<Vec<u8>>>)
    ensures
        match r {
            Some(v) => rlp_list_at(data@, index as int) == Some(byte_vec_views(v@)),
            None => rlp_list_at(data@, index as int) is None,
        },
{
    rlp::Rlp::new(data).list_at::<Vec<u8>>(index).ok()
}

/// An EVM log entry: the emitting contract, the indexed topics and the data.
#[derive(Clone, Debug)]
pub struct LogEntry {
    pub address: [u8; 20],
    pub topics: Vec<[u8; 32]>,
    pub data: Vec<u8>,
}

/// The log entry made of the three items that the decoder reads: an
/// address of 20 bytes, topics of 32 bytes each, and the data; `None` when a
/// length is wrong.
pub open spec fn spec_log_from_parts(
    address: Seq<u8>,
    topics: Seq<Seq<u8>>,
    log_data: Seq<u8>,
) -> Option<(Seq<u8>, Seq<Seq<u8>>, Seq<u8>)> {
    if address.len() == 20 && (forall|i: int| 0 <= i < topics.len() ==> #[trigger] topics[i].len() == 32) {
        Some((address, topics, log_data))
    } else {
        None
    }
}

/// The log entry that `data` RLP-encodes, as address, topics and data:
/// the list's first item read as a 20-byte address, its second as a list of
/// 32-byte topics, its third as bytes; `None` when any of them fails to
/// decode or has the wrong length.
pub open spec fn spec_log_entry(data: Seq<u8>) -> Option<(Seq<u8>, Seq<Seq<u8>>, Seq<u8>)> {
    match (rlp_value_at(data, 0), rlp_list_at(data, 1), rlp_value_at(data, 2)) {
        (Some(address), Some(topics), Some(log_data)) => spec_log_from_parts(address, topics, log_data),
        _ => None,
    }
}

/// The nonce that a 32-byte topic holds: its last four bytes, big endian.
pub open spec fn nonce_of(topic: Seq<u8>) -> u32 {
    (topic[28] as nat * 16777216 + topic[29] as nat * 65536 + topic[30] as nat * 256
        + topic[31] as nat) as u32
}

/// The bytes of a 20-byte vector as an array.
fn to_array20(v: &Vec<u8>) -> (r: [u8; 20])
    requires
        v@.len() == 20,
    ensures
        r@ == v@,
{
    let mut r = [0u8; 20];
    let mut i: usize = 0;
    while i < 20
        invariant
            i <= 20,
            v@.len() == 20,
            forall|k: int| 0 <= k < i ==> r@[k] == v@[k],
        decreases 20 - i,
    {
        r[i] = v[i];
        i = i + 1;
    }
    assert(r@ =~= v@);
    r
}

/// The bytes of a 32-byte vector as an array.
fn to_array32(v: &Vec<u8>) -> (r: [u8; 32])
    requires
        v@.len() == 32,
    ensures
        r@ == v@,
{
    let mut r = [0u8; 32];
    let mut i: usize = 0;
    while i < 32
        invariant
            i <= 32,
            v@.len() == 32,
            forall|k: int| 0 <= k < i ==> r@[k] == v@[k],
        decreases 32 - i,
    {
        r[i] = v[i];
        i = i + 1;
    }
    assert(r@ =~= v@);
    r
}

impl LogEntry {
    /// The topics as byte sequences.
    pub open spec fn topic_seqs(&self) -> Seq<Seq<u8>> {
        self.topics@.map_values(|t: [u8; 32]| t@)
    }
}

/// The log entry made of the three items that the decoder reads, `None`
/// when the address is not 20 bytes or a topic not 32.
pub fn log_entry_from_parts(address: &Vec<u8>, topics: &Vec<Vec<u8>>, log_data: Vec<u8>) -> (r: Option<LogEntry>)
    ensures
        match r {
            Some(log) => spec_log_from_parts(address@, byte_vec_views(topics@), log_data@) == Some(
                (log.address@, log.topic_seqs(), log.data@),
            ),
            None => spec_log_from_parts(address@, byte_vec_views(topics@), log_data@) is None,
        },
{
    if address.len() != 20 {
        return None;
    }
    let ghost raw = byte_vec_views(topics@);
    let mut out: Vec<[u8; 32]> = Vec::new();
    let mut i: usize = 0;
    while i < topics.len()
        invariant
            i <= topics@.len(),
            raw == byte_vec_views(topics@),
            address@.len() == 20,
            out@.len() == i,
            forall|k: int| 0 <= k < i ==> #[trigger] raw[k].len() == 32,
            forall|k: int| 0 <= k < i ==> #[trigger] out@[k]@ == raw[k],
        decreases topics@.len() - i,
    {
        assert(raw[i as int] == topics@[i as int]@);
        if topics[i].len() != 32 {
            assert(raw[i as int].len() != 32);
            assert(!(forall|k: int| 0 <= k < raw.len() ==> #[trigger] raw[k].len() == 32));
            return None;
        }
        let t = to_array32(&topics[i]);
        out.push(t);
        assert(out@[i as int]@ == raw[i as int]);
        i = i + 1;
    }
    let log = LogEntry { address: to_array20(address), topics: out, data: log_data };
    assert(log.topic_seqs() =~= raw);
    Some(log)
}

/// Decodes an RLP-encoded EVM log entry; `None` when `data` is not one.
pub fn decode_log_entry(data: &[u8]) -> (r: Option<LogEntry>)
    ensures
        match r {
            Some(log) => spec_log_entry(data@) == Some((log.address@, log.topic_seqs(), log.data@)),
            None => spec_log_entry(data@) is None,
        },
{
    let address = rlp_val_at_bytes(data, 0);
    let topics = rlp_list_at_bytes(data, 1);
    let log_data = rlp_val_at_bytes(data, 2);
    match (address, topics, log_data) {
        (Some(address), Some(topics), Some(log_data)) => log_entry_from_parts(&address, &topics, log_data),
        _ => None,
    }
}

/// The value of the last four bytes of a topic, big endian.
pub(crate) fn topic_nonce(topic: &[u8; 32]) -> (r: u32)
    ensures
        r == nonce_of(topic@),
{
    let b0 = topic[28] as u32;
    let b1 = topic[29] as u32;
    let b2 = topic[30] as u32;
    let b3 = topic[31] as u32;
    b0 * 16777216 + b1 * 65536 + b2 * 256 + b3
}

} // verus!
