//! Gossip messages exchanged between DKG authorities: their data model, the
//! accessors on their payload, their SCALE encoding and the hash that a
//! signature covers.

use vstd::prelude::*;
use vstd::string::*;
use crate::scale::{
    le_bytes, scale_bytes, encode_u16, encode_u64, encode_byte_array, encode_byte_vec,
    lemma_le_bytes_len, lemma_scale_bytes_prefix_free,
};
use crate::hashing::{blake2_256, blake2_256_of};

verus! {

/// Identifier of a DKG session.
pub type SessionId = u64;

/// Identifier of a signing set.
pub type SSID = u16;

/// Epoch identifier of a set of signers.
pub type SignerSetId = u64;

/// Authority identity of a DKG participant: a compressed secp256k1 public key.
#[derive(Clone, Copy, Debug, Eq)]
pub struct AuthorityId(pub [u8; 33]);

impl PartialEq for AuthorityId {
    fn eq(&self, other: &Self) -> (r: bool) {
        crate::bytes::bytes_equal(self.0.as_slice(), other.0.as_slice())
    }
}

impl vstd::std_specs::cmp::PartialEqSpecImpl for AuthorityId {
    open spec fn obeys_eq_spec() -> bool {
        true
    }

    open spec fn eq_spec(&self, other: &Self) -> bool {
        self.0@ == other.0@
    }
}

impl AuthorityId {
    /// The SCALE encoding of the key: its 33 bytes.
    pub open spec fn spec_encoding(&self) -> Seq<u8> {
        self.0@
    }

    /// SCALE-encodes the key.
    pub fn encode(&self) -> (r: Vec<u8>)
        ensures
            r@ == self.spec_encoding(),
    {
        encode_byte_array(&self.0)
    }
}

/// Whether a message belongs to an active or to a queued round.
#[derive(Clone, Copy, Debug, PartialEq, Eq, Structural)]
pub enum DKGMsgStatus {
    /// Active round
    ACTIVE,
    /// Queued round
    QUEUED,
}

/// A message of the key generation protocol.
#[derive(Clone, Debug)]
pub struct DKGKeygenMessage {
    /// Sender id / party index
    pub sender_id: u16,
    /// Serialized keygen message
    pub keygen_msg: Vec<u8>,
    /// Hash of the keygen protocol instance
    pub keygen_protocol_hash: [u8; 32],
}

/// A message of the offline stage of the signing protocol.
#[derive(Clone, Debug)]
pub struct DKGOfflineMessage {
    /// Identifier
    pub key: Vec<u8>,
    /// Signer set epoch id
    pub signer_set_id: SignerSetId,
    /// Serialized offline stage message
    pub offline_msg: Vec<u8>,
    /// Hash of the unsigned proposal
    pub unsigned_proposal_hash: [u8; 32],
}

/// A partial signature over an unsigned proposal.
#[derive(Clone, Debug)]
pub struct DKGVoteMessage {
    /// Party index
    pub party_ind: u16,
    /// Key of the round the signature is created for
    pub round_key: Vec<u8>,
    /// Serialized partial signature
    pub partial_signature: Vec<u8>,
    /// Hash of the unsigned proposal
    pub unsigned_proposal_hash: [u8; 32],
}

/// Broadcast of a freshly generated DKG public key.
#[derive(Clone, Debug)]
pub struct PublicKeyMessage {
    /// Session this message was created for
    pub session_id: SessionId,
    /// Public key of the DKG
    pub pub_key: Vec<u8>,
    /// Authority's signature over the public key
    pub signature: Vec<u8>,
}

/// The protocol stage in which an authority misbehaved.
#[derive(Clone, Copy, Debug, PartialEq, Eq, Structural)]
pub enum MisbehaviourType {
    /// During key generation
    Keygen,
    /// During signing
    Sign,
}

/// Report of a misbehaving authority.
#[derive(Clone, Debug)]
pub struct MisbehaviourMessage {
    /// Kind of misbehaviour
    pub misbehaviour_type: MisbehaviourType,
    /// Session of the misbehaviour
    pub session_id: SessionId,
    /// Offending authority
    pub offender: AuthorityId,
    /// Reporting authority's signature over the report
    pub signature: Vec<u8>,
}

/// The content of a gossip message.
#[derive(Clone, Debug)]
pub enum NetworkMsgPayload {
    Keygen(DKGKeygenMessage),
    Offline(DKGOfflineMessage),
    Vote(DKGVoteMessage),
    PublicKeyBroadcast(PublicKeyMessage),
    MisbehaviourBroadcast(MisbehaviourMessage),
}

/// Gossip message for all DKG and Webb protocol messages, passed between
/// the nodes.
#[derive(Clone, Debug)]
pub struct DKGMessage<AuthorityId> {
    /// Node authority id
    pub sender_id: AuthorityId,
    /// Authority id of the recipient; `None` when broadcast to all nodes
    pub recipient_id: Option<AuthorityId>,
    /// Message contents
    pub payload: NetworkMsgPayload,
    /// Session of the message
    pub session_id: SessionId,
    /// The round id
    pub associated_block_id: u64,
    /// The signing set id
    pub ssid: SSID,
}

/// A gossip message with the sender's signature over it.
#[derive(Clone, Debug)]
pub struct SignedDKGMessage<AuthorityId> {
    /// The message
    pub msg: DKGMessage<AuthorityId>,
    /// ECDSA signature over the message hash
    pub signature: Option<Vec<u8>>,
}

impl DKGKeygenMessage {
    /// Whether the message fits a SCALE length prefix.
    pub open spec fn encodable(&self) -> bool {
        self.keygen_msg@.len() <= u32::MAX
    }

    /// The SCALE encoding: the fields in declaration order.
    pub open spec fn spec_encoding(&self) -> Seq<u8> {
        le_bytes(self.sender_id as nat, 2) + scale_bytes(self.keygen_msg@) + self.keygen_protocol_hash@
    }

    /// SCALE-encodes the message.
    pub fn encode(&self) -> (r: Vec<u8>)
        requires
            self.encodable(),
        ensures
            r@ == self.spec_encoding(),
    {
        let mut out = encode_u16(self.sender_id);
        let mut part = encode_byte_vec(&self.keygen_msg);
        out.append(&mut part);
        let mut part = encode_byte_array(&self.keygen_protocol_hash);
        out.append(&mut part);
        out
    }
}

impl DKGOfflineMessage {
    /// Whether every vector in the message fits a SCALE length prefix.
    pub open spec fn encodable(&self) -> bool {
        &&& self.key@.len() <= u32::MAX
        &&& self.offline_msg@.len() <= u32::MAX
    }

    /// The SCALE encoding: the fields in declaration order.
    pub open spec fn spec_encoding(&self) -> Seq<u8> {
        scale_bytes(self.key@) + le_bytes(self.signer_set_id as nat, 8) + scale_bytes(self.offline_msg@)
            + self.unsigned_proposal_hash@
    }

    /// SCALE-encodes the message.
    pub fn encode(&self) -> (r: Vec<u8>)
        requires
            self.encodable(),
        ensures
            r@ == self.spec_encoding(),
    {
        let mut out = encode_byte_vec(&self.key);
        let mut part = encode_u64(self.signer_set_id);
        out.append(&mut part);
        let mut part = encode_byte_vec(&self.offline_msg);
        out.append(&mut part);
        let mut part = encode_byte_array(&self.unsigned_proposal_hash);
        out.append(&mut part);
        out
    }
}

impl DKGVoteMessage {
    /// Whether every vector in the message fits a SCALE length prefix.
    pub open spec fn encodable(&self) -> bool {
        &&& self.round_key@.len() <= u32::MAX
        &&& self.partial_signature@.len() <= u32::MAX
    }

    /// The SCALE encoding: the fields in declaration order.
    pub open spec fn spec_encoding(&self) -> Seq<u8> {
        le_bytes(self.party_ind as nat, 2) + scale_bytes(self.round_key@) + scale_bytes(
            self.partial_signature@,
        ) + self.unsigned_proposal_hash@
    }

    /// SCALE-encodes the message.
    pub fn encode(&self) -> (r: Vec<u8>)
        requires
            self.encodable(),
        ensures
            r@ == self.spec_encoding(),
    {
        let mut out = encode_u16(self.party_ind);
        let mut part = encode_byte_vec(&self.round_key);
        out.append(&mut part);
        let mut part = encode_byte_vec(&self.partial_signature);
        out.append(&mut part);
        let mut part = encode_byte_array(&self.unsigned_proposal_hash);
        out.append(&mut part);
        out
    }
}

impl PublicKeyMessage {
    /// Whether every vector in the message fits a SCALE length prefix.
    pub open spec fn encodable(&self) -> bool {
        &&& self.pub_key@.len() <= u32::MAX
        &&& self.signature@.len() <= u32::MAX
    }

    /// The SCALE encoding: the fields in declaration order.
    pub open spec fn spec_encoding(&self) -> Seq<u8> {
        le_bytes(self.session_id as nat, 8) + scale_bytes(self.pub_key@) + scale_bytes(
            self.signature@,
        )
    }

    /// SCALE-encodes the message.
    pub fn encode(&self) -> (r: Vec<u8>)
        requires
            self.encodable(),
        ensures
            r@ == self.spec_encoding(),
    {
        let mut out = encode_u64(self.session_id);
        let mut part = encode_byte_vec(&self.pub_key);
        out.append(&mut part);
        let mut part = encode_byte_vec(&self.signature);
        out.append(&mut part);
        out
    }
}

impl MisbehaviourType {
    /// The SCALE encoding of the variant: its index as one byte.
    pub open spec fn spec_encoding(&self) -> Seq<u8> {
        match self {
            MisbehaviourType::Keygen => seq![0u8],
            MisbehaviourType::Sign => seq![1u8],
        }
    }

    /// SCALE-encodes the variant.
    pub fn encode(&self) -> (r: Vec<u8>)
        ensures
            r@ == self.spec_encoding(),
    {
        let mut out: Vec<u8> = Vec::new();
        match self {
            MisbehaviourType::Keygen => out.push(0u8),
            MisbehaviourType::Sign => out.push(1u8),
        }
        out
    }
}

impl MisbehaviourMessage {
    /// Whether the signature fits a SCALE length prefix.
    pub open spec fn encodable(&self) -> bool {
        self.signature@.len() <= u32::MAX
    }

    /// The SCALE encoding: the fields in declaration order.
    pub open spec fn spec_encoding(&self) -> Seq<u8> {
        self.misbehaviour_type.spec_encoding() + le_bytes(self.session_id as nat, 8)
            + self.offender.spec_encoding() + scale_bytes(self.signature@)
    }

    /// SCALE-encodes the message.
    pub fn encode(&self) -> (r: Vec<u8>)
        requires
            self.encodable(),
        ensures
            r@ == self.spec_encoding(),
    {
        let mut out = self.misbehaviour_type.encode();
        let mut part = encode_u64(self.session_id);
        out.append(&mut part);
        let mut part = self.offender.encode();
        out.append(&mut part);
        let mut part = encode_byte_vec(&self.signature);
        out.append(&mut part);
        out
    }
}

impl NetworkMsgPayload {
    /// The raw bytes that the payload carries.
    pub open spec fn raw_payload(&self) -> Seq<u8> {
        match self {
            NetworkMsgPayload::Offline(msg) => msg.offline_msg@,
            NetworkMsgPayload::Vote(msg) => msg.partial_signature@,
            NetworkMsgPayload::Keygen(msg) => msg.keygen_msg@,
            NetworkMsgPayload::PublicKeyBroadcast(msg) => msg.pub_key@,
            NetworkMsgPayload::MisbehaviourBroadcast(msg) => msg.signature@,
        }
    }

    /// The unsigned proposal hash, carried by offline and vote messages only.
    pub open spec fn spec_unsigned_proposal_hash(&self) -> Option<Seq<u8>> {
        match self {
            NetworkMsgPayload::Offline(msg) => Some(msg.unsigned_proposal_hash@),
            NetworkMsgPayload::Vote(msg) => Some(msg.unsigned_proposal_hash@),
            _ => None,
        }
    }

    /// The keygen protocol hash, carried by keygen messages only.
    pub open spec fn spec_keygen_protocol_hash(&self) -> Option<Seq<u8>> {
        match self {
            NetworkMsgPayload::Keygen(msg) => Some(msg.keygen_protocol_hash@),
            _ => None,
        }
    }

    /// The party index of the sender as the asynchronous protocol sees it.
    pub open spec fn spec_sender_id(&self) -> Option<u16> {
        match self {
            NetworkMsgPayload::Keygen(kg) => Some(kg.sender_id),
            NetworkMsgPayload::Offline(offline) => Some(offline.signer_set_id as u16),
            NetworkMsgPayload::Vote(vote) => Some(vote.party_ind),
            _ => None,
        }
    }

    /// The short name of the payload's kind.
    pub open spec fn kind_name(&self) -> Seq<char> {
        match self {
            NetworkMsgPayload::Keygen(_) => "keygen"@,
            NetworkMsgPayload::Offline(_) => "offline"@,
            NetworkMsgPayload::Vote(_) => "vote"@,
            NetworkMsgPayload::PublicKeyBroadcast(_) => "pub_key_broadcast"@,
            NetworkMsgPayload::MisbehaviourBroadcast(_) => "misbehaviour"@,
        }
    }

    /// The label of the payload's kind in a message's description.
    pub open spec fn label(&self) -> Seq<char> {
        match self {
            NetworkMsgPayload::Keygen(_) => "Keygen"@,
            NetworkMsgPayload::Offline(_) => "Offline"@,
            NetworkMsgPayload::Vote(_) => "Vote"@,
            NetworkMsgPayload::PublicKeyBroadcast(_) => "PublicKeyBroadcast"@,
            NetworkMsgPayload::MisbehaviourBroadcast(_) => "MisbehaviourBroadcast"@,
        }
    }

    /// Position of the payload's variant in the declaration.
    pub open spec fn variant_index(&self) -> nat {
        match self {
            NetworkMsgPayload::Keygen(_) => 0,
            NetworkMsgPayload::Offline(_) => 1,
            NetworkMsgPayload::Vote(_) => 2,
            NetworkMsgPayload::PublicKeyBroadcast(_) => 3,
            NetworkMsgPayload::MisbehaviourBroadcast(_) => 4,
        }
    }

    /// Whether the bytes that a message hash covers can be SCALE-encoded.
    pub open spec fn hashable(&self) -> bool {
        &&& match self {
            NetworkMsgPayload::Vote(m) => m.encodable(),
            NetworkMsgPayload::PublicKeyBroadcast(m) => m.encodable(),
            NetworkMsgPayload::MisbehaviourBroadcast(m) => m.encodable(),
            _ => true,
        }
        &&& self.bytes_to_hash().len() <= u32::MAX
    }

    /// The bytes that a message hash covers: the raw inner message for keygen
    /// and offline messages, the SCALE encoding of the whole inner message
    /// otherwise.
    pub open spec fn bytes_to_hash(&self) -> Seq<u8> {
        match self {
            NetworkMsgPayload::Keygen(m) => m.keygen_msg@,
            NetworkMsgPayload::Offline(m) => m.offline_msg@,
            NetworkMsgPayload::Vote(m) => m.spec_encoding(),
            NetworkMsgPayload::PublicKeyBroadcast(m) => m.spec_encoding(),
            NetworkMsgPayload::MisbehaviourBroadcast(m) => m.spec_encoding(),
        }
    }

    /// The raw bytes that the payload carries.
    pub fn payload(&self) -> (r: &Vec<u8>)
        ensures
            r@ == self.raw_payload(),
    {
        match self {
            NetworkMsgPayload::Offline(msg) => &msg.offline_msg,
            NetworkMsgPayload::Vote(msg) => &msg.partial_signature,
            NetworkMsgPayload::Keygen(msg) => &msg.keygen_msg,
            NetworkMsgPayload::PublicKeyBroadcast(msg) => &msg.pub_key,
            NetworkMsgPayload::MisbehaviourBroadcast(msg) => &msg.signature,
        }
    }

    /// The unsigned proposal hash of an offline or vote message, `None` for
    /// the other kinds.
    pub fn unsigned_proposal_hash(&self) -> (r: Option<&[u8; 32]>)
        ensures
            match r {
                Some(h) => self.spec_unsigned_proposal_hash() == Some(h@),
                None => self.spec_unsigned_proposal_hash() is None,
            },
    {
        match self {
            NetworkMsgPayload::Offline(msg) => Some(&msg.unsigned_proposal_hash),
            NetworkMsgPayload::Vote(msg) => Some(&msg.unsigned_proposal_hash),
            _ => None,
        }
    }

    /// The keygen protocol hash of a keygen message, `None` for the other
    /// kinds.
    pub fn keygen_protocol_hash(&self) -> (r: Option<&[u8; 32]>)
        ensures
            match r {
                Some(h) => self.spec_keygen_protocol_hash() == Some(h@),
                None => self.spec_keygen_protocol_hash() is None,
            },
    {
        if let NetworkMsgPayload::Keygen(msg) = self {
            Some(&msg.keygen_protocol_hash)
        } else {
            None
        }
    }

    /// The sender's party index for the asynchronous protocol: the sender id
    /// of a keygen message, the signer set id (truncated to 16 bits) of an
    /// offline message, the party index of a vote; `None` for the other kinds.
    pub fn async_proto_only_get_sender_id(&self) -> (r: Option<u16>)
        ensures
            r == self.spec_sender_id(),
    {
        match self {
            NetworkMsgPayload::Keygen(kg) => Some(kg.sender_id),
            NetworkMsgPayload::Offline(offline) => Some(offline.signer_set_id as u16),
            NetworkMsgPayload::Vote(vote) => Some(vote.party_ind),
            _ => None,
        }
    }

    /// The short name of the payload's kind.
    pub fn get_type(&self) -> (r: &'static str)
        ensures
            r@ == self.kind_name(),
    {
        match self {
            NetworkMsgPayload::Keygen(_) => "keygen",
            NetworkMsgPayload::Offline(_) => "offline",
            NetworkMsgPayload::Vote(_) => "vote",
            NetworkMsgPayload::PublicKeyBroadcast(_) => "pub_key_broadcast",
            NetworkMsgPayload::MisbehaviourBroadcast(_) => "misbehaviour",
        }
    }

    /// The label of the payload's kind in a message's description.
    pub fn get_label(&self) -> (r: &'static str)
        ensures
            r@ == self.label(),
    {
        match self {
            NetworkMsgPayload::Keygen(_) => "Keygen",
            NetworkMsgPayload::Offline(_) => "Offline",
            NetworkMsgPayload::Vote(_) => "Vote",
            NetworkMsgPayload::PublicKeyBroadcast(_) => "PublicKeyBroadcast",
            NetworkMsgPayload::MisbehaviourBroadcast(_) => "MisbehaviourBroadcast",
        }
    }

    /// The bytes that a message hash covers.
    pub fn get_bytes_to_hash(&self) -> (r: Vec<u8>)
        requires
            self.hashable(),
        ensures
            r@ == self.bytes_to_hash(),
    {
        match self {
            NetworkMsgPayload::Keygen(m) => m.keygen_msg.clone(),
            NetworkMsgPayload::Offline(m) => m.offline_msg.clone(),
            NetworkMsgPayload::Vote(m) => m.encode(),
            NetworkMsgPayload::PublicKeyBroadcast(m) => m.encode(),
            NetworkMsgPayload::MisbehaviourBroadcast(m) => m.encode(),
        }
    }
}

impl NetworkMsgPayload {
    /// Whether every vector in the payload fits a SCALE length prefix.
    pub open spec fn encodable(&self) -> bool {
        match self {
            NetworkMsgPayload::Keygen(m) => m.encodable(),
            NetworkMsgPayload::Offline(m) => m.encodable(),
            NetworkMsgPayload::Vote(m) => m.encodable(),
            NetworkMsgPayload::PublicKeyBroadcast(m) => m.encodable(),
            NetworkMsgPayload::MisbehaviourBroadcast(m) => m.encodable(),
        }
    }

    /// The SCALE encoding: the variant's index as one byte, then the inner
    /// message.
    pub open spec fn spec_encoding(&self) -> Seq<u8> {
        match self {
            NetworkMsgPayload::Keygen(m) => seq![0u8] + m.spec_encoding(),
            NetworkMsgPayload::Offline(m) => seq![1u8] + m.spec_encoding(),
            NetworkMsgPayload::Vote(m) => seq![2u8] + m.spec_encoding(),
            NetworkMsgPayload::PublicKeyBroadcast(m) => seq![3u8] + m.spec_encoding(),
            NetworkMsgPayload::MisbehaviourBroadcast(m) => seq![4u8] + m.spec_encoding(),
        }
    }

    /// SCALE-encodes the payload.
    pub fn encode(&self) -> (r: Vec<u8>)
        requires
            self.encodable(),
        ensures
            r@ == self.spec_encoding(),
    {
        let mut out: Vec<u8> = Vec::new();
        let mut inner = match self {
            NetworkMsgPayload::Keygen(m) => {
                out.push(0u8);
                m.encode()
            },
            NetworkMsgPayload::Offline(m) => {
                out.push(1u8);
                m.encode()
            },
            NetworkMsgPayload::Vote(m) => {
                out.push(2u8);
                m.encode()
            },
            NetworkMsgPayload::PublicKeyBroadcast(m) => {
                out.push(3u8);
                m.encode()
            },
            NetworkMsgPayload::MisbehaviourBroadcast(m) => {
                out.push(4u8);
                m.encode()
            },
        };
        out.append(&mut inner);
        out
    }
}

/// The SCALE encoding of an optional authority: 0, or 1 and the key.
pub open spec fn optional_authority_encoding(a: Option<AuthorityId>) -> Seq<u8> {
    match a {
        None => seq![0u8],
        Some(id) => seq![1u8] + id.spec_encoding(),
    }
}

/// The SCALE encoding of an optional byte vector: 0, or 1 and the vector.
pub open spec fn optional_bytes_encoding(v: Option<Seq<u8>>) -> Seq<u8> {
    match v {
        None => seq![0u8],
        Some(b) => seq![1u8] + scale_bytes(b),
    }
}

impl DKGMessage<AuthorityId> {
    /// The SCALE encoding: the fields in declaration order.
    pub open spec fn spec_encoding(&self) -> Seq<u8> {
        self.sender_id.spec_encoding() + optional_authority_encoding(self.recipient_id)
            + self.payload.spec_encoding() + le_bytes(self.session_id as nat, 8) + le_bytes(
            self.associated_block_id as nat,
            8,
        ) + le_bytes(self.ssid as nat, 2)
    }

    /// SCALE-encodes the message.
    pub fn encode(&self) -> (r: Vec<u8>)
        requires
            self.payload.encodable(),
        ensures
            r@ == self.spec_encoding(),
    {
        let mut out = self.sender_id.encode();
        match &self.recipient_id {
            None => out.push(0u8),
            Some(id) => {
                out.push(1u8);
                let mut part = id.encode();
                out.append(&mut part);
            },
        }
        let mut part = self.payload.encode();
        out.append(&mut part);
        let mut part = encode_u64(self.session_id);
        out.append(&mut part);
        let mut part = encode_u64(self.associated_block_id);
        out.append(&mut part);
        let mut part = encode_u16(self.ssid);
        out.append(&mut part);
        out
    }
}

impl SignedDKGMessage<AuthorityId> {
    /// The SCALE encoding: the message, then the optional signature.
    pub open spec fn spec_encoding(&self) -> Seq<u8> {
        self.msg.spec_encoding() + optional_bytes_encoding(
            match self.signature {
                None => None,
                Some(v) => Some(v@),
            },
        )
    }

    /// SCALE-encodes the signed message.
    pub fn encode(&self) -> (r: Vec<u8>)
        requires
            self.msg.payload.encodable(),
            self.signature matches Some(v) ==> v@.len() <= u32::MAX,
        ensures
            r@ == self.spec_encoding(),
    {
        let mut out = self.msg.encode();
        match &self.signature {
            None => out.push(0u8),
            Some(v) => {
                out.push(1u8);
                let mut part = encode_byte_vec(v);
                out.append(&mut part);
            },
        }
        out
    }
}

impl<A> SignedDKGMessage<A> {
    /// The preimage of the message hash: the SCALE encoding of the payload's
    /// bytes to hash, as a header hashing's `hash_of` hashes a value.
    pub fn hash_preimage(&self) -> (r: Vec<u8>)
        requires
            self.msg.payload.hashable(),
        ensures
            r@ == scale_bytes(self.msg.payload.bytes_to_hash()),
    {
        let bytes_to_hash = self.msg.payload.get_bytes_to_hash();
        encode_byte_vec(&bytes_to_hash)
    }

    /// The hash that the message's signature covers: Blake2b-256 over the
    /// SCALE encoding of the payload's bytes to hash.
    pub open spec fn spec_message_hash(&self) -> Seq<u8> {
        blake2_256_of(scale_bytes(self.msg.payload.bytes_to_hash()))
    }

    /// Hashes the message the way a header hashing's `hash_of` hashes a
    /// value, with Blake2b-256, the header hashing of the DKG runtime: the
    /// bytes to hash are SCALE-encoded, then digested. A runtime that hashes
    /// its headers otherwise hashes `hash_preimage` with its own hasher.
    pub fn message_hash(&self) -> (r: [u8; 32])
        requires
            self.msg.payload.hashable(),
        ensures
            r@ == self.spec_message_hash(),
    {
        let encoded = self.hash_preimage();
        blake2_256(encoded.as_slice())
    }
}

impl<A> DKGMessage<A> {
    /// The description of the message: its payload's kind.
    pub open spec fn description(&self) -> Seq<char> {
        "DKGMessage of type "@ + self.payload.label()
    }

    /// Describes the message by its payload's kind.
    pub fn to_string(&self) -> (r: String)
        ensures
            r@ == self.description(),
    {
        let mut out = String::from_str("DKGMessage of type ");
        out.append(self.payload.get_label());
        out
    }
}

/// Payloads of different kinds have different kind names, so `get_type`
/// tells the kinds apart.
pub proof fn lemma_kind_names_distinct(a: NetworkMsgPayload, b: NetworkMsgPayload)
    requires
        a.variant_index() != b.variant_index(),
    ensures
        a.kind_name() != b.kind_name(),
{
    reveal_strlit("keygen");
    reveal_strlit("offline");
    reveal_strlit("vote");
    reveal_strlit("pub_key_broadcast");
    reveal_strlit("misbehaviour");
    assert("keygen"@.len() == 6);
    assert("offline"@.len() == 7);
    assert("vote"@.len() == 4);
    assert("pub_key_broadcast"@.len() == 17);
    assert("misbehaviour"@.len() == 12);
}

/// Messages whose payloads are of different kinds have different
/// descriptions.
pub proof fn lemma_descriptions_distinct<A>(a: DKGMessage<A>, b: DKGMessage<A>)
    requires
        a.payload.variant_index() != b.payload.variant_index(),
    ensures
        a.description() != b.description(),
{
    reveal_strlit("Keygen");
    reveal_strlit("Offline");
    reveal_strlit("Vote");
    reveal_strlit("PublicKeyBroadcast");
    reveal_strlit("MisbehaviourBroadcast");
    reveal_strlit("DKGMessage of type ");
    if a.description() == b.description() {
        let prefix = "DKGMessage of type "@;
        assert(a.description().skip(prefix.len() as int) =~= a.payload.label());
        assert(b.description().skip(prefix.len() as int) =~= b.payload.label());
    }
}

/// A payload carries exactly one of the two protocol hashes when, and only
/// when, it names the sender's party index: keygen messages carry the keygen
/// protocol hash, offline and vote messages the unsigned proposal hash, and
/// the broadcasts carry neither.
pub proof fn lemma_hashes_and_sender_id(p: NetworkMsgPayload)
    ensures
        !(p.spec_keygen_protocol_hash() is Some && p.spec_unsigned_proposal_hash() is Some),
        p.spec_sender_id() is Some <==> (p.spec_keygen_protocol_hash() is Some
            || p.spec_unsigned_proposal_hash() is Some),
{
}

/// A misbehaviour type is SCALE-encoded as its position in the declaration,
/// one byte: `Keygen` as 0 and `Sign` as 1. So the two types encode
/// differently.
pub proof fn lemma_misbehaviour_type_encoding(t: MisbehaviourType, u: MisbehaviourType)
    ensures
        t.spec_encoding().len() == 1,
        t is Keygen ==> t.spec_encoding()[0] == 0u8,
        t is Sign ==> t.spec_encoding()[0] == 1u8,
        t != u ==> t.spec_encoding() != u.spec_encoding(),
{
    if t != u {
        assert(t.spec_encoding()[0] != u.spec_encoding()[0]);
    }
}

/// The bytes that the hash of a misbehaviour report covers start with the
/// position of the report's type in the declaration (0 for `Keygen`, 1 for
/// `Sign`). So two signed reports of different types never share the
/// preimage of their message hash, whatever their other fields: the hash of
/// a report depends on its type.
pub proof fn lemma_misbehaviour_hash_depends_on_type<A>(
    a: SignedDKGMessage<A>,
    b: SignedDKGMessage<A>,
    ma: MisbehaviourMessage,
    mb: MisbehaviourMessage,
)
    requires
        a.msg.payload == NetworkMsgPayload::MisbehaviourBroadcast(ma),
        b.msg.payload == NetworkMsgPayload::MisbehaviourBroadcast(mb),
        a.msg.payload.hashable(),
        b.msg.payload.hashable(),
    ensures
        a.msg.payload.bytes_to_hash()[0] == (if ma.misbehaviour_type is Keygen { 0u8 } else { 1u8 }),
        ma.misbehaviour_type != mb.misbehaviour_type ==> scale_bytes(a.msg.payload.bytes_to_hash())
            != scale_bytes(b.msg.payload.bytes_to_hash()),
{
    let ea = a.msg.payload.bytes_to_hash();
    let eb = b.msg.payload.bytes_to_hash();
    assert(ea[0] == ma.misbehaviour_type.spec_encoding()[0]);
    assert(eb[0] == mb.misbehaviour_type.spec_encoding()[0]);
    if ma.misbehaviour_type != mb.misbehaviour_type && scale_bytes(ea) == scale_bytes(eb) {
        assert(scale_bytes(ea) + Seq::<u8>::empty() =~= scale_bytes(eb) + Seq::<u8>::empty());
        lemma_scale_bytes_prefix_free(ea, eb, Seq::empty(), Seq::empty());
    }
}

/// The sender id that the asynchronous protocol reads: the sender id of a
/// keygen message, the signer set id of an offline message taken modulo
/// 2^16 (so the signer set id itself below 2^16), the party index of a vote,
/// and none for a broadcast.
pub proof fn lemma_sender_id(p: NetworkMsgPayload)
    ensures
        p matches NetworkMsgPayload::Keygen(m) ==> p.spec_sender_id() == Some(m.sender_id),
        p matches NetworkMsgPayload::Vote(m) ==> p.spec_sender_id() == Some(m.party_ind),
        p matches NetworkMsgPayload::Offline(m) ==> p.spec_sender_id() is Some
            && p.spec_sender_id().unwrap() as int == m.signer_set_id as int % 65536,
        p matches NetworkMsgPayload::Offline(m) ==> (m.signer_set_id < 65536 ==> p.spec_sender_id()
            .unwrap() as u64 == m.signer_set_id),
        p is PublicKeyBroadcast || p is MisbehaviourBroadcast ==> p.spec_sender_id() is None,
{
    if let NetworkMsgPayload::Offline(m) = p {
        let x: u64 = m.signer_set_id;
        assert((x as u16) as u64 == x % 65536) by (bit_vector);
    }
}

/// The message hash depends on the payload alone: sender, recipient,
/// session, round, signing set and signature do not enter it.
pub proof fn lemma_hash_depends_on_payload_only<A>(a: SignedDKGMessage<A>, b: SignedDKGMessage<A>)
    requires
        a.msg.payload.bytes_to_hash() == b.msg.payload.bytes_to_hash(),
    ensures
        a.spec_message_hash() == b.spec_message_hash(),
{
}

/// For keygen and offline messages only the inner raw message bytes are
/// hashed: the hash covers exactly what `payload` returns, whatever the
/// protocol hashes, sender id or signer set say.
pub proof fn lemma_raw_messages_hash_raw_payload<A>(m: SignedDKGMessage<A>)
    requires
        m.msg.payload is Keygen || m.msg.payload is Offline,
    ensures
        m.msg.payload.bytes_to_hash() == m.msg.payload.raw_payload(),
        m.spec_message_hash() == blake2_256_of(scale_bytes(m.msg.payload.raw_payload())),
{
}

/// Payloads with the same SCALE encoding have the same bytes to hash, so
/// messages carrying them have the same hash whatever their other fields.
pub proof fn lemma_equal_payload_encodings_hash_equal<A>(a: SignedDKGMessage<A>, b: SignedDKGMessage<A>)
    requires
        a.msg.payload.encodable(),
        b.msg.payload.encodable(),
        a.msg.payload.spec_encoding() == b.msg.payload.spec_encoding(),
    ensures
        a.msg.payload.bytes_to_hash() == b.msg.payload.bytes_to_hash(),
        a.spec_message_hash() == b.spec_message_hash(),
{
    let ea = a.msg.payload.spec_encoding();
    let eb = b.msg.payload.spec_encoding();
    assert(ea[0] == eb[0]);
    let ia = ea.drop_first();
    let ib = eb.drop_first();
    assert(ia == ib);
    match (a.msg.payload, b.msg.payload) {
        (NetworkMsgPayload::Keygen(ma), NetworkMsgPayload::Keygen(mb)) => {
            assert(ia =~= ma.spec_encoding());
            assert(ib =~= mb.spec_encoding());
            lemma_le_bytes_len(ma.sender_id as nat, 2);
            lemma_le_bytes_len(mb.sender_id as nat, 2);
            let ra = scale_bytes(ma.keygen_msg@) + ma.keygen_protocol_hash@;
            let rb = scale_bytes(mb.keygen_msg@) + mb.keygen_protocol_hash@;
            assert(ra =~= ia.skip(2));
            assert(rb =~= ib.skip(2));
            lemma_scale_bytes_prefix_free(ma.keygen_msg@, mb.keygen_msg@, ma.keygen_protocol_hash@, mb.keygen_protocol_hash@);
        },
        (NetworkMsgPayload::Offline(ma), NetworkMsgPayload::Offline(mb)) => {
            assert(ia =~= ma.spec_encoding());
            assert(ib =~= mb.spec_encoding());
            let ta = le_bytes(ma.signer_set_id as nat, 8) + scale_bytes(ma.offline_msg@) + ma.unsigned_proposal_hash@;
            let tb = le_bytes(mb.signer_set_id as nat, 8) + scale_bytes(mb.offline_msg@) + mb.unsigned_proposal_hash@;
            assert(ia =~= scale_bytes(ma.key@) + ta);
            assert(ib =~= scale_bytes(mb.key@) + tb);
            lemma_scale_bytes_prefix_free(ma.key@, mb.key@, ta, tb);
            lemma_le_bytes_len(ma.signer_set_id as nat, 8);
            lemma_le_bytes_len(mb.signer_set_id as nat, 8);
            assert(ta.skip(8) =~= scale_bytes(ma.offline_msg@) + ma.unsigned_proposal_hash@);
            assert(tb.skip(8) =~= scale_bytes(mb.offline_msg@) + mb.unsigned_proposal_hash@);
            lemma_scale_bytes_prefix_free(ma.offline_msg@, mb.offline_msg@, ma.unsigned_proposal_hash@, mb.unsigned_proposal_hash@);
        },
        (NetworkMsgPayload::Vote(ma), NetworkMsgPayload::Vote(mb)) => {
            assert(ia =~= ma.spec_encoding());
            assert(ib =~= mb.spec_encoding());
        },
        (NetworkMsgPayload::PublicKeyBroadcast(ma), NetworkMsgPayload::PublicKeyBroadcast(mb)) => {
            assert(ia =~= ma.spec_encoding());
            assert(ib =~= mb.spec_encoding());
        },
        (NetworkMsgPayload::MisbehaviourBroadcast(ma), NetworkMsgPayload::MisbehaviourBroadcast(mb)) => {
            assert(ia =~= ma.spec_encoding());
            assert(ib =~= mb.spec_encoding());
        },
        _ => {
            assert(false);
        },
    }
}

} // verus!
