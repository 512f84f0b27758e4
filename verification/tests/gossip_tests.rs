use dkg_primitives::error::DKGError;
use dkg_primitives::gossip::{
    AuthorityId, DKGKeygenMessage, DKGMessage, DKGOfflineMessage, DKGVoteMessage,
    MisbehaviourMessage, MisbehaviourType, NetworkMsgPayload, PublicKeyMessage, SignedDKGMessage,
};
use parity_scale_codec::Encode;
use sp_core::crypto::Ss58Codec;
use sp_core::Hasher;

fn keygen(msg: Vec<u8>) -> NetworkMsgPayload {
    NetworkMsgPayload::Keygen(DKGKeygenMessage {
        sender_id: 7,
        keygen_msg: msg,
        keygen_protocol_hash: [9u8; 32],
    })
}

fn offline(msg: Vec<u8>) -> NetworkMsgPayload {
    NetworkMsgPayload::Offline(DKGOfflineMessage {
        key: vec![1, 2],
        signer_set_id: 0x1_0005,
        offline_msg: msg,
        unsigned_proposal_hash: [3u8; 32],
    })
}

fn vote() -> NetworkMsgPayload {
    NetworkMsgPayload::Vote(DKGVoteMessage {
        party_ind: 0x0102,
        round_key: vec![0xaa, 0xbb],
        partial_signature: vec![5, 6, 7],
        unsigned_proposal_hash: [4u8; 32],
    })
}

fn public_key() -> NetworkMsgPayload {
    NetworkMsgPayload::PublicKeyBroadcast(PublicKeyMessage {
        session_id: 0x0807060504030201,
        pub_key: vec![0x11; 3],
        signature: vec![0x22; 65],
    })
}

fn misbehaviour() -> NetworkMsgPayload {
    NetworkMsgPayload::MisbehaviourBroadcast(MisbehaviourMessage {
        misbehaviour_type: MisbehaviourType::Sign,
        session_id: 2,
        offender: AuthorityId([0x02; 33]),
        signature: vec![0x33; 2],
    })
}

fn signed(payload: NetworkMsgPayload, session_id: u64) -> SignedDKGMessage<u8> {
    SignedDKGMessage {
        msg: DKGMessage {
            sender_id: 1,
            recipient_id: None,
            payload,
            session_id,
            associated_block_id: 10,
            ssid: 0,
        },
        signature: None,
    }
}

fn blake2(data: &[u8]) -> [u8; 32] {
    <sp_core::Blake2Hasher as Hasher>::hash(data).0
}

#[test]
fn payload_returns_the_raw_bytes_of_each_kind() {
    assert_eq!(keygen(vec![1, 2, 3]).payload(), &vec![1, 2, 3]);
    assert_eq!(offline(vec![4]).payload(), &vec![4]);
    assert_eq!(vote().payload(), &vec![5, 6, 7]);
    assert_eq!(public_key().payload(), &vec![0x11; 3]);
    assert_eq!(misbehaviour().payload(), &vec![0x33; 2]);
}

#[test]
fn protocol_hashes_are_carried_by_their_kinds_only() {
    assert_eq!(offline(vec![]).unsigned_proposal_hash(), Some(&[3u8; 32]));
    assert_eq!(vote().unsigned_proposal_hash(), Some(&[4u8; 32]));
    assert_eq!(keygen(vec![]).unsigned_proposal_hash(), None);
    assert_eq!(public_key().unsigned_proposal_hash(), None);
    assert_eq!(keygen(vec![]).keygen_protocol_hash(), Some(&[9u8; 32]));
    assert_eq!(offline(vec![]).keygen_protocol_hash(), None);
    assert_eq!(misbehaviour().keygen_protocol_hash(), None);
}

#[test]
fn sender_id_of_each_kind() {
    assert_eq!(keygen(vec![]).async_proto_only_get_sender_id(), Some(7));
    // the signer set id is truncated to 16 bits
    assert_eq!(offline(vec![]).async_proto_only_get_sender_id(), Some(5));
    assert_eq!(vote().async_proto_only_get_sender_id(), Some(0x0102));
    assert_eq!(public_key().async_proto_only_get_sender_id(), None);
    assert_eq!(misbehaviour().async_proto_only_get_sender_id(), None);
}

#[test]
fn kind_names_are_distinct() {
    let names = [
        keygen(vec![]).get_type(),
        offline(vec![]).get_type(),
        vote().get_type(),
        public_key().get_type(),
        misbehaviour().get_type(),
    ];
    assert_eq!(names, ["keygen", "offline", "vote", "pub_key_broadcast", "misbehaviour"]);
}

#[test]
fn message_descriptions() {
    assert_eq!(signed(keygen(vec![]), 0).msg.to_string(), "DKGMessage of type Keygen");
    assert_eq!(signed(offline(vec![]), 0).msg.to_string(), "DKGMessage of type Offline");
    assert_eq!(signed(vote(), 0).msg.to_string(), "DKGMessage of type Vote");
    assert_eq!(
        signed(public_key(), 0).msg.to_string(),
        "DKGMessage of type PublicKeyBroadcast"
    );
    assert_eq!(
        signed(misbehaviour(), 0).msg.to_string(),
        "DKGMessage of type MisbehaviourBroadcast"
    );
}

#[test]
fn vote_encoding_is_the_fields_in_order() {
    let NetworkMsgPayload::Vote(v) = vote() else { unreachable!() };
    let mut expected = vec![0x02, 0x01, 2 << 2, 0xaa, 0xbb, 3 << 2, 5, 6, 7];
    expected.extend_from_slice(&[4u8; 32]);
    assert_eq!(v.encode(), expected);
    let tuple = (v.party_ind, v.round_key.clone(), v.partial_signature.clone(), v.unsigned_proposal_hash);
    assert_eq!(v.encode(), tuple.encode());
}

#[test]
fn public_key_and_misbehaviour_encodings() {
    let NetworkMsgPayload::PublicKeyBroadcast(p) = public_key() else { unreachable!() };
    let mut expected = vec![1, 2, 3, 4, 5, 6, 7, 8, 3 << 2, 0x11, 0x11, 0x11, 0x05, 0x01];
    expected.extend_from_slice(&[0x22; 65]);
    assert_eq!(p.encode(), expected);
    let NetworkMsgPayload::MisbehaviourBroadcast(m) = misbehaviour() else { unreachable!() };
    let mut expected = vec![1, 2, 0, 0, 0, 0, 0, 0, 0];
    expected.extend_from_slice(&[0x02; 33]);
    expected.extend_from_slice(&[2 << 2, 0x33, 0x33]);
    assert_eq!(m.encode(), expected);
}

#[test]
fn keygen_hash_covers_the_scale_encoded_inner_message() {
    let msg = vec![10u8, 20, 30];
    let h = signed(keygen(msg.clone()), 1).message_hash();
    assert_eq!(h, blake2(&msg.encode()));
    assert_eq!(h, blake2(&[3 << 2, 10, 20, 30]));
    assert_ne!(h, blake2(&msg));
}

#[test]
fn hash_depends_on_payload_only() {
    let a = signed(vote(), 1).message_hash();
    let mut other = signed(vote(), 99);
    other.msg.sender_id = 42;
    other.signature = Some(vec![1, 2, 3]);
    assert_eq!(a, other.message_hash());
    // keygen and offline messages with the same inner bytes hash the same
    assert_eq!(
        signed(keygen(vec![1, 2]), 0).message_hash(),
        signed(offline(vec![1, 2]), 5).message_hash()
    );
}

#[test]
fn encoded_messages_are_hashed_as_encoded_vectors() {
    let NetworkMsgPayload::Vote(v) = vote() else { unreachable!() };
    assert_eq!(signed(vote(), 0).message_hash(), blake2(&v.encode().encode()));
    let NetworkMsgPayload::PublicKeyBroadcast(p) = public_key() else { unreachable!() };
    assert_eq!(signed(public_key(), 0).message_hash(), blake2(&p.encode().encode()));
    let NetworkMsgPayload::MisbehaviourBroadcast(m) = misbehaviour() else { unreachable!() };
    assert_eq!(signed(misbehaviour(), 0).message_hash(), blake2(&m.encode().encode()));
}

#[test]
fn long_messages_get_a_two_byte_length_prefix() {
    let msg = vec![0u8; 100];
    let mut preimage = vec![((100u16 << 2) | 1) as u8, 1];
    preimage.extend_from_slice(&msg);
    assert_eq!(signed(keygen(msg), 0).message_hash(), blake2(&preimage));
}

#[test]
fn error_descriptions() {
    let reason = String::from("boom");
    assert_eq!(
        DKGError::Vote { reason: reason.clone() }.to_string(),
        "DKGError of type Vote: boom"
    );
    assert_eq!(
        DKGError::StartKeygen { reason: reason.clone() }.to_string(),
        "DKGError of type Start keygen: boom"
    );
    assert_eq!(
        DKGError::StartOffline { reason: reason.clone() }.to_string(),
        "DKGError of type Unable to start Offline Signing: boom"
    );
    assert_eq!(
        DKGError::CreateOfflineStage { reason: reason.clone() }.to_string(),
        "DKGError of type Create offline stage: boom"
    );
    assert_eq!(
        DKGError::CriticalError { reason: reason.clone() }.to_string(),
        "DKGError of type Critical error: boom"
    );
    assert_eq!(
        DKGError::GenericError { reason: reason.clone() }.to_string(),
        "DKGError of type Generic error: boom"
    );
    assert_eq!(DKGError::NoAuthorityAccounts.to_string(), "DKGError of type No Authority accounts found!");
    assert_eq!(DKGError::NoHeader.to_string(), "DKGError of type No Header!");
    assert_eq!(DKGError::InvalidPeerId.to_string(), "DKGError of type Invalid PeerId!");
    assert_eq!(DKGError::InvalidSignature.to_string(), "DKGError of type Invalid Signature!");
    assert_eq!(
        DKGError::InvalidKeygenPartyId.to_string(),
        "DKGError of type Invalid Keygen Party Id!"
    );
    assert_eq!(DKGError::InvalidSigningSet.to_string(), "DKGError of type Invalid Signing Set!");
    assert_eq!(
        DKGError::InputOutOfBounds.to_string(),
        "DKGError of type Input value out of bounds set by runtime"
    );
    assert_eq!(DKGError::CannotSign.to_string(), "DKGError of type Could not sign public key");
}

#[test]
fn misbehaviour_error_descriptions_list_the_bad_actors() {
    let mut a = [0u8; 33];
    a[0] = 0x02;
    a[32] = 0xff;
    let b = [0xabu8; 33];
    let debug = |k: [u8; 33]| {
        let ss58 = sp_core::ecdsa::Public::from_raw(k).to_ss58check();
        let hex: String = k.iter().map(|b| format!("{b:02x}")).collect();
        format!("Public({hex} ({}...))", &ss58[0..8])
    };
    let hex_a = debug(a);
    let hex_b = debug(b);
    let e = DKGError::KeygenMisbehaviour {
        reason: String::from("bad share"),
        bad_actors: vec![AuthorityId(a), AuthorityId(b)],
        session_id: 3,
    };
    assert_eq!(
        e.to_string(),
        format!("DKGError of type Keygen misbehaviour: reason: bad share bad actors: [{hex_a}, {hex_b}]")
    );
    let e = DKGError::SignMisbehaviour {
        reason: String::from("x"),
        bad_actors: vec![AuthorityId(b)],
        session_id: 3,
    };
    assert_eq!(
        e.to_string(),
        format!("DKGError of type SignMisbehaviour: reason: x,  bad actors: [{hex_b}]")
    );
    let e = DKGError::KeygenTimeout { session_id: 1234567890123, bad_actors: vec![] };
    assert_eq!(
        e.to_string(),
        "DKGError of type Keygen timeout @ Session(1234567890123): bad actors: []"
    );
    let e = DKGError::KeygenTimeout { session_id: 0, bad_actors: vec![] };
    assert_eq!(e.to_string(), "DKGError of type Keygen timeout @ Session(0): bad actors: []");
}

#[test]
fn payload_encoding_is_the_variant_index_then_the_message() {
    let p = keygen(vec![1, 2]);
    let mut expected = vec![0u8, 7, 0, 2 << 2, 1, 2];
    expected.extend_from_slice(&[9u8; 32]);
    assert_eq!(p.encode(), expected);
    let NetworkMsgPayload::Offline(m) = offline(vec![8]) else { unreachable!() };
    let tuple = (m.key.clone(), m.signer_set_id, m.offline_msg.clone(), m.unsigned_proposal_hash);
    let mut expected = vec![1u8];
    expected.extend(tuple.encode());
    assert_eq!(offline(vec![8]).encode(), expected);
    assert_eq!(vote().encode()[0], 2);
    assert_eq!(public_key().encode()[0], 3);
    assert_eq!(misbehaviour().encode()[0], 4);
}

#[test]
fn whole_message_encoding() {
    let msg = DKGMessage {
        sender_id: AuthorityId([2; 33]),
        recipient_id: Some(AuthorityId([3; 33])),
        payload: keygen(vec![]),
        session_id: 1,
        associated_block_id: 2,
        ssid: 3,
    };
    let signed = SignedDKGMessage { msg: msg.clone(), signature: Some(vec![4]) };
    let mut expected = vec![2u8; 33];
    expected.push(1);
    expected.extend_from_slice(&[3u8; 33]);
    expected.extend(keygen(vec![]).encode());
    expected.extend(1u64.encode());
    expected.extend(2u64.encode());
    expected.extend(3u16.encode());
    assert_eq!(msg.encode(), expected);
    expected.extend_from_slice(&[1, 1 << 2, 4]);
    assert_eq!(signed.encode(), expected);
    let unsigned = SignedDKGMessage { msg, signature: None };
    assert_eq!(*unsigned.encode().last().unwrap(), 0);
}

#[test]
fn hash_preimage_is_the_encoded_bytes_to_hash() {
    let s = signed(keygen(vec![5, 6]), 0);
    assert_eq!(s.hash_preimage(), vec![2 << 2, 5, 6]);
    assert_eq!(s.message_hash(), blake2(&s.hash_preimage()));
}

#[test]
fn authorities_compare_by_key() {
    assert!(AuthorityId([1; 33]) == AuthorityId([1; 33]));
    assert!(AuthorityId([1; 33]) != AuthorityId([2; 33]));
}

#[test]
fn bad_actors_in_a_chosen_address_format() {
    let k = [0x03u8; 33];
    let ss58 = sp_core::ecdsa::Public::from_raw(k)
        .to_ss58check_with_version(sp_core::crypto::Ss58AddressFormat::from(0u16));
    let hex = "03".repeat(33);
    let e = DKGError::SignMisbehaviour { reason: String::from("r"), bad_actors: vec![AuthorityId(k)], session_id: 1 };
    assert_eq!(
        e.to_string_with_format(0),
        format!("DKGError of type SignMisbehaviour: reason: r,  bad actors: [Public({hex} ({}...))]", &ss58[0..8])
    );
    assert_eq!(e.get_label_with_format(0), e.to_string_with_format(0)["DKGError of type ".len()..]);
}

#[test]
fn misbehaviour_descriptions_ignore_the_session() {
    let e1 = DKGError::KeygenMisbehaviour { reason: String::from("x"), bad_actors: vec![AuthorityId([2; 33])], session_id: 1 };
    let e2 = DKGError::KeygenMisbehaviour { reason: String::from("x"), bad_actors: vec![AuthorityId([2; 33])], session_id: 99 };
    assert_eq!(e1.to_string(), e2.to_string());
    assert_eq!(e1.to_string_with_format(7), e2.to_string_with_format(7));
}
