use dkg_primitives::evm_log::{decode_log_entry, log_entry_from_parts};
use dkg_primitives::light_proposals::{
    anchor_update_proposals, anchor_update_source, evm_proof_to_verify, Error, EvmProof, Pallet, ProofData,
};
use dkg_primitives::proposals::{
    AnchorUpdateProposal, FunctionSignature, ProposalHeader, ResourceId, SubstrateTargetSystem, TargetSystem,
    TypedChainId,
};
use rlp::RlpStream;

fn log_bytes(address: &[u8], topics: &[Vec<u8>], data: &[u8]) -> Vec<u8> {
    let mut s = RlpStream::new_list(3);
    s.append(&address.to_vec());
    s.begin_list(topics.len());
    for t in topics {
        s.append(t);
    }
    s.append(&data.to_vec());
    s.out().to_vec()
}

fn topic(byte: u8) -> Vec<u8> {
    vec![byte; 32]
}

fn nonce_topic(nonce: u32) -> Vec<u8> {
    let mut t = vec![0u8; 28];
    t.extend_from_slice(&nonce.to_be_bytes());
    t
}

fn evm_proof(log: Vec<u8>) -> EvmProof {
    EvmProof {
        log_index: 0,
        log_entry_data: log,
        receipt_index: 0,
        receipt_data: vec![],
        header_data: vec![],
        proof: vec![],
    }
}

#[test]
fn typed_chain_id_layout() {
    assert_eq!(TypedChainId::Evm(4).to_bytes(), [0x01, 0x00, 0, 0, 0, 4]);
    assert_eq!(TypedChainId::Substrate(0x01020304).to_bytes(), [0x02, 0x00, 1, 2, 3, 4]);
    assert_eq!(TypedChainId::PolkadotParachain(1).to_bytes(), [0x03, 0x01, 0, 0, 0, 1]);
    assert_eq!(TypedChainId::KusamaParachain(1).to_bytes(), [0x03, 0x02, 0, 0, 0, 1]);
    assert_eq!(TypedChainId::RococoParachain(1).to_bytes(), [0x03, 0x03, 0, 0, 0, 1]);
    assert_eq!(TypedChainId::Cosmos(1).to_bytes(), [0x04, 0x00, 0, 0, 0, 1]);
    assert_eq!(TypedChainId::Solana(1).to_bytes(), [0x05, 0x00, 0, 0, 0, 1]);
    assert_eq!(TypedChainId::Ink(0xffffffff).to_bytes(), [0x06, 0x00, 0xff, 0xff, 0xff, 0xff]);
    assert_eq!(TypedChainId::Unknown.to_bytes(), [0; 6]);
}

#[test]
fn anchor_update_proposal_layout_matches_the_reference_vector() {
    let target = TargetSystem::ContractAddress([0xaa; 20]);
    let resource_id = ResourceId::new(target, TypedChainId::Evm(4));
    let header = ProposalHeader::new(resource_id, FunctionSignature([0xca, 0xfe, 0xba, 0xbe]), 1);
    let root: [u8; 32] = core::array::from_fn(|i| i as u8);
    let src = ResourceId::new(target, TypedChainId::Evm(1));
    let proposal = AnchorUpdateProposal::new(header, root, src);
    let mut expected = vec![0u8; 6];
    expected.extend_from_slice(&[0xaa; 20]);
    expected.extend_from_slice(&[0x01, 0x00, 0, 0, 0, 4, 0xca, 0xfe, 0xba, 0xbe, 0, 0, 0, 1]);
    expected.extend_from_slice(&root);
    expected.extend_from_slice(&[0u8; 6]);
    expected.extend_from_slice(&[0xaa; 20]);
    expected.extend_from_slice(&[0x01, 0x00, 0, 0, 0, 1]);
    assert_eq!(proposal.to_vec(), expected);
    assert_eq!(header.to_vec(), expected[..40].to_vec());
}

#[test]
fn parses_an_anchor_log() {
    let address = [0x11u8; 20];
    let log = log_bytes(&address, &[topic(1), topic(2), nonce_topic(0x0a0b0c0d)], &[9, 9]);
    assert_eq!(Pallet::parse_evm_log(&log), (address, [2u8; 32], 0x0a0b0c0d));
    assert_eq!(Pallet::try_parse_evm_log(&log), Ok((address, [2u8; 32], 0x0a0b0c0d)));
    let entry = decode_log_entry(&log).unwrap();
    assert_eq!(entry.address, address);
    assert_eq!(entry.topics.len(), 3);
    assert_eq!(entry.data, vec![9, 9]);
}

#[test]
fn nonce_is_read_from_the_last_four_bytes_of_the_third_topic() {
    let mut t = vec![0xffu8; 28];
    t.extend_from_slice(&[0, 0, 1, 0]);
    let log = log_bytes(&[0u8; 20], &[topic(0), topic(0), t], &[]);
    assert_eq!(Pallet::parse_evm_log(&log).2, 256);
}

#[test]
fn refuses_logs_with_too_few_topics() {
    let log = log_bytes(&[0u8; 20], &[topic(1), topic(2)], &[]);
    assert_eq!(Pallet::try_parse_evm_log(&log), Err(Error::MissingLogTopics));
}

#[test]
fn refuses_malformed_logs() {
    assert_eq!(Pallet::try_parse_evm_log(&[]), Err(Error::InvalidLogEntry));
    assert_eq!(Pallet::try_parse_evm_log(&[0xc0]), Err(Error::InvalidLogEntry));
    // an address of 19 bytes
    let log = log_bytes(&[0u8; 19], &[topic(1), topic(2), topic(3)], &[]);
    assert_eq!(Pallet::try_parse_evm_log(&log), Err(Error::InvalidLogEntry));
    // a topic of 31 bytes
    let log = log_bytes(&[0u8; 20], &[topic(1), vec![0u8; 31], topic(3)], &[]);
    assert_eq!(Pallet::try_parse_evm_log(&log), Err(Error::InvalidLogEntry));
    assert!(decode_log_entry(&log).is_none());
}

#[test]
fn only_evm_chains_are_accepted() {
    let data = ProofData::Evm(evm_proof(vec![1]));
    let p = evm_proof_to_verify(&TypedChainId::Evm(1), &data).unwrap();
    assert_eq!(p.log_entry_data, vec![1]);
    assert_eq!(
        evm_proof_to_verify(&TypedChainId::Substrate(1), &data).err(),
        Some(Error::InvalidTypedChainId)
    );
    assert_eq!(
        evm_proof_to_verify(&TypedChainId::Unknown, &data).err(),
        Some(Error::InvalidTypedChainId)
    );
}

#[test]
fn unverified_logs_are_refused_before_parsing() {
    assert_eq!(
        anchor_update_source(TypedChainId::Evm(1), &[], false).err(),
        Some(Error::InvalidEvmLogEntryProof)
    );
    assert_eq!(
        anchor_update_source(TypedChainId::Evm(1), &[], true).err(),
        Some(Error::InvalidLogEntry)
    );
}

#[test]
fn source_of_a_verified_log() {
    let address = [0x42u8; 20];
    let log = log_bytes(&address, &[topic(0), topic(7), nonce_topic(5)], &[]);
    let (src, root, nonce) = anchor_update_source(TypedChainId::Evm(5), &log, true).unwrap();
    let mut expected = [0u8; 32];
    expected[6..26].copy_from_slice(&address);
    expected[26..32].copy_from_slice(&[0x01, 0x00, 0, 0, 0, 5]);
    assert_eq!(src.0, expected);
    assert_eq!(root, [7u8; 32]);
    assert_eq!(nonce, 5);
}

#[test]
fn proposals_go_to_every_other_anchor_of_the_bridge() {
    let src = ResourceId::new(TargetSystem::ContractAddress([1; 20]), TypedChainId::Evm(1));
    let b = ResourceId::new(TargetSystem::ContractAddress([2; 20]), TypedChainId::Evm(2));
    let c = ResourceId::new(TargetSystem::ContractAddress([1; 20]), TypedChainId::Evm(3));
    let bridge = vec![b, src, c];
    let proposals = anchor_update_proposals(&src, [8; 32], 77, &bridge);
    assert_eq!(proposals.len(), 2);
    assert_eq!(proposals[0].header.resource_id.0, b.0);
    assert_eq!(proposals[1].header.resource_id.0, c.0);
    for p in &proposals {
        assert_eq!(p.header.function_signature.0, [0; 4]);
        assert_eq!(p.header.nonce, 77);
        assert_eq!(p.merkle_root, [8; 32]);
        assert_eq!(p.src_resource_id.0, src.0);
    }
    assert!(anchor_update_proposals(&src, [8; 32], 77, &vec![src]).is_empty());
    assert!(anchor_update_proposals(&src, [8; 32], 77, &vec![]).is_empty());
}

#[test]
fn same_resource_ids() {
    let a = ResourceId::new(TargetSystem::ContractAddress([1; 20]), TypedChainId::Evm(1));
    let b = ResourceId::new(TargetSystem::ContractAddress([1; 20]), TypedChainId::Substrate(1));
    assert!(a.same_as(&a));
    assert!(!a.same_as(&b));
}

#[test]
fn bridges_without_the_source_get_a_proposal_per_resource_in_order() {
    let src = ResourceId::new(TargetSystem::ContractAddress([1; 20]), TypedChainId::Evm(1));
    let ids: Vec<ResourceId> = (2u8..6)
        .map(|i| ResourceId::new(TargetSystem::ContractAddress([i; 20]), TypedChainId::Evm(i as u32)))
        .collect();
    let proposals = anchor_update_proposals(&src, [0; 32], 3, &ids);
    assert_eq!(proposals.len(), ids.len());
    for (p, r) in proposals.iter().zip(ids.iter()) {
        assert_eq!(p.header.resource_id.0, r.0);
    }
}

#[test]
fn proposal_nonce_bytes_are_the_topic_bytes() {
    let t = nonce_topic(0xdeadbeef);
    let log = log_bytes(&[3u8; 20], &[topic(0), topic(1), t.clone()], &[]);
    let (src, root, nonce) = anchor_update_source(TypedChainId::Evm(1), &log, true).unwrap();
    let target = ResourceId::new(TargetSystem::ContractAddress([4; 20]), TypedChainId::Evm(2));
    let proposals = anchor_update_proposals(&src, root, nonce, &vec![target]);
    let bytes = proposals[0].to_vec();
    assert_eq!(bytes[36..40].to_vec(), t[28..32].to_vec());
}

#[test]
fn parse_reads_only_the_address_and_two_topics() {
    let a = log_bytes(&[5u8; 20], &[topic(1), topic(2), nonce_topic(9)], &[1, 2, 3]);
    let b = log_bytes(&[5u8; 20], &[topic(7), topic(2), nonce_topic(9), topic(4)], &[]);
    assert_eq!(Pallet::parse_evm_log(&a), Pallet::parse_evm_log(&b));
}

#[test]
fn resource_ids_compare_by_bytes() {
    let a = ResourceId::new(TargetSystem::ContractAddress([1; 20]), TypedChainId::Evm(1));
    let b = ResourceId::new(TargetSystem::ContractAddress([1; 20]), TypedChainId::Evm(1));
    let c = ResourceId::new(TargetSystem::ContractAddress([1; 20]), TypedChainId::Evm(2));
    assert!(a == b);
    assert!(a != c);
}

#[test]
fn substrate_resource_id_layout() {
    let t = TargetSystem::Substrate(SubstrateTargetSystem { pallet_index: 7, tree_id: 0x01020304 });
    let r = ResourceId::new(t, TypedChainId::Substrate(5));
    let mut expected = [0u8; 32];
    expected[21] = 7;
    expected[22..26].copy_from_slice(&[1, 2, 3, 4]);
    expected[26..32].copy_from_slice(&[0x02, 0x00, 0, 0, 0, 5]);
    assert_eq!(r.0, expected);
}

#[test]
fn log_entries_from_decoded_parts() {
    let log = log_entry_from_parts(&vec![1u8; 20], &vec![topic(1), topic(2), nonce_topic(3)], vec![4]).unwrap();
    assert_eq!(Pallet::anchor_fields(&log), Ok(([1u8; 20], [2u8; 32], 3)));
    assert!(log_entry_from_parts(&vec![1u8; 21], &vec![], vec![]).is_none());
    assert!(log_entry_from_parts(&vec![1u8; 20], &vec![vec![0u8; 33]], vec![]).is_none());
    let short = log_entry_from_parts(&vec![1u8; 20], &vec![topic(1)], vec![]).unwrap();
    assert_eq!(Pallet::anchor_fields(&short), Err(Error::MissingLogTopics));
}
