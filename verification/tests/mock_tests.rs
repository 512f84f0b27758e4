use dkg_primitives::gossip::AuthorityId;
use dkg_primitives::mock::{
    mock_authorities, mock_dkg_id, mock_pub_key, new_test_ext, new_test_ext_raw_authorities, DKGEcdsaToEthereumAddress,
    MockSessionManager, MILLISECS_PER_BLOCK, MINIMUM_PERIOD, SLOT_DURATION,
};
use sp_core::Hasher;

fn hex(s: &str) -> Vec<u8> {
    (0..s.len()).step_by(2).map(|i| u8::from_str_radix(&s[i..i + 2], 16).unwrap()).collect()
}

#[test]
fn mock_keys_repeat_the_id() {
    assert_eq!(mock_pub_key(7).0, [7u8; 32]);
    assert_eq!(mock_dkg_id(9).0, [9u8; 33]);
}

#[test]
fn mock_authorities_pair_accounts_and_keys() {
    let pairs = mock_authorities(vec![1, 2, 5]);
    assert_eq!(pairs.len(), 3);
    assert_eq!(pairs[2].0 .0, [5u8; 32]);
    assert_eq!(pairs[2].1 .0, [5u8; 33]);
    assert!(mock_authorities(vec![]).is_empty());
}

#[test]
fn session_validators() {
    let keys = |v: Option<Vec<dkg_primitives::mock::AccountId>>| v.map(|v| v.iter().map(|a| a.0[0]).collect::<Vec<u8>>());
    assert_eq!(keys(MockSessionManager::new_session(0)), Some(vec![1, 2]));
    assert_eq!(keys(MockSessionManager::new_session(1)), Some(vec![1, 2]));
    assert_eq!(keys(MockSessionManager::new_session(2)), Some(vec![3, 4]));
    assert_eq!(keys(MockSessionManager::new_session(3)), None);
    assert_eq!(keys(MockSessionManager::new_session(u32::MAX)), None);
    MockSessionManager::start_session(0);
    MockSessionManager::end_session(0);
}

#[test]
fn test_genesis() {
    let g = new_test_ext(vec![1, 2, 3]);
    assert_eq!(g.signature_threshold, 1);
    assert_eq!(g.keygen_threshold, 3);
    assert_eq!(g.block_number, 1);
    assert_eq!(g.authorities.len(), 3);
    assert_eq!(g.authorities[1].0, [2u8; 33]);
    assert_eq!(g.authority_ids[2].0, [3u8; 32]);
    assert_eq!(g.session_keys[0].0 .0, [1u8; 32]);
    assert_eq!(g.session_keys[0].1 .0, [1u8; 32]);
    assert_eq!(g.session_keys[0].2 .0, [1u8; 33]);
    assert_eq!(g.providers.len(), 3);
    assert_eq!(g.providers[1].0, [2u8; 32]);
    assert_eq!(g.session_validators.len(), 2);
    assert_eq!(g.session_validators[0].0, [1u8; 32]);
    assert_eq!(g.session_validators[1].0, [2u8; 32]);
    assert!(g.keystore.keys.is_empty());
}

#[test]
fn raw_genesis_keeps_the_given_pairs() {
    let pairs = vec![
        (mock_pub_key(2), mock_dkg_id(20)),
        (mock_pub_key(1), mock_dkg_id(10)),
    ];
    let g = new_test_ext_raw_authorities(pairs);
    assert_eq!(g.authorities[0], mock_dkg_id(20));
    assert_eq!(g.authority_ids[1], mock_pub_key(1));
    assert_eq!(g.providers[0], mock_pub_key(2));
    assert_eq!(g.session_keys[1].2, mock_dkg_id(10));
}

#[test]
fn keys_of_other_shapes_have_no_address() {
    // tag byte 1 is no SEC1 point
    assert!(DKGEcdsaToEthereumAddress::convert(mock_dkg_id(1)).is_empty());
}

#[test]
fn timing_constants() {
    assert_eq!(MILLISECS_PER_BLOCK, 10000);
    assert_eq!(SLOT_DURATION, MILLISECS_PER_BLOCK);
    assert_eq!(MINIMUM_PERIOD, SLOT_DURATION / 2);
}

#[test]
fn ethereum_address_of_the_generator_key() {
    // the public key of the secret key 1
    let mut key = [0u8; 33];
    key.copy_from_slice(&hex("0279be667ef9dcbbac55a06295ce870b07029bfcdb2dce28d959f2815b16f81798"));
    let address = DKGEcdsaToEthereumAddress::convert(AuthorityId(key));
    assert_eq!(address, hex("7e5f4552091a69125d5dfcb7b8c2659029395bdf"));
}

#[test]
fn ethereum_address_is_keccak_of_the_uncompressed_point() {
    let key = hex("0279be667ef9dcbbac55a06295ce870b07029bfcdb2dce28d959f2815b16f81798");
    let mut point = hex("79be667ef9dcbbac55a06295ce870b07029bfcdb2dce28d959f2815b16f81798");
    point.extend(hex("483ada7726a3c4655da4fbfc0e1108a8fd17b448a68554199c47d08ffb10d4b8"));
    let hash = <sp_core::KeccakHasher as Hasher>::hash(&point).0;
    let mut k = [0u8; 33];
    k.copy_from_slice(&key);
    assert_eq!(DKGEcdsaToEthereumAddress::convert(AuthorityId(k)), hash[12..].to_vec());
}

#[test]
fn invalid_keys_have_no_address() {
    assert!(DKGEcdsaToEthereumAddress::convert(AuthorityId([1u8; 33])).is_empty());
    assert!(DKGEcdsaToEthereumAddress::convert(AuthorityId([0u8; 33])).is_empty());
}

#[test]
fn new_test_ext_is_the_raw_genesis_of_mock_authorities() {
    let ids = vec![2u8, 1, 9];
    let a = new_test_ext(ids.clone());
    let b = new_test_ext_raw_authorities(mock_authorities(ids));
    assert_eq!(a.authorities, b.authorities);
    assert_eq!(a.authority_ids, b.authority_ids);
    assert_eq!(a.providers, b.providers);
    assert_eq!(a.session_keys, b.session_keys);
    assert_eq!(a.session_validators, b.session_validators);
}
