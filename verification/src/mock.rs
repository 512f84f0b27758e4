//! Helpers of the DKG metadata pallet's test runtime: mock accounts and
//! authority keys, the session manager's validator sets, the genesis state
//! a test starts from, and the conversion of authority keys into Ethereum
//! addresses.

use vstd::prelude::*;
use k256::elliptic_curve::sec1::ToEncodedPoint;
use crate::gossip::AuthorityId;
use crate::hashing::{keccak_256, keccak_256_of};

verus! {

/// Block time of the test runtime, in milliseconds.
pub const MILLISECS_PER_BLOCK: u64 = 10000;

/// Slot duration of the test runtime, in milliseconds.
pub const SLOT_DURATION: u64 = 10000;

/// Minimum period between timestamps: half a slot.
pub const MINIMUM_PERIOD: u64 = 5000;

/// An account of the test runtime: an sr25519 public key.
#[derive(Clone, Copy, Debug, Eq)]
pub struct AccountId(pub [u8; 32]);

impl PartialEq for AccountId {
    fn eq(&self, other: &Self) -> (r: bool) {
        crate::bytes::bytes_equal(self.0.as_slice(), other.0.as_slice())
    }
}

impl vstd::std_specs::cmp::PartialEqSpecImpl for AccountId {
    open spec fn obeys_eq_spec() -> bool {
        true
    }

    open spec fn eq_spec(&self, other: &Self) -> bool {
        self.0@ == other.0@
    }
}

/// The account whose public key is 32 copies of `id`.
pub fn mock_pub_key(id: u8) -> (r: AccountId)
    ensures
        r.0@ == Seq::new(32, |i: int| id),
{
    let r = AccountId([id; 32]);
    assert(r.0@ =~= Seq::new(32, |i: int| id));
    r
}

/// The DKG authority whose ECDSA public key is 33 copies of `id` (an ECDSA
/// public key is 33 bytes long, which is why `mock_pub_key` will not do).
pub fn mock_dkg_id(id: u8) -> (r: AuthorityId)
    ensures
        r.0@ == Seq::new(33, |i: int| id),
{
    let r = AuthorityId([id; 33]);
    assert(r.0@ =~= Seq::new(33, |i: int| id));
    r
}

/// Whether `pair` is the mock account and authority for `id`.
pub open spec fn is_mock_authority(pair: (AccountId, AuthorityId), id: u8) -> bool {
    &&& pair.0.0@ == Seq::new(32, |i: int| id)
    &&& pair.1.0@ == Seq::new(33, |i: int| id)
}

/// The mock account and authority for each id, in order.
pub fn mock_authorities(vec: Vec<u8>) -> (r: Vec<(AccountId, AuthorityId)>)
    ensures
        r@.len() == vec@.len(),
        forall|i: int| 0 <= i < vec@.len() ==> is_mock_authority(#[trigger] r@[i], vec@[i]),
{
    let mut out: Vec<(AccountId, AuthorityId)> = Vec::new();
    let mut i: usize = 0;
    while i < vec.len()
        invariant
            i <= vec@.len(),
            out@.len() == i,
            forall|k: int| 0 <= k < i ==> is_mock_authority(#[trigger] out@[k], vec@[k]),
        decreases vec@.len() - i,
    {
        let id = vec[i];
        out.push((mock_pub_key(id), mock_dkg_id(id)));
        i = i + 1;
    }
    out
}

/// The session manager of the test runtime.
pub struct MockSessionManager;

/// The validator ids that session `idx` starts with: the mock accounts 1 and
/// 2 for the first two sessions, 3 and 4 for the third, none afterwards.
pub open spec fn session_validator_ids(idx: u32) -> Option<Seq<u8>> {
    if idx == 0 || idx == 1 {
        Some(seq![1u8, 2u8])
    } else if idx == 2 {
        Some(seq![3u8, 4u8])
    } else {
        None
    }
}

impl MockSessionManager {
    /// Ends a session; the mock does nothing.
    pub fn end_session(_idx: u32) {
    }

    /// Starts a session; the mock does nothing.
    pub fn start_session(_idx: u32) {
    }

    /// The validators of a new session, `None` to keep the current ones.
    pub fn new_session(idx: u32) -> (r: Option<Vec<AccountId>>)
        ensures
            match session_validator_ids(idx) {
                None => r is None,
                Some(ids) => r matches Some(v) && v@.len() == ids.len() && forall|i: int|
                    0 <= i < ids.len() ==> (#[trigger] v@[i]).0@ == Seq::new(32, |k: int| ids[i]),
            },
    {
        if idx == 0 || idx == 1 {
            let mut v: Vec<AccountId> = Vec::new();
            v.push(mock_pub_key(1));
            v.push(mock_pub_key(2));
            Some(v)
        } else if idx == 2 {
            let mut v: Vec<AccountId> = Vec::new();
            v.push(mock_pub_key(3));
            v.push(mock_pub_key(4));
            Some(v)
        } else {
            None
        }
    }
}

/// The keystore extension of a test externality: the keys it holds.
pub struct Keystore {
    pub keys: Vec<Vec<u8>>,
}

/// The genesis state of a test externality.
pub struct TestGenesis {
    /// Accounts given a provider reference, one per authority entry, before
    /// the session genesis is laid down
    pub providers: Vec<AccountId>,
    /// Session keys: validator, account, and the authority key as the
    /// pallet's session key
    pub session_keys: Vec<(AccountId, AccountId, AuthorityId)>,
    /// Validators of the first session, as the session manager names them
    pub session_validators: Vec<AccountId>,
    /// DKG authorities
    pub authorities: Vec<AuthorityId>,
    /// Signature threshold
    pub signature_threshold: u16,
    /// Keygen threshold
    pub keygen_threshold: u16,
    /// Accounts of the authorities
    pub authority_ids: Vec<AccountId>,
    /// The block a test starts at, so that events are recorded
    pub block_number: u64,
    /// The keystore registered with the externality
    pub keystore: Keystore,
}

/// Whether some entry of `authorities` belongs to the mock account `id`.
pub open spec fn has_mock_account(authorities: Seq<(AccountId, AuthorityId)>, id: u8) -> bool {
    exists|i: int| 0 <= i < authorities.len() && (#[trigger] authorities[i]).0.0@ == Seq::new(32, |k: int| id)
}

/// Whether a genesis can be laid down for `authorities`: the validators of
/// the first two sessions (mock accounts 1 and 2) have session keys, and no
/// authority key is the session key of two different accounts.
pub open spec fn genesis_buildable(authorities: Seq<(AccountId, AuthorityId)>) -> bool {
    &&& has_mock_account(authorities, 1)
    &&& has_mock_account(authorities, 2)
    &&& forall|i: int, j: int|
        0 <= i < authorities.len() && 0 <= j < authorities.len() && (#[trigger] authorities[i]).1
            == (#[trigger] authorities[j]).1 ==> authorities[i].0 == authorities[j].0
}

/// Whether `g` is the genesis state for the given accounts and authorities:
/// each account gets a provider reference and is its own validator with the
/// authority key as session key; the first session's validators are mock
/// accounts 1 and 2; thresholds are 1 (signature) and 3 (keygen); the test
/// starts at block 1 with an empty keystore.
pub open spec fn is_genesis_for(g: TestGenesis, authorities: Seq<(AccountId, AuthorityId)>) -> bool {
    &&& g.providers@.len() == authorities.len()
    &&& g.session_keys@.len() == authorities.len()
    &&& g.authorities@.len() == authorities.len()
    &&& g.authority_ids@.len() == authorities.len()
    &&& forall|i: int| 0 <= i < authorities.len() ==> #[trigger] g.providers@[i] == authorities[i].0
    &&& forall|i: int|
        0 <= i < authorities.len() ==> #[trigger] g.session_keys@[i] == (
            authorities[i].0,
            authorities[i].0,
            authorities[i].1,
        )
    &&& forall|i: int| 0 <= i < authorities.len() ==> #[trigger] g.authorities@[i] == authorities[i].1
    &&& forall|i: int| 0 <= i < authorities.len() ==> #[trigger] g.authority_ids@[i] == authorities[i].0
    &&& g.session_validators@.len() == 2
    &&& g.session_validators@[0].0@ == Seq::new(32, |k: int| 1u8)
    &&& g.session_validators@[1].0@ == Seq::new(32, |k: int| 2u8)
    &&& g.signature_threshold == 1
    &&& g.keygen_threshold == 3
    &&& g.block_number == 1
    &&& g.keystore.keys@.len() == 0
}

/// The genesis state of a test externality with the given accounts and
/// authorities. Laying the genesis down fails (a first-session validator
/// without keys, or a key shared by two accounts), which `requires` leaves
/// out.
pub fn new_test_ext_raw_authorities(authorities: Vec<(AccountId, AuthorityId)>) -> (r: TestGenesis)
    requires
        genesis_buildable(authorities@),
    ensures
        is_genesis_for(r, authorities@),
{
    let mut providers: Vec<AccountId> = Vec::new();
    let mut session_keys: Vec<(AccountId, AccountId, AuthorityId)> = Vec::new();
    let mut dkg_authorities: Vec<AuthorityId> = Vec::new();
    let mut authority_ids: Vec<AccountId> = Vec::new();
    let mut i: usize = 0;
    while i < authorities.len()
        invariant
            i <= authorities@.len(),
            providers@.len() == i,
            session_keys@.len() == i,
            dkg_authorities@.len() == i,
            authority_ids@.len() == i,
            forall|k: int| 0 <= k < i ==> #[trigger] providers@[k] == authorities@[k].0,
            forall|k: int|
                0 <= k < i ==> #[trigger] session_keys@[k] == (
                    authorities@[k].0,
                    authorities@[k].0,
                    authorities@[k].1,
                ),
            forall|k: int| 0 <= k < i ==> #[trigger] dkg_authorities@[k] == authorities@[k].1,
            forall|k: int| 0 <= k < i ==> #[trigger] authority_ids@[k] == authorities@[k].0,
        decreases authorities@.len() - i,
    {
        let (acc, id) = authorities[i];
        providers.push(acc);
        session_keys.push((acc, acc, id));
        dkg_authorities.push(id);
        authority_ids.push(acc);
        i = i + 1;
    }
    let session_validators = match MockSessionManager::new_session(0) {
        Some(v) => v,
        None => Vec::new(),
    };
    TestGenesis {
        providers,
        session_keys,
        session_validators,
        authorities: dkg_authorities,
        signature_threshold: 1,
        keygen_threshold: 3,
        authority_ids,
        block_number: 1,
        keystore: Keystore { keys: Vec::new() },
    }
}

/// The genesis state of a test externality with the mock authorities of
/// the given ids; ids 1 and 2 must be among them, as the first session's
/// validators need keys.
pub fn new_test_ext(ids: Vec<u8>) -> (r: TestGenesis)
    requires
        ids@.contains(1u8),
        ids@.contains(2u8),
    ensures
        r.authorities@.len() == ids@.len(),
        exists|pairs: Seq<(AccountId, AuthorityId)>|
            pairs.len() == ids@.len() && (forall|i: int|
                0 <= i < ids@.len() ==> is_mock_authority(#[trigger] pairs[i], ids@[i]))
                && is_genesis_for(r, pairs),
{
    let authorities = mock_authorities(ids);
    let ghost pairs = authorities@;
    proof {
        let i1 = choose|i: int| 0 <= i < ids@.len() && ids@[i] == 1u8;
        assert(is_mock_authority(pairs[i1], ids@[i1]));
        let i2 = choose|i: int| 0 <= i < ids@.len() && ids@[i] == 2u8;
        assert(is_mock_authority(pairs[i2], ids@[i2]));
        assert forall|i: int, j: int|
            0 <= i < pairs.len() && 0 <= j < pairs.len() && (#[trigger] pairs[i]).1 == (#[trigger] pairs[j]).1
            implies pairs[i].0 == pairs[j].0 by {
            assert(is_mock_authority(pairs[i], ids@[i]));
            assert(is_mock_authority(pairs[j], ids@[j]));
            assert(pairs[i].1.0@[0] == ids@[i]);
            assert(pairs[j].1.0@[0] == ids@[j]);
            assert(pairs[i].0.0@ =~= pairs[j].0.0@);
            assert(pairs[i].0.0 =~= pairs[j].0.0);
        }
    }
    let r = new_test_ext_raw_authorities(authorities);
    assert(is_genesis_for(r, pairs));
    r
}

/// Whether two genesis states agree in every field.
pub open spec fn same_genesis(g1: TestGenesis, g2: TestGenesis) -> bool {
    &&& g1.providers@ == g2.providers@
    &&& g1.session_keys@ == g2.session_keys@
    &&& g1.session_validators@ == g2.session_validators@
    &&& g1.authorities@ == g2.authorities@
    &&& g1.signature_threshold == g2.signature_threshold
    &&& g1.keygen_threshold == g2.keygen_threshold
    &&& g1.authority_ids@ == g2.authority_ids@
    &&& g1.block_number == g2.block_number
    &&& g1.keystore.keys@ == g2.keystore.keys@
}

/// The genesis state for given accounts and authorities is determined by
/// them.
pub proof fn lemma_genesis_determined(g1: TestGenesis, g2: TestGenesis, authorities: Seq<(AccountId, AuthorityId)>)
    requires
        is_genesis_for(g1, authorities),
        is_genesis_for(g2, authorities),
    ensures
        same_genesis(g1, g2),
{
    assert(g1.providers@ =~= g2.providers@);
    assert(g1.session_keys@ =~= g2.session_keys@);
    assert(g1.authorities@ =~= g2.authorities@);
    assert(g1.authority_ids@ =~= g2.authority_ids@);
    assert(g1.session_validators@[0].0 =~= g2.session_validators@[0].0);
    assert(g1.session_validators@[1].0 =~= g2.session_validators@[1].0);
    assert(g1.session_validators@ =~= g2.session_validators@);
    assert(g1.keystore.keys@ =~= g2.keystore.keys@);
}

/// The mock account and authority of an id are determined by the id.
pub proof fn lemma_mock_authority_determined(p: (AccountId, AuthorityId), q: (AccountId, AuthorityId), id: u8)
    requires
        is_mock_authority(p, id),
        is_mock_authority(q, id),
    ensures
        p == q,
{
    assert(p.0.0 =~= q.0.0);
    assert(p.1.0 =~= q.1.0);
}

/// `new_test_ext(ids)` gives the genesis state that
/// `new_test_ext_raw_authorities(mock_authorities(ids))` gives, and it
/// admits exactly the ids on which that call's genesis can be laid down:
/// those among which 1 and 2 are.
pub proof fn lemma_new_test_ext_is_raw_of_mock_authorities(
    ids: Seq<u8>,
    pairs: Seq<(AccountId, AuthorityId)>,
    g: TestGenesis,
    raw: TestGenesis,
)
    requires
        pairs.len() == ids.len(),
        forall|i: int| 0 <= i < ids.len() ==> is_mock_authority(#[trigger] pairs[i], ids[i]),
        is_genesis_for(raw, pairs),
        exists|q: Seq<(AccountId, AuthorityId)>|
            q.len() == ids.len() && (forall|i: int|
                0 <= i < ids.len() ==> is_mock_authority(#[trigger] q[i], ids[i])) && is_genesis_for(g, q),
    ensures
        same_genesis(g, raw),
        genesis_buildable(pairs) <==> (ids.contains(1u8) && ids.contains(2u8)),
{
    let q = choose|q: Seq<(AccountId, AuthorityId)>|
        q.len() == ids.len() && (forall|i: int|
            0 <= i < ids.len() ==> is_mock_authority(#[trigger] q[i], ids[i])) && is_genesis_for(g, q);
    assert forall|i: int| 0 <= i < ids.len() implies q[i] == pairs[i] by {
        lemma_mock_authority_determined(q[i], pairs[i], ids[i]);
    }
    assert(q =~= pairs);
    lemma_genesis_determined(g, raw, pairs);
    if genesis_buildable(pairs) {
        let i1 = choose|i: int| 0 <= i < pairs.len() && (#[trigger] pairs[i]).0.0@ == Seq::new(32, |k: int| 1u8);
        assert(is_mock_authority(pairs[i1], ids[i1]));
        assert(pairs[i1].0.0@[0] == ids[i1]);
        assert(ids.contains(1u8));
        let i2 = choose|i: int| 0 <= i < pairs.len() && (#[trigger] pairs[i]).0.0@ == Seq::new(32, |k: int| 2u8);
        assert(is_mock_authority(pairs[i2], ids[i2]));
        assert(pairs[i2].0.0@[0] == ids[i2]);
        assert(ids.contains(2u8));
    }
    if ids.contains(1u8) && ids.contains(2u8) {
        let i1 = choose|i: int| 0 <= i < ids.len() && ids[i] == 1u8;
        assert(is_mock_authority(pairs[i1], ids[i1]));
        let i2 = choose|i: int| 0 <= i < ids.len() && ids[i] == 2u8;
        assert(is_mock_authority(pairs[i2], ids[i2]));
        assert forall|i: int, j: int|
            0 <= i < pairs.len() && 0 <= j < pairs.len() && (#[trigger] pairs[i]).1 == (#[trigger] pairs[j]).1
            implies pairs[i].0 == pairs[j].0 by {
            assert(is_mock_authority(pairs[i], ids[i]));
            assert(is_mock_authority(pairs[j], ids[j]));
            assert(pairs[i].1.0@[0] == ids[i]);
            assert(pairs[j].1.0@[0] == ids[j]);
            assert(pairs[i].0.0 =~= pairs[j].0.0);
        }
    }
}

/// What the secp256k1 decoder yields for a SEC1-encoded public key: the
/// uncompressed SEC1 encoding of the point, `None` when `key` encodes no
/// point of the curve.
pub uninterp spec fn sec1_uncompressed_point(key: Seq<u8>) -> Option<Seq<u8>>;

/// Whether `key` has the shape of a SEC1-encoded secp256k1 point other than
/// the identity: a compressed or compact point (tag 2, 3 or 5, 33 bytes) or
/// an uncompressed one (tag 4, 65 bytes).
pub open spec fn sec1_shaped(key: Seq<u8>) -> bool {
    ||| key.len() == 33 && (key[0] == 2u8 || key[0] == 3u8 || key[0] == 5u8)
    ||| key.len() == 65 && key[0] == 4u8
}

/// k256's `VerifyingKey::from_sec1_bytes`, then `to_encoded_point(false)` on
/// the key it gives: the uncompressed encoding (the tag 0x04, then the 32
/// bytes of each coordinate) of the point that `key` encodes, `None` when it
/// encodes none. Only keys of a SEC1 shape decode (the tag and length checks
/// of `EncodedPoint::from_bytes`, and the refusal of the identity); which of
/// them lie on the curve is left to the name. The key itself never reaches
/// verified code.
#[verifier::external_body]
fn uncompressed_public_key(key: &[u8]) -> (r: Option<Vec<u8>>)
    ensures
        match r {
            Some(p) => sec1_uncompressed_point(key@) == Some(p@) && p@.len() == 65 && p@[0] == 4u8
                && sec1_shaped(key@),
            None => sec1_uncompressed_point(key@) is None,
        },
{
    match k256::ecdsa::VerifyingKey::from_sec1_bytes(key) {
        Ok(k) => Some(k.to_encoded_point(false).as_bytes().to_vec()),
        Err(_) => None,
    }
}

/// The Ethereum address of a DKG authority key: the last 20 bytes of the
/// Keccak-256 hash of the key's uncompressed point without its tag byte;
/// empty when the key is not a valid secp256k1 public key.
pub open spec fn ethereum_address(key: Seq<u8>) -> Seq<u8> {
    match sec1_uncompressed_point(key) {
        Some(point) => keccak_256_of(point.subrange(1, point.len() as int)).subrange(12, 32),
        None => Seq::empty(),
    }
}

/// The Ethereum address of a key that decodes is made from the point that
/// the key itself decodes to, whatever its tag: the last 20 bytes of the
/// Keccak-256 hash of that point's two coordinates (its uncompressed
/// encoding without the tag byte). So keys that decode to the same point,
/// in whichever encoding, have the same address, and a key that decodes to
/// no point has none.
pub proof fn lemma_ethereum_address_of_own_point(key: Seq<u8>, other: Seq<u8>)
    ensures
        sec1_uncompressed_point(key) matches Some(p) ==> p.len() == 65 ==> ethereum_address(key)
            == keccak_256_of(p.subrange(1, 65)).subrange(12, 32),
        sec1_uncompressed_point(key) is None ==> ethereum_address(key).len() == 0,
        sec1_uncompressed_point(key) is Some && sec1_uncompressed_point(key) == sec1_uncompressed_point(other)
            ==> ethereum_address(key) == ethereum_address(other),
{
}

/// Converts DKG secp256k1 public keys into Ethereum addresses.
pub struct DKGEcdsaToEthereumAddress;

impl DKGEcdsaToEthereumAddress {
    /// The Ethereum address of an authority key, empty when the key is not a
    /// valid secp256k1 public key.
    pub fn convert(a: AuthorityId) -> (r: Vec<u8>)
        ensures
            r@ == ethereum_address(a.0@),
            r@.len() == if sec1_uncompressed_point(a.0@) is Some { 20int } else { 0int },
            !sec1_shaped(a.0@) ==> r@.len() == 0,
            sec1_uncompressed_point(a.0@) matches Some(p) ==> r@ == keccak_256_of(p.subrange(1, 65)).subrange(
                12,
                32,
            ),
    {
        match uncompressed_public_key(a.0.as_slice()) {
            None => Vec::new(),
            Some(uncompressed) => {
                let coordinates = copy_range(uncompressed.as_slice(), 1, uncompressed.len());
                let hash = keccak_256(coordinates.as_slice());
                copy_range(hash.as_slice(), 12, 32)
            },
        }
    }
}

/// The bytes of `s` from `from` up to `to`.
fn copy_range(s: &[u8], from: usize, to: usize) -> (r: Vec<u8>)
    requires
        from <= to <= s@.len(),
    ensures
        r@ == s@.subrange(from as int, to as int),
{
    let mut out: Vec<u8> = Vec::new();
    let mut i: usize = from;
    while i < to
        invariant
            from <= i <= to,
            to <= s@.len(),
            out@ == s@.subrange(from as int, i as int),
        decreases to - i,
    {
        out.push(s[i]);
        assert(s@.subrange(from as int, i + 1) =~= s@.subrange(from as int, i as int).push(s@[i as int]));
        i = i + 1;
    }
    out
}

} // verus!
