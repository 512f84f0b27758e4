//! The decisions of the light-client proposals pallet: which proof an anchor
//! update request asks to verify, what a verified log announces, and which
//! anchor update proposals it yields for the other anchors of the bridge.

use vstd::prelude::*;
use crate::evm_log::{decode_log_entry, rlp_list_at, rlp_value_at, nonce_of, spec_log_entry, topic_nonce, LogEntry};
use crate::proposals::{
    be_bytes, lemma_be_bytes_len, AnchorUpdateProposal, FunctionSignature, ProposalHeader, ResourceId, TargetSystem,
    TypedChainId,
};

verus! {

/// Why an anchor update request was refused.
#[derive(Clone, Copy, Debug, PartialEq, Eq, Structural)]
pub enum Error {
    /// The request names a chain that is not an EVM chain.
    InvalidTypedChainId,
    /// The light client did not accept the proof of the log entry.
    InvalidEvmLogEntryProof,
    /// The log entry is not an RLP-encoded EVM log.
    InvalidLogEntry,
    /// The log has fewer than three topics.
    MissingLogTopics,
}

/// Proof that a log entry was emitted on an EVM chain: the log, the receipt
/// that holds it, the block header and the receipt trie proof.
#[derive(Clone, Debug)]
pub struct EvmProof {
    pub log_index: u64,
    pub log_entry_data: Vec<u8>,
    pub receipt_index: u64,
    pub receipt_data: Vec<u8>,
    pub header_data: Vec<u8>,
    pub proof: Vec<Vec<u8>>,
}

/// Proof data submitted with an anchor update request.
#[derive(Clone, Debug)]
pub enum ProofData {
    Evm(EvmProof),
}

impl ProofData {
    /// The EVM proof that the data holds.
    pub fn to_evm_proof(&self) -> (r: Option<&EvmProof>)
        ensures
            match self {
                ProofData::Evm(p) => r == Some(p),
            },
    {
        match self {
            ProofData::Evm(p) => Some(p),
        }
    }
}

/// What `parse_evm_log` gives for `data`: the emitting contract's address,
/// the merkle root in the second topic and the nonce in the third.
pub open spec fn spec_parse_evm_log(data: Seq<u8>) -> Result<(Seq<u8>, Seq<u8>, u32), Error> {
    match spec_log_entry(data) {
        None => Err(Error::InvalidLogEntry),
        Some((address, topics, _)) => spec_anchor_fields(address, topics),
    }
}

/// The light-client proposals pallet.
pub struct Pallet;

/// Whether `data` is an RLP-encoded EVM log with at least three topics.
pub open spec fn is_anchor_log(data: Seq<u8>) -> bool {
    spec_parse_evm_log(data) is Ok
}

/// What a decoded log announces: the address, the second topic and the
/// nonce in the third; `MissingLogTopics` for fewer than three topics.
pub open spec fn spec_anchor_fields(
    address: Seq<u8>,
    topics: Seq<Seq<u8>>,
) -> Result<(Seq<u8>, Seq<u8>, u32), Error> {
    if topics.len() < 3 {
        Err(Error::MissingLogTopics)
    } else {
        Ok((address, topics[1], nonce_of(topics[2])))
    }
}

impl Pallet {
    /// What a decoded anchor log announces: the emitting contract's address,
    /// the merkle root in the second topic and the nonce in the last four
    /// bytes of the third; `MissingLogTopics` for fewer than three topics.
    pub fn anchor_fields(log: &LogEntry) -> (r: Result<([u8; 20], [u8; 32], u32), Error>)
        ensures
            match r {
                Ok((address, merkle_root, nonce)) => spec_anchor_fields(log.address@, log.topic_seqs())
                    == Ok::<(Seq<u8>, Seq<u8>, u32), Error>((address@, merkle_root@, nonce)),
                Err(e) => spec_anchor_fields(log.address@, log.topic_seqs()) == Err::<
                    (Seq<u8>, Seq<u8>, u32),
                    Error,
                >(e),
            },
            r matches Ok((address, merkle_root, _)) ==> address@ == log.address@ && merkle_root@
                == log.topics@[1]@,
    {
        if log.topics.len() < 3 {
            return Err(Error::MissingLogTopics);
        }
        let merkle_root = log.topics[1];
        let nonce = topic_nonce(&log.topics[2]);
        proof {
            assert(log.topic_seqs()[1] == log.topics@[1]@);
            assert(log.topic_seqs()[2] == log.topics@[2]@);
        }
        Ok((log.address, merkle_root, nonce))
    }

    /// Reads an anchor's log: the address of the emitting contract, the merkle
    /// root in the second topic and the nonce in the last four bytes of the
    /// third topic. Data that is not an RLP-encoded log, or a log with fewer
    /// than three topics, makes reading the log fail, which `requires` leaves
    /// out; `try_parse_evm_log` tests for it.
    pub fn parse_evm_log(log_entry_data: &[u8]) -> (r: ([u8; 20], [u8; 32], u32))
        requires
            is_anchor_log(log_entry_data@),
        ensures
            spec_parse_evm_log(log_entry_data@) == Ok::<(Seq<u8>, Seq<u8>, u32), Error>((r.0@, r.1@, r.2)),
            rlp_value_at(log_entry_data@, 0) == Some(r.0@),
            rlp_list_at(log_entry_data@, 1) is Some,
            r.1@ == rlp_list_at(log_entry_data@, 1).unwrap()[1],
            be_bytes(r.2 as nat, 4) == rlp_list_at(log_entry_data@, 1).unwrap()[2].subrange(28, 32),
    {
        proof {
            lemma_parsed_log_fields(log_entry_data@);
        }
        let parsed_log = match decode_log_entry(log_entry_data) {
            Some(log) => log,
            None => {
                proof {
                    assert(false);
                }
                return ([0u8; 20], [0u8; 32], 0);
            },
        };
        match Self::anchor_fields(&parsed_log) {
            Ok(fields) => fields,
            Err(_) => {
                proof {
                    assert(false);
                }
                ([0u8; 20], [0u8; 32], 0)
            },
        }
    }

    /// Reads an anchor's log as `parse_evm_log` does, after testing that
    /// `data` is one: `InvalidLogEntry` for data that is not an RLP-encoded
    /// EVM log, `MissingLogTopics` for a log with fewer than three topics.
    pub fn try_parse_evm_log(log_entry_data: &[u8]) -> (r: Result<([u8; 20], [u8; 32], u32), Error>)
        ensures
            match r {
                Ok((address, merkle_root, nonce)) => spec_parse_evm_log(log_entry_data@) == Ok::<
                    (Seq<u8>, Seq<u8>, u32),
                    Error,
                >((address@, merkle_root@, nonce)),
                Err(e) => spec_parse_evm_log(log_entry_data@) == Err::<(Seq<u8>, Seq<u8>, u32), Error>(e),
            },
            r matches Ok((address, merkle_root, nonce)) ==> rlp_value_at(log_entry_data@, 0) == Some(address@)
                && rlp_list_at(log_entry_data@, 1) is Some && merkle_root@ == rlp_list_at(log_entry_data@, 1).unwrap()[1]
                && be_bytes(nonce as nat, 4) == rlp_list_at(log_entry_data@, 1).unwrap()[2].subrange(28, 32),
    {
        match decode_log_entry(log_entry_data) {
            None => Err(Error::InvalidLogEntry),
            Some(log) => match Self::anchor_fields(&log) {
                Err(e) => Err(e),
                Ok(_) => Ok(Self::parse_evm_log(log_entry_data)),
            },
        }
    }
}

/// What a decoded log announces is the log's own content: the address as it
/// stands, the second topic as it stands, and a nonce that, written big
/// endian, gives back the last four bytes of the third topic; fewer than
/// three topics are refused.
pub proof fn lemma_anchor_fields_read_log(address: Seq<u8>, topics: Seq<Seq<u8>>)
    ensures
        spec_anchor_fields(address, topics) is Err <==> topics.len() < 3,
        spec_anchor_fields(address, topics) matches Ok((a, root, nonce)) ==> a == address && root == topics[1]
            && (topics[2].len() == 32 ==> be_bytes(nonce as nat, 4) == topics[2].subrange(28, 32)),
{
    if topics.len() >= 3 && topics[2].len() == 32 {
        lemma_nonce_bytes_roundtrip(topics[2]);
    }
}

/// Parsing an anchor log succeeds exactly when the data decodes as a list
/// whose first item is a 20-byte address, whose second is a list of at least
/// three 32-byte topics, and whose third is a byte string. What it gives is
/// then read from the decoded items: the address is the first item byte for
/// byte, the merkle root the second topic byte for byte, and the nonce,
/// written big endian, the last four bytes of the third topic.
pub proof fn lemma_parsed_log_fields(data: Seq<u8>)
    ensures
        is_anchor_log(data) <==> (rlp_value_at(data, 0) is Some && rlp_value_at(data, 0).unwrap().len() == 20
            && rlp_list_at(data, 1) is Some && rlp_list_at(data, 1).unwrap().len() >= 3 && (forall|i: int|
            0 <= i < rlp_list_at(data, 1).unwrap().len() ==> (#[trigger] rlp_list_at(data, 1).unwrap()[i]).len()
                == 32) && rlp_value_at(data, 2) is Some),
        spec_parse_evm_log(data) matches Ok((address, root, nonce)) ==> rlp_value_at(data, 0) == Some(address)
            && rlp_list_at(data, 1) is Some && root == rlp_list_at(data, 1).unwrap()[1] && be_bytes(nonce as nat, 4)
            == rlp_list_at(data, 1).unwrap()[2].subrange(28, 32),
{
    if let Some((address, topics, _)) = spec_log_entry(data) {
        lemma_anchor_fields_read_log(address, topics);
    }
}

/// What an anchor's log announces depends on the emitting contract and the
/// second and third topics alone: the log's data and its other topics do not
/// enter it.
pub proof fn lemma_parse_reads_address_and_two_topics(
    d1: Seq<u8>,
    d2: Seq<u8>,
    address: Seq<u8>,
    t1: Seq<Seq<u8>>,
    t2: Seq<Seq<u8>>,
    x1: Seq<u8>,
    x2: Seq<u8>,
)
    requires
        spec_log_entry(d1) == Some((address, t1, x1)),
        spec_log_entry(d2) == Some((address, t2, x2)),
        t1.len() >= 3,
        t2.len() >= 3,
        t1[1] == t2[1],
        t1[2] == t2[2],
    ensures
        spec_parse_evm_log(d1) == spec_parse_evm_log(d2),
        is_anchor_log(d1),
{
}

/// The EVM proof that an anchor update request asks the light client to
/// verify: requests must come from an EVM chain.
pub fn evm_proof_to_verify<'a>(typed_chain_id: &TypedChainId, proof_data: &'a ProofData) -> (r: Result<&'a EvmProof, Error>)
    ensures
        match typed_chain_id {
            TypedChainId::Evm(_) => match proof_data {
                ProofData::Evm(p) => r == Ok::<&EvmProof, Error>(p),
            },
            _ => r == Err::<&EvmProof, Error>(Error::InvalidTypedChainId),
        },
{
    match typed_chain_id {
        TypedChainId::Evm(_) => {
            match proof_data.to_evm_proof() {
                Some(p) => Ok(p),
                None => Err(Error::InvalidTypedChainId),
            }
        },
        _ => Err(Error::InvalidTypedChainId),
    }
}

/// The source of an anchor update: the resource id of the anchor that
/// emitted the log, the merkle root and the nonce (latest leaf index).
pub open spec fn spec_anchor_update_source(
    typed_chain_id: TypedChainId,
    log_entry_data: Seq<u8>,
    proof_verified: bool,
) -> Result<(Seq<u8>, Seq<u8>, u32), Error> {
    if !proof_verified {
        Err(Error::InvalidEvmLogEntryProof)
    } else {
        match spec_parse_evm_log(log_entry_data) {
            Err(e) => Err(e),
            Ok((address, merkle_root, nonce)) => Ok((
                Seq::new(6, |i: int| 0u8) + address + typed_chain_id.spec_bytes(),
                merkle_root,
                nonce,
            )),
        }
    }
}

/// Decides on a log entry once the light client has answered whether its
/// proof holds: refused if not, else the anchor that emitted it (as a
/// resource id on the request's chain), the merkle root and the nonce.
pub fn anchor_update_source(
    typed_chain_id: TypedChainId,
    log_entry_data: &[u8],
    proof_verified: bool,
) -> (r: Result<(ResourceId, [u8; 32], u32), Error>)
    ensures
        match r {
            Ok((src, root, nonce)) => spec_anchor_update_source(typed_chain_id, log_entry_data@, proof_verified)
                == Ok::<(Seq<u8>, Seq<u8>, u32), Error>((src.0@, root@, nonce)),
            Err(e) => spec_anchor_update_source(typed_chain_id, log_entry_data@, proof_verified)
                == Err::<(Seq<u8>, Seq<u8>, u32), Error>(e),
        },
        r matches Ok((src, root, _)) ==> rlp_value_at(log_entry_data@, 0) is Some && src.0@.subrange(6, 26)
            == rlp_value_at(log_entry_data@, 0).unwrap() && rlp_list_at(log_entry_data@, 1) is Some && root@
            == rlp_list_at(log_entry_data@, 1).unwrap()[1],
{
    proof {
        lemma_anchor_update_source_fields(typed_chain_id, log_entry_data@, proof_verified);
    }
    if !proof_verified {
        return Err(Error::InvalidEvmLogEntryProof);
    }
    match Pallet::try_parse_evm_log(log_entry_data) {
        Err(e) => Err(e),
        Ok((contract_address, merkle_root, nonce)) => {
            let src = ResourceId::new(TargetSystem::ContractAddress(contract_address), typed_chain_id);
            Ok((src, merkle_root, nonce))
        },
    }
}

/// An anchor update is refused when the light client did not verify the
/// proof, and otherwise succeeds exactly on anchor logs. Its source is then
/// the resource id of the contract that the log's first item names, on the
/// request's chain: six zero bytes, the address byte for byte, the typed
/// chain id. Its merkle root is the log's second topic byte for byte, and
/// its nonce, written big endian, the last four bytes of the third topic.
pub proof fn lemma_anchor_update_source_fields(typed_chain_id: TypedChainId, data: Seq<u8>, verified: bool)
    ensures
        !verified ==> spec_anchor_update_source(typed_chain_id, data, verified) == Err::<
            (Seq<u8>, Seq<u8>, u32),
            Error,
        >(Error::InvalidEvmLogEntryProof),
        verified ==> (spec_anchor_update_source(typed_chain_id, data, verified) is Ok <==> is_anchor_log(data)),
        verified && !is_anchor_log(data) ==> spec_anchor_update_source(typed_chain_id, data, verified)
            == spec_parse_evm_log(data),
        spec_anchor_update_source(typed_chain_id, data, verified) matches Ok((src, root, nonce)) ==> rlp_value_at(
            data,
            0,
        ) is Some && src.len() == 32 && src.subrange(0, 6) == Seq::new(6, |i: int| 0u8) && src.subrange(6, 26)
            == rlp_value_at(data, 0).unwrap() && src.subrange(26, 32) == typed_chain_id.spec_bytes()
            && rlp_list_at(data, 1) is Some && root == rlp_list_at(data, 1).unwrap()[1] && be_bytes(nonce as nat, 4)
            == rlp_list_at(data, 1).unwrap()[2].subrange(28, 32),
{
    lemma_parsed_log_fields(data);
    if let Ok((src, root, nonce)) = spec_anchor_update_source(typed_chain_id, data, verified) {
        let address = rlp_value_at(data, 0).unwrap();
        lemma_be_bytes_len(typed_chain_id.chain_type() as nat, 2);
        lemma_be_bytes_len(typed_chain_id.underlying_chain_id() as nat, 4);
        assert(src.subrange(0, 6) =~= Seq::new(6, |i: int| 0u8));
        assert(src.subrange(6, 26) =~= address);
        assert(src.subrange(26, 32) =~= typed_chain_id.spec_bytes());
    }
}

/// Whether `p` is the anchor update proposal for `target` that announces
/// `src`'s new merkle root and nonce, with a zero function signature.
pub open spec fn is_anchor_proposal_for(
    p: AnchorUpdateProposal,
    target: ResourceId,
    merkle_root: [u8; 32],
    nonce: u32,
    src: ResourceId,
) -> bool {
    &&& p.header.resource_id == target
    &&& p.header.function_signature.0@ == seq![0u8, 0u8, 0u8, 0u8]
    &&& p.header.nonce == nonce
    &&& p.merkle_root == merkle_root
    &&& p.src_resource_id == src
}

/// The resources of a bridge that an update of `src` goes to: all but the
/// source itself, in the bridge's order.
pub open spec fn update_targets(src: ResourceId, resource_ids: Seq<ResourceId>) -> Seq<ResourceId>
    decreases resource_ids.len(),
{
    if resource_ids.len() == 0 {
        Seq::empty()
    } else {
        let earlier = update_targets(src, resource_ids.drop_last());
        if resource_ids.last().0@ == src.0@ {
            earlier
        } else {
            earlier.push(resource_ids.last())
        }
    }
}

/// The anchor update proposals for the other anchors of the source's bridge:
/// one per resource id of the bridge other than the source's, each with a
/// zero function signature, the log's nonce, its merkle root and the source's
/// resource id.
pub fn anchor_update_proposals(
    src: &ResourceId,
    merkle_root: [u8; 32],
    nonce: u32,
    bridge_resource_ids: &Vec<ResourceId>,
) -> (r: Vec<AnchorUpdateProposal>)
    ensures
        r@.len() == update_targets(*src, bridge_resource_ids@).len(),
        forall|i: int|
            0 <= i < r@.len() ==> is_anchor_proposal_for(
                #[trigger] r@[i],
                update_targets(*src, bridge_resource_ids@)[i],
                merkle_root,
                nonce,
                *src,
            ),
{
    let mut out: Vec<AnchorUpdateProposal> = Vec::new();
    let n = bridge_resource_ids.len();
    let mut i: usize = 0;
    assert(bridge_resource_ids@.take(0) =~= Seq::<ResourceId>::empty());
    while i < n
        invariant
            n == bridge_resource_ids@.len(),
            i <= n,
            out@.len() == update_targets(*src, bridge_resource_ids@.take(i as int)).len(),
            forall|k: int|
                0 <= k < out@.len() ==> is_anchor_proposal_for(
                    #[trigger] out@[k],
                    update_targets(*src, bridge_resource_ids@.take(i as int))[k],
                    merkle_root,
                    nonce,
                    *src,
                ),
        decreases n - i,
    {
        let r = bridge_resource_ids[i];
        assert(bridge_resource_ids@.take(i + 1).drop_last() =~= bridge_resource_ids@.take(i as int));
        if !r.same_as(src) {
            let function_sig = FunctionSignature([0u8; 4]);
            let proposal_header = ProposalHeader::new(r, function_sig, nonce);
            let proposal = AnchorUpdateProposal::new(proposal_header, merkle_root, *src);
            out.push(proposal);
            assert(proposal.header.function_signature.0@ =~= seq![0u8, 0u8, 0u8, 0u8]);
        }
        i = i + 1;
    }
    assert(bridge_resource_ids@.take(n as int) =~= bridge_resource_ids@);
    out
}

/// No update goes back to the source anchor, every other resource of the
/// bridge gets one, and there are no more updates than bridge resources.
pub proof fn lemma_update_targets(src: ResourceId, resource_ids: Seq<ResourceId>)
    ensures
        update_targets(src, resource_ids).len() <= resource_ids.len(),
        forall|i: int|
            0 <= i < update_targets(src, resource_ids).len() ==> (#[trigger] update_targets(
                src,
                resource_ids,
            )[i]).0@ != src.0@ && resource_ids.contains(update_targets(src, resource_ids)[i]),
        forall|j: int|
            0 <= j < resource_ids.len() && (#[trigger] resource_ids[j]).0@ != src.0@
                ==> update_targets(src, resource_ids).contains(resource_ids[j]),
    decreases resource_ids.len(),
{
    if resource_ids.len() > 0 {
        let earlier_ids = resource_ids.drop_last();
        lemma_update_targets(src, earlier_ids);
        let earlier = update_targets(src, earlier_ids);
        let t = update_targets(src, resource_ids);
        assert forall|i: int| 0 <= i < t.len() implies (#[trigger] t[i]).0@ != src.0@
            && resource_ids.contains(t[i]) by {
            if i < earlier.len() {
                assert(t[i] == earlier[i]);
                let k = choose|k: int| 0 <= k < earlier_ids.len() && earlier_ids[k] == earlier[i];
                assert(resource_ids[k] == earlier_ids[k]);
            } else {
                assert(resource_ids[resource_ids.len() - 1] == resource_ids.last());
            }
        }
        assert forall|j: int| 0 <= j < resource_ids.len() && (#[trigger] resource_ids[j]).0@ != src.0@
            implies t.contains(resource_ids[j]) by {
            if j < resource_ids.len() - 1 {
                assert(earlier_ids[j] == resource_ids[j]);
                assert(earlier.contains(resource_ids[j]));
                let k = choose|k: int| 0 <= k < earlier.len() && earlier[k] == resource_ids[j];
                assert(t[k] == earlier[k]);
            } else {
                assert(t[t.len() - 1] == resource_ids.last());
            }
        }
    }
}

/// When the source anchor is not among the bridge's resources, every
/// resource of the bridge gets an update, in the bridge's order.
pub proof fn lemma_update_targets_without_source(src: ResourceId, resource_ids: Seq<ResourceId>)
    requires
        forall|j: int| 0 <= j < resource_ids.len() ==> (#[trigger] resource_ids[j]).0@ != src.0@,
    ensures
        update_targets(src, resource_ids) == resource_ids,
    decreases resource_ids.len(),
{
    if resource_ids.len() > 0 {
        let earlier_ids = resource_ids.drop_last();
        assert forall|j: int| 0 <= j < earlier_ids.len() implies (#[trigger] earlier_ids[j]).0@ != src.0@ by {
            assert(earlier_ids[j] == resource_ids[j]);
        }
        lemma_update_targets_without_source(src, earlier_ids);
        assert(resource_ids.last() == resource_ids[resource_ids.len() - 1]);
        assert(earlier_ids.push(resource_ids.last()) =~= resource_ids);
    }
}

/// The nonce that a log announces, written into a proposal header big
/// endian, gives back the last four bytes of the log's third topic.
pub proof fn lemma_nonce_bytes_roundtrip(topic: Seq<u8>)
    requires
        topic.len() == 32,
    ensures
        be_bytes(nonce_of(topic) as nat, 4) == topic.subrange(28, 32),
{
    let b0 = topic[28] as nat;
    let b1 = topic[29] as nat;
    let b2 = topic[30] as nat;
    let b3 = topic[31] as nat;
    let v = b0 * 16777216 + b1 * 65536 + b2 * 256 + b3;
    assert(v < 4294967296);
    assert(nonce_of(topic) as nat == v);
    reveal_with_fuel(be_bytes, 5);
    assert(v % 256 == b3);
    assert(v / 256 == b0 * 65536 + b1 * 256 + b2);
    assert(v / 256 % 256 == b2);
    assert(v / 256 / 256 == b0 * 256 + b1);
    assert(v / 256 / 256 % 256 == b1);
    assert(v / 256 / 256 / 256 == b0);
    assert(v / 256 / 256 / 256 % 256 == b0);
    assert(be_bytes(v, 4) =~= topic.subrange(28, 32));
}

} // verus!
