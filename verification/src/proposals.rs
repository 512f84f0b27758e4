//! Proposal targets and the anchor update proposal with their byte layouts:
//! the 6-byte typed chain id, the 32-byte resource id, the 40-byte proposal
//! header and the 104-byte anchor update proposal.

use vstd::prelude::*;

verus! {

/// The `n` least significant bytes of `x`, most significant first.
pub open spec fn be_bytes(x: nat, n: nat) -> Seq<u8>
    decreases n,
{
    if n == 0 {
        Seq::empty()
    } else {
        be_bytes(x / 256, (n - 1) as nat) + seq![(x % 256) as u8]
    }
}

/// A chain together with the kind of chain it is.
#[derive(Clone, Copy, Debug, PartialEq, Eq, Structural)]
pub enum TypedChainId {
    /// Unknown chain type
    Unknown,
    /// EVM based chain
    Evm(u32),
    /// Standalone Substrate based chain
    Substrate(u32),
    /// Polkadot parachain
    PolkadotParachain(u32),
    /// Kusama parachain
    KusamaParachain(u32),
    /// Rococo parachain
    RococoParachain(u32),
    /// Cosmos / CosmWasm chain
    Cosmos(u32),
    /// Solana program
    Solana(u32),
    /// Ink based chain
    Ink(u32),
}

impl TypedChainId {
    /// The 2-byte code of the chain's type.
    pub open spec fn chain_type(&self) -> u16 {
        match self {
            TypedChainId::Unknown => 0x0000,
            TypedChainId::Evm(_) => 0x0100,
            TypedChainId::Substrate(_) => 0x0200,
            TypedChainId::PolkadotParachain(_) => 0x0301,
            TypedChainId::KusamaParachain(_) => 0x0302,
            TypedChainId::RococoParachain(_) => 0x0303,
            TypedChainId::Cosmos(_) => 0x0400,
            TypedChainId::Solana(_) => 0x0500,
            TypedChainId::Ink(_) => 0x0600,
        }
    }

    /// The chain id without its type; 0 for an unknown chain type.
    pub open spec fn underlying_chain_id(&self) -> u32 {
        match self {
            TypedChainId::Unknown => 0,
            TypedChainId::Evm(id) => *id,
            TypedChainId::Substrate(id) => *id,
            TypedChainId::PolkadotParachain(id) => *id,
            TypedChainId::KusamaParachain(id) => *id,
            TypedChainId::RococoParachain(id) => *id,
            TypedChainId::Cosmos(id) => *id,
            TypedChainId::Solana(id) => *id,
            TypedChainId::Ink(id) => *id,
        }
    }

    /// The 6-byte layout: chain type, then chain id, both big endian.
    pub open spec fn spec_bytes(&self) -> Seq<u8> {
        be_bytes(self.chain_type() as nat, 2) + be_bytes(self.underlying_chain_id() as nat, 4)
    }

    /// The 2-byte code of the chain's type.
    pub fn chain_type_code(&self) -> (r: u16)
        ensures
            r == self.chain_type(),
    {
        match self {
            TypedChainId::Unknown => 0x0000,
            TypedChainId::Evm(_) => 0x0100,
            TypedChainId::Substrate(_) => 0x0200,
            TypedChainId::PolkadotParachain(_) => 0x0301,
            TypedChainId::KusamaParachain(_) => 0x0302,
            TypedChainId::RococoParachain(_) => 0x0303,
            TypedChainId::Cosmos(_) => 0x0400,
            TypedChainId::Solana(_) => 0x0500,
            TypedChainId::Ink(_) => 0x0600,
        }
    }

    /// The chain id without its type; 0 for an unknown chain type.
    pub fn chain_id_without_type(&self) -> (r: u32)
        ensures
            r == self.underlying_chain_id(),
    {
        match self {
            TypedChainId::Unknown => 0,
            TypedChainId::Evm(id) => *id,
            TypedChainId::Substrate(id) => *id,
            TypedChainId::PolkadotParachain(id) => *id,
            TypedChainId::KusamaParachain(id) => *id,
            TypedChainId::RococoParachain(id) => *id,
            TypedChainId::Cosmos(id) => *id,
            TypedChainId::Solana(id) => *id,
            TypedChainId::Ink(id) => *id,
        }
    }

    /// The 6-byte layout of the typed chain id.
    pub fn to_bytes(&self) -> (r: [u8; 6])
        ensures
            r@ == self.spec_bytes(),
    {
        typed_chain_id_bytes(*self)
    }
}

/// webb-proposals' `TypedChainId::to_bytes` on the same chain: the chain
/// type code, then the chain id, both big endian (`Unknown` is webb's `None`,
/// all zeros).
#[verifier::external_body]
fn typed_chain_id_bytes(c: TypedChainId) -> (r: [u8; 6])
    ensures
        r@ == c.spec_bytes(),
{
    match c {
        TypedChainId::Unknown => webb_proposals::TypedChainId::None,
        TypedChainId::Evm(i) => webb_proposals::TypedChainId::Evm(i),
        TypedChainId::Substrate(i) => webb_proposals::TypedChainId::Substrate(i),
        TypedChainId::PolkadotParachain(i) => webb_proposals::TypedChainId::PolkadotParachain(i),
        TypedChainId::KusamaParachain(i) => webb_proposals::TypedChainId::KusamaParachain(i),
        TypedChainId::RococoParachain(i) => webb_proposals::TypedChainId::RococoParachain(i),
        TypedChainId::Cosmos(i) => webb_proposals::TypedChainId::Cosmos(i),
        TypedChainId::Solana(i) => webb_proposals::TypedChainId::Solana(i),
        TypedChainId::Ink(i) => webb_proposals::TypedChainId::Ink(i),
    }.to_bytes()
}

/// A Substrate target: the proposal handler pallet and a merkle tree.
#[derive(Clone, Copy, Debug)]
pub struct SubstrateTargetSystem {
    /// Pallet index of the proposal handler pallet
    pub pallet_index: u8,
    /// Merkle tree id
    pub tree_id: u32,
}

/// The system that a proposal is executed by.
#[derive(Clone, Copy, Debug)]
pub enum TargetSystem {
    /// Ethereum contract address (20 bytes)
    ContractAddress([u8; 20]),
    /// Substrate proposal handler pallet and tree
    Substrate(SubstrateTargetSystem),
}

impl TargetSystem {
    /// The 26-byte layout: six zero bytes and the contract address, or
    /// twenty-one zero bytes, the pallet index and the tree id (big endian).
    pub open spec fn spec_bytes(&self) -> Seq<u8> {
        match self {
            TargetSystem::ContractAddress(address) => Seq::new(6, |i: int| 0u8) + address@,
            TargetSystem::Substrate(t) => Seq::new(21, |i: int| 0u8) + seq![t.pallet_index]
                + be_bytes(t.tree_id as nat, 4),
        }
    }
}

/// Whether `chain` is the layout of some typed chain id.
pub open spec fn is_chain_layout(chain: Seq<u8>) -> bool {
    exists|c: TypedChainId| c.spec_bytes() == chain
}

/// webb-proposals' `ResourceId::new` for a contract address on the chain
/// that `TypedChainId::from` reads from `chain`, then `to_bytes`: the target
/// system's layout, then the chain's; a chain layout reads back as itself.
#[verifier::external_body]
fn contract_resource_id(address: [u8; 20], chain: [u8; 6]) -> (r: [u8; 32])
    requires
        is_chain_layout(chain@),
    ensures
        r@ == TargetSystem::ContractAddress(address).spec_bytes() + chain@,
{
    webb_proposals::ResourceId::new(
        webb_proposals::TargetSystem::ContractAddress(address),
        webb_proposals::TypedChainId::from(chain),
    ).to_bytes()
}

/// webb-proposals' `ResourceId::new` for a Substrate target on the chain
/// that `TypedChainId::from` reads from `chain`, then `to_bytes`: the target
/// system's layout, then the chain's; a chain layout reads back as itself.
#[verifier::external_body]
fn substrate_resource_id(target: SubstrateTargetSystem, chain: [u8; 6]) -> (r: [u8; 32])
    requires
        is_chain_layout(chain@),
    ensures
        r@ == TargetSystem::Substrate(target).spec_bytes() + chain@,
{
    let t = webb_proposals::SubstrateTargetSystem { pallet_index: target.pallet_index, tree_id: target.tree_id };
    webb_proposals::ResourceId::new(webb_proposals::TargetSystem::Substrate(t), webb_proposals::TypedChainId::from(chain))
        .to_bytes()
}

/// The 32-byte identifier of a proposal's execution context.
#[derive(Clone, Copy, Debug, Eq)]
pub struct ResourceId(pub [u8; 32]);

impl PartialEq for ResourceId {
    fn eq(&self, other: &Self) -> (r: bool) {
        crate::bytes::bytes_equal(self.0.as_slice(), other.0.as_slice())
    }
}

impl vstd::std_specs::cmp::PartialEqSpecImpl for ResourceId {
    open spec fn obeys_eq_spec() -> bool {
        true
    }

    open spec fn eq_spec(&self, other: &Self) -> bool {
        self.0@ == other.0@
    }
}

impl ResourceId {
    /// The layout of a resource id: target system, then typed chain id.
    pub open spec fn spec_new(target_system: TargetSystem, typed_chain_id: TypedChainId) -> Seq<u8> {
        target_system.spec_bytes() + typed_chain_id.spec_bytes()
    }

    /// The resource id of a target system on a typed chain.
    pub fn new(target_system: TargetSystem, typed_chain_id: TypedChainId) -> (r: ResourceId)
        ensures
            r.0@ == Self::spec_new(target_system, typed_chain_id),
    {
        let chain = typed_chain_id.to_bytes();
        let bytes = match target_system {
            TargetSystem::ContractAddress(address) => contract_resource_id(address, chain),
            TargetSystem::Substrate(t) => substrate_resource_id(t, chain),
        };
        ResourceId(bytes)
    }

    /// Whether two resource ids are the same.
    pub fn same_as(&self, other: &ResourceId) -> (r: bool)
        ensures
            r == (self.0@ == other.0@),
    {
        crate::bytes::bytes_equal(self.0.as_slice(), other.0.as_slice())
    }
}

/// The 4-byte selector of the function that executes a proposal.
#[derive(Clone, Copy, Debug)]
pub struct FunctionSignature(pub [u8; 4]);

/// The header of a proposal: where it executes, what executes it, and its
/// nonce.
#[derive(Clone, Copy, Debug)]
pub struct ProposalHeader {
    /// Resource id of the execution context
    pub resource_id: ResourceId,
    /// Function signature / identifier
    pub function_signature: FunctionSignature,
    /// Nonce for proposal execution
    pub nonce: u32,
}

impl ProposalHeader {
    /// Creates a header.
    pub fn new(resource_id: ResourceId, function_signature: FunctionSignature, nonce: u32) -> (r: ProposalHeader)
        ensures
            r == (ProposalHeader { resource_id, function_signature, nonce }),
    {
        ProposalHeader { resource_id, function_signature, nonce }
    }

    /// The 40-byte layout: resource id, function signature, nonce (big
    /// endian).
    pub open spec fn spec_bytes(&self) -> Seq<u8> {
        self.resource_id.0@ + self.function_signature.0@ + be_bytes(self.nonce as nat, 4)
    }

    /// The 40-byte layout of the header.
    pub fn to_vec(&self) -> (r: Vec<u8>)
        ensures
            r@ == self.spec_bytes(),
    {
        let bytes = proposal_header_bytes(self.resource_id.0, self.function_signature.0, self.nonce);
        let mut out: Vec<u8> = Vec::new();
        push_all(&mut out, bytes.as_slice());
        out
    }
}

/// webb-proposals' `ProposalHeader::new` of the resource id, function
/// signature and nonce, then `to_bytes`: the three in order, the nonce big
/// endian.
#[verifier::external_body]
fn proposal_header_bytes(resource_id: [u8; 32], function_signature: [u8; 4], nonce: u32) -> (r: [u8; 40])
    ensures
        r@ == resource_id@ + function_signature@ + be_bytes(nonce as nat, 4),
{
    webb_proposals::ProposalHeader::new(
        webb_proposals::ResourceId(resource_id),
        webb_proposals::FunctionSignature(function_signature),
        webb_proposals::Nonce(nonce),
    ).to_bytes()
}

/// Appends the bytes of `tail` to `out`.
fn push_all(out: &mut Vec<u8>, tail: &[u8])
    ensures
        final(out)@ == old(out)@ + tail@,
{
    let mut i: usize = 0;
    while i < tail.len()
        invariant
            i <= tail@.len(),
            out@ == old(out)@ + tail@.take(i as int),
        decreases tail@.len() - i,
    {
        out.push(tail[i]);
        assert(tail@.take(i + 1) =~= tail@.take(i as int).push(tail@[i as int]));
        i = i + 1;
    }
    assert(tail@.take(tail@.len() as int) =~= tail@);
}

/// Proposal that an anchor on the target chain update its edge to a source
/// anchor: the source anchor's new merkle root and leaf index.
#[derive(Clone, Copy, Debug)]
pub struct AnchorUpdateProposal {
    /// Header; its nonce is the latest leaf index
    pub header: ProposalHeader,
    /// Merkle root of the source anchor
    pub merkle_root: [u8; 32],
    /// Resource id of the source anchor
    pub src_resource_id: ResourceId,
}

impl AnchorUpdateProposal {
    /// Creates a proposal.
    pub fn new(header: ProposalHeader, merkle_root: [u8; 32], src_resource_id: ResourceId) -> (r: AnchorUpdateProposal)
        ensures
            r == (AnchorUpdateProposal { header, merkle_root, src_resource_id }),
    {
        AnchorUpdateProposal { header, merkle_root, src_resource_id }
    }

    /// The 104-byte layout: header, merkle root, source resource id.
    pub open spec fn spec_bytes(&self) -> Seq<u8> {
        self.header.spec_bytes() + self.merkle_root@ + self.src_resource_id.0@
    }

    /// The 104-byte layout of the proposal.
    pub fn to_vec(&self) -> (r: Vec<u8>)
        ensures
            r@ == self.spec_bytes(),
            r@.len() == 104,
    {
        let bytes = anchor_update_proposal_bytes(*self);
        let mut out: Vec<u8> = Vec::new();
        push_all(&mut out, bytes.as_slice());
        out
    }
}

/// webb-proposals' `evm::AnchorUpdateProposal::new` of the proposal's
/// header (`ProposalHeader::new` of its parts), merkle root and source
/// resource id, then `to_bytes`: header, merkle root, source resource id.
#[verifier::external_body]
fn anchor_update_proposal_bytes(p: AnchorUpdateProposal) -> (r: [u8; 104])
    ensures
        r@ == p.spec_bytes(),
{
    let h = webb_proposals::ProposalHeader::new(
        webb_proposals::ResourceId(p.header.resource_id.0),
        webb_proposals::FunctionSignature(p.header.function_signature.0),
        webb_proposals::Nonce(p.header.nonce),
    );
    webb_proposals::evm::AnchorUpdateProposal::new(h, p.merkle_root, webb_proposals::ResourceId(p.src_resource_id.0))
        .to_bytes()
}

/// `be_bytes` yields `n` bytes.
pub proof fn lemma_be_bytes_len(x: nat, n: nat)
    ensures
        be_bytes(x, n).len() == n,
    decreases n,
{
    if n > 0 {
        lemma_be_bytes_len(x / 256, (n - 1) as nat);
    }
}

/// Two numbers below `256^n` with the same `n` big-endian bytes are equal.
pub proof fn lemma_be_bytes_injective(x: nat, y: nat, n: nat)
    requires
        be_bytes(x, n) == be_bytes(y, n),
        x < pow256(n),
        y < pow256(n),
    ensures
        x == y,
    decreases n,
{
    if n > 0 {
        let bx = be_bytes(x / 256, (n - 1) as nat);
        let by = be_bytes(y / 256, (n - 1) as nat);
        lemma_be_bytes_len(x / 256, (n - 1) as nat);
        lemma_be_bytes_len(y / 256, (n - 1) as nat);
        assert(be_bytes(x, n) == bx + seq![(x % 256) as u8]);
        assert(be_bytes(y, n) == by + seq![(y % 256) as u8]);
        assert(bx =~= be_bytes(x, n).drop_last());
        assert(by =~= be_bytes(y, n).drop_last());
        assert((x % 256) as u8 == be_bytes(x, n).last());
        assert((y % 256) as u8 == be_bytes(y, n).last());
        assert(x / 256 < pow256((n - 1) as nat)) by (nonlinear_arith)
            requires
                x < pow256(n),
                pow256(n) == 256 * pow256((n - 1) as nat),
        ;
        assert(y / 256 < pow256((n - 1) as nat)) by (nonlinear_arith)
            requires
                y < pow256(n),
                pow256(n) == 256 * pow256((n - 1) as nat),
        ;
        lemma_be_bytes_injective(x / 256, y / 256, (n - 1) as nat);
    } else {
        assert(pow256(0) == 1);
    }
}

/// `256^n`.
pub open spec fn pow256(n: nat) -> nat
    decreases n,
{
    if n == 0 {
        1
    } else {
        256 * pow256((n - 1) as nat)
    }
}

/// Distinct typed chain ids have distinct 6-byte layouts.
pub proof fn lemma_typed_chain_id_bytes_injective(a: TypedChainId, b: TypedChainId)
    requires
        a.spec_bytes() == b.spec_bytes(),
    ensures
        a == b,
{
    let ta = be_bytes(a.chain_type() as nat, 2);
    let tb = be_bytes(b.chain_type() as nat, 2);
    let ia = be_bytes(a.underlying_chain_id() as nat, 4);
    let ib = be_bytes(b.underlying_chain_id() as nat, 4);
    lemma_be_bytes_len(a.chain_type() as nat, 2);
    lemma_be_bytes_len(b.chain_type() as nat, 2);
    lemma_be_bytes_len(a.underlying_chain_id() as nat, 4);
    lemma_be_bytes_len(b.underlying_chain_id() as nat, 4);
    assert(ta =~= a.spec_bytes().subrange(0, 2));
    assert(tb =~= b.spec_bytes().subrange(0, 2));
    assert(ia =~= a.spec_bytes().subrange(2, 6));
    assert(ib =~= b.spec_bytes().subrange(2, 6));
    reveal_with_fuel(pow256, 5);
    lemma_be_bytes_injective(a.chain_type() as nat, b.chain_type() as nat, 2);
    lemma_be_bytes_injective(a.underlying_chain_id() as nat, b.underlying_chain_id() as nat, 4);
    if a is Unknown || b is Unknown {
        assert(a.underlying_chain_id() == 0 || a.chain_type() != 0);
    }
}

/// A contract's resource id keeps the contract address in bytes 6..26 and
/// the typed chain id in bytes 26..32, after six zero bytes; so different
/// contracts, or one contract on different chains, get different resource
/// ids.
pub proof fn lemma_contract_resource_id_layout(
    a: [u8; 20],
    ca: TypedChainId,
    b: [u8; 20],
    cb: TypedChainId,
)
    ensures
        ResourceId::spec_new(TargetSystem::ContractAddress(a), ca).len() == 32,
        ResourceId::spec_new(TargetSystem::ContractAddress(a), ca).subrange(0, 6) == Seq::new(6, |i: int| 0u8),
        ResourceId::spec_new(TargetSystem::ContractAddress(a), ca).subrange(6, 26) == a@,
        ResourceId::spec_new(TargetSystem::ContractAddress(a), ca).subrange(26, 32) == ca.spec_bytes(),
        ResourceId::spec_new(TargetSystem::ContractAddress(a), ca) == ResourceId::spec_new(
            TargetSystem::ContractAddress(b),
            cb,
        ) ==> a@ == b@ && ca == cb,
{
    let ra = ResourceId::spec_new(TargetSystem::ContractAddress(a), ca);
    let rb = ResourceId::spec_new(TargetSystem::ContractAddress(b), cb);
    lemma_be_bytes_len(ca.chain_type() as nat, 2);
    lemma_be_bytes_len(ca.underlying_chain_id() as nat, 4);
    lemma_be_bytes_len(cb.chain_type() as nat, 2);
    lemma_be_bytes_len(cb.underlying_chain_id() as nat, 4);
    assert(ra.subrange(0, 6) =~= Seq::new(6, |i: int| 0u8));
    assert(ra.subrange(6, 26) =~= a@);
    assert(ra.subrange(26, 32) =~= ca.spec_bytes());
    assert(rb.subrange(6, 26) =~= b@);
    assert(rb.subrange(26, 32) =~= cb.spec_bytes());
    if ra == rb {
        lemma_typed_chain_id_bytes_injective(ca, cb);
    }
}

} // verus!
