# dkg_primitives

Verified core of the DKG gossip primitives and of two pallets around them,
written in Verus.

- `gossip`: the gossip messages exchanged by DKG authorities, the accessors on
  their payload, their SCALE encoding and the Blake2b-256 hash that a message
  signature covers.
- `error`, `render`: the protocol's errors and their textual descriptions.
- `rounds`: the interface of a round state machine, key generation and signing
  parameters and results.
- `evm_log`: decoding of RLP-encoded EVM log entries.
- `proposals`: typed chain ids, resource ids, proposal headers and anchor update
  proposals, with their byte layouts from webb-proposals.
- `light_proposals`: the decisions of the light-client proposals pallet: which
  proofs it accepts, what a verified anchor log announces, and the anchor update
  proposals it yields for the other anchors of a bridge.
- `mock`: helpers of the DKG metadata pallet's test runtime (mock accounts and
  authority keys, session validators, genesis state, Ethereum addresses of
  authority keys).
- `scale`, `hashing`, `bytes`: SCALE encoding (parity-scale-codec), hashing
  (sp-core) and byte comparison.

`app/` drives the light-client proposals flow with the light client, bridge
registry and proposal handler passed in as functions, and gives the library's
messages and errors `Display`.
