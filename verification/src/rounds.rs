//! The interface of a DKG round state machine and the parameters and results
//! of key generation and signing.

use vstd::prelude::*;
use crate::gossip::{SessionId, SignerSetId};
use crate::error::DKGError;

verus! {

/// A round of the DKG or signing protocol, driven by incoming messages and
/// the clock. The default methods describe a round that never progresses.
pub trait DKGRoundsSM<Payload, Output, Clock>: Sized {
    /// Advances the round at the given time; `Ok(true)` when it progressed.
    fn proceed(&mut self, _at: Clock) -> (r: Result<bool, DKGError>)
        default_ensures
            r == Ok::<bool, DKGError>(false),
            *final(self) == *old(self),
    {
        Ok(false)
    }

    /// Takes the messages that the round wants sent.
    fn get_outgoing(&mut self) -> (r: Vec<Payload>)
        default_ensures
            r@ == Seq::<Payload>::empty(),
            *final(self) == *old(self),
    {
        Vec::new()
    }

    /// Hands the round a message received at the given time.
    fn handle_incoming(&mut self, _data: Payload, _at: Clock) -> (r: Result<(), DKGError>)
        default_ensures
            r == Ok::<(), DKGError>(()),
            *final(self) == *old(self),
    {
        Ok(())
    }

    /// Whether the round has finished.
    fn is_finished(&self) -> (r: bool)
        default_ensures
            r == false,
    {
        false
    }

    /// Consumes the finished round and yields its output.
    fn try_finish(self) -> Result<Output, DKGError>;
}

/// Parameters of a key generation.
pub struct KeygenParams {
    pub session_id: SessionId,
    pub party_index: u16,
    pub threshold: u16,
    pub parties: u16,
}

/// Parameters of a signing.
pub struct SignParams {
    pub session_id: SessionId,
    pub party_index: u16,
    pub threshold: u16,
    pub parties: u16,
    pub signers: Vec<u16>,
    pub signer_set_id: SignerSetId,
}

/// Outcome of a DKG round. The local key share of a finished key generation
/// is held in its serialized form.
#[derive(Clone, Debug)]
pub enum DKGResult {
    Empty,
    KeygenFinished { session_id: SessionId, local_key: Vec<u8> },
}

} // verus!
