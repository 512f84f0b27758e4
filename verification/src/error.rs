//! Errors of the DKG protocol and their descriptions.

use vstd::prelude::*;
use vstd::string::*;
use crate::gossip::{AuthorityId, SessionId};
use crate::render::{decimal, authority_list, u64_to_decimal, render_authorities_with, default_ss58_format};

verus! {

/// What can go wrong in a DKG or signing round.
#[derive(Clone, Debug)]
pub enum DKGError {
    KeygenMisbehaviour { reason: String, bad_actors: Vec<AuthorityId>, session_id: SessionId },
    KeygenTimeout { session_id: SessionId, bad_actors: Vec<AuthorityId> },
    StartKeygen { reason: String },
    StartOffline { reason: String },
    CreateOfflineStage { reason: String },
    Vote { reason: String },
    CriticalError { reason: String },
    GenericError { reason: String },
    NoAuthorityAccounts,
    NoHeader,
    SignMisbehaviour { reason: String, bad_actors: Vec<AuthorityId>, session_id: SessionId },
    InvalidPeerId,
    InvalidSignature,
    InvalidKeygenPartyId,
    InvalidSigningSet,
    InputOutOfBounds,
    CannotSign,
}

impl DKGError {
    /// The variant-specific part of the description, with the bad actors'
    /// SS58 addresses in `format`.
    pub open spec fn label(&self, format: u16) -> Seq<char> {
        match self {
            DKGError::KeygenMisbehaviour { bad_actors, reason, .. } =>
                "Keygen misbehaviour: reason: "@ + reason@ + " bad actors: "@ + authority_list(bad_actors@, format),
            DKGError::KeygenTimeout { bad_actors, session_id } =>
                "Keygen timeout @ Session("@ + decimal(*session_id as nat) + "): bad actors: "@
                    + authority_list(bad_actors@, format),
            DKGError::Vote { reason } => "Vote: "@ + reason@,
            DKGError::StartKeygen { reason } => "Start keygen: "@ + reason@,
            DKGError::CreateOfflineStage { reason } => "Create offline stage: "@ + reason@,
            DKGError::CriticalError { reason } => "Critical error: "@ + reason@,
            DKGError::GenericError { reason } => "Generic error: "@ + reason@,
            DKGError::StartOffline { reason } => "Unable to start Offline Signing: "@ + reason@,
            DKGError::NoAuthorityAccounts => "No Authority accounts found!"@,
            DKGError::NoHeader => "No Header!"@,
            DKGError::SignMisbehaviour { reason, bad_actors, .. } =>
                "SignMisbehaviour: reason: "@ + reason@ + ",  bad actors: "@ + authority_list(bad_actors@, format),
            DKGError::InvalidPeerId => "Invalid PeerId!"@,
            DKGError::InvalidSignature => "Invalid Signature!"@,
            DKGError::InvalidKeygenPartyId => "Invalid Keygen Party Id!"@,
            DKGError::InvalidSigningSet => "Invalid Signing Set!"@,
            DKGError::InputOutOfBounds => "Input value out of bounds set by runtime"@,
            DKGError::CannotSign => "Could not sign public key"@,
        }
    }

    /// The description of the error.
    pub open spec fn description(&self, format: u16) -> Seq<char> {
        "DKGError of type "@ + self.label(format)
    }

    /// The variant-specific part of the description, with the bad actors'
    /// SS58 addresses in `format`.
    pub fn get_label_with_format(&self, format: u16) -> (r: String)
        ensures
            r@ == self.label(format),
    {
        let r = match self {
            DKGError::KeygenMisbehaviour { bad_actors, reason, .. } => {
                let mut s = String::from_str("Keygen misbehaviour: reason: ");
                s.append(reason.as_str());
                s.append(" bad actors: ");
                let actors = render_authorities_with(bad_actors, format);
                s.append(actors.as_str());
                s
            },
            DKGError::KeygenTimeout { bad_actors, session_id } => {
                let mut s = String::from_str("Keygen timeout @ Session(");
                let session = u64_to_decimal(*session_id);
                s.append(session.as_str());
                s.append("): bad actors: ");
                let actors = render_authorities_with(bad_actors, format);
                s.append(actors.as_str());
                s
            },
            DKGError::Vote { reason } => {
                let mut s = String::from_str("Vote: ");
                s.append(reason.as_str());
                s
            },
            DKGError::StartKeygen { reason } => {
                let mut s = String::from_str("Start keygen: ");
                s.append(reason.as_str());
                s
            },
            DKGError::CreateOfflineStage { reason } => {
                let mut s = String::from_str("Create offline stage: ");
                s.append(reason.as_str());
                s
            },
            DKGError::CriticalError { reason } => {
                let mut s = String::from_str("Critical error: ");
                s.append(reason.as_str());
                s
            },
            DKGError::GenericError { reason } => {
                let mut s = String::from_str("Generic error: ");
                s.append(reason.as_str());
                s
            },
            DKGError::StartOffline { reason } => {
                let mut s = String::from_str("Unable to start Offline Signing: ");
                s.append(reason.as_str());
                s
            },
            DKGError::NoAuthorityAccounts => String::from_str("No Authority accounts found!"),
            DKGError::NoHeader => String::from_str("No Header!"),
            DKGError::SignMisbehaviour { reason, bad_actors, .. } => {
                let mut s = String::from_str("SignMisbehaviour: reason: ");
                s.append(reason.as_str());
                s.append(",  bad actors: ");
                let actors = render_authorities_with(bad_actors, format);
                s.append(actors.as_str());
                s
            },
            DKGError::InvalidPeerId => String::from_str("Invalid PeerId!"),
            DKGError::InvalidSignature => String::from_str("Invalid Signature!"),
            DKGError::InvalidKeygenPartyId => String::from_str("Invalid Keygen Party Id!"),
            DKGError::InvalidSigningSet => String::from_str("Invalid Signing Set!"),
            DKGError::InputOutOfBounds => String::from_str("Input value out of bounds set by runtime"),
            DKGError::CannotSign => String::from_str("Could not sign public key"),
        };
        r
    }

    /// The variant-specific part of the description, with the bad actors'
    /// SS58 addresses in the process's default address format.
    pub fn get_label(&self) -> (r: String)
        ensures
            exists|format: u16| r@ == self.label(format),
    {
        let format = default_ss58_format();
        self.get_label_with_format(format)
    }

    /// Describes the error, with the bad actors' SS58 addresses in `format`:
    /// `DKGError of type ` followed by its label.
    pub fn to_string_with_format(&self, format: u16) -> (r: String)
        ensures
            r@ == self.description(format),
    {
        let label = self.get_label_with_format(format);
        let mut out = String::from_str("DKGError of type ");
        out.append(label.as_str());
        out
    }

    /// Describes the error, with the bad actors' SS58 addresses in the
    /// process's default address format: `DKGError of type ` followed by its
    /// label.
    pub fn to_string(&self) -> (r: String)
        ensures
            exists|format: u16| r@ == self.description(format),
    {
        let format = default_ss58_format();
        self.to_string_with_format(format)
    }
}

/// The description of a misbehaviour error does not depend on its session
/// id: errors that differ only there are described alike, in any address
/// format.
pub proof fn lemma_description_ignores_session_id(e1: DKGError, e2: DKGError, format: u16)
    requires
        match (e1, e2) {
            (
                DKGError::KeygenMisbehaviour { reason: r1, bad_actors: b1, .. },
                DKGError::KeygenMisbehaviour { reason: r2, bad_actors: b2, .. },
            ) => r1@ == r2@ && b1@ == b2@,
            (
                DKGError::SignMisbehaviour { reason: r1, bad_actors: b1, .. },
                DKGError::SignMisbehaviour { reason: r2, bad_actors: b2, .. },
            ) => r1@ == r2@ && b1@ == b2@,
            _ => false,
        },
    ensures
        e1.description(format) == e2.description(format),
{
}

} // verus!
