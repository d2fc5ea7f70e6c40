//! The parts of a wallet's data that an Epicbox session reads.
use uuid::Uuid;
use vstd::prelude::*;

verus! {

/// Relay settings.
#[derive(Debug, PartialEq, Eq)]
pub struct EpicboxConfig {
    pub epicbox_domain: Option<String>,
    pub epicbox_port: Option<u16>,
    /// Connect without TLS. Off when absent.
    pub epicbox_protocol_unsecure: Option<bool>,
}

impl Clone for EpicboxConfig {
    fn clone(&self) -> (r: Self)
        ensures
            r == *self,
    {
        EpicboxConfig {
            epicbox_domain: self.epicbox_domain.clone(),
            epicbox_port: self.epicbox_port,
            epicbox_protocol_unsecure: self.epicbox_protocol_unsecure,
        }
    }
}

/// Tor settings.
#[derive(Debug, PartialEq, Eq, Clone, Copy)]
pub struct TorConfig {
    /// Finalized transactions go out over Tor where a Tor node is known.
    pub use_tor_listener: bool,
}

/// A wallet's address on a relay.
#[derive(Debug, PartialEq, Eq)]
pub struct EpicboxAddress {
    /// The public key as requests carry it.
    pub public_key: String,
    pub domain: String,
    pub port: Option<u16>,
    /// The address without its scheme.
    pub stripped: String,
    /// The address in full.
    pub full: String,
}

impl Clone for EpicboxAddress {
    fn clone(&self) -> (r: Self)
        ensures
            r == *self,
    {
        EpicboxAddress {
            public_key: self.public_key.clone(),
            domain: self.domain.clone(),
            port: self.port,
            stripped: self.stripped.clone(),
            full: self.full.clone(),
        }
    }
}

/// A Slate: what the negotiation rules read of it, and the Slate itself as the
/// wallet writes it.
#[derive(Debug, PartialEq, Eq)]
pub struct Slate {
    pub id: Uuid,
    /// The version in which the Slate travels.
    pub version: u16,
    /// How many participants the transaction is for.
    pub num_participants: usize,
    /// How many of them have added their data.
    pub participant_data: usize,
    /// Whether the transaction has inputs.
    pub has_inputs: bool,
    /// The Slate in the wallet's own writing, carried through unread.
    pub content: String,
}

impl Slate {
    /// Some participant has yet to add its data: the Slate is a new transaction
    /// to receive, not one to finalize.
    pub open spec fn is_incomplete(&self) -> bool {
        self.num_participants > self.participant_data
    }
}

impl Clone for Slate {
    fn clone(&self) -> (r: Self)
        ensures
            r == *self,
    {
        Slate {
            id: self.id.clone(),
            version: self.version,
            num_participants: self.num_participants,
            participant_data: self.participant_data,
            has_inputs: self.has_inputs,
            content: self.content.clone(),
        }
    }
}

} // verus!
