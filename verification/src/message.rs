//! The messages peers exchange, and the errors a session reports.

use crate::keys::{id_label, readable_id, PublicKey, Signature};
use std::collections::HashSet;
use vstd::prelude::*;
use vstd::string::StringExecFns;

verus! {

/// The proof value carried by acknowledgments and drop notifications.
pub const ACK_DATA: u32 = u32::MAX;

/// `ACK_DATA` as it travels in a message.
pub open spec fn ack_proof() -> i64 {
    ACK_DATA as i64
}

/// Request to open a connection, sent by the initiator.
#[derive(Clone, Copy, Debug, PartialEq, Eq)]
pub struct EstablishConnection {
    /// The initiator.
    pub from: PublicKey,
    /// The peer asked to respond.
    pub to: PublicKey,
    /// The initiator's public contribution to the key agreement.
    pub gk: [u8; 32],
}

/// Answer to an [`EstablishConnection`], sent back to the initiator.
#[derive(Clone, Copy, Debug, PartialEq, Eq)]
pub struct AcknowledgeConnection {
    /// The responder.
    pub from: PublicKey,
    /// The initiator.
    pub to: PublicKey,
    /// Proof that the responder holds the shared secret.
    pub signed: i64,
}

/// Notice that the sender has dropped its connection to the recipient.
#[derive(Clone, Copy, Debug, PartialEq, Eq)]
pub struct DropConnection {
    /// The peer that dropped the connection.
    pub from: PublicKey,
    /// The peer being told.
    pub to: PublicKey,
    /// Proof that the notice is authentic.
    pub signed: i64,
}

/// A payload for the broadcast layer.
pub struct BroadcastMessage {
    /// The message to be sent.
    pub v: String,
    /// Hashes of the messages this one follows.
    pub hs: HashSet<i64>,
    /// Signature over `v` and `hs`.
    pub sig: Signature,
}

/// Request for the messages behind a set of hashes.
pub struct NeedsHashes {
    /// The hashes asked for.
    pub hs: HashSet<i64>,
}

/// Why a session refused an operation. Each variant names the remote peer
/// the operation was about.
#[derive(Clone, Copy, Debug, PartialEq, Eq)]
pub enum ConnectionError {
    /// An established connection to the peer already exists.
    AlreadyConnected(PublicKey),
    /// An acknowledgment arrived for a connection that is already established.
    AlreadyAcknowledged(PublicKey),
    /// An acknowledgment arrived from a peer no connection was initiated with.
    NoSuchPendingConnection(PublicKey),
    /// There is no connection to the peer that could be dropped.
    NoSuchConnection(PublicKey),
    /// The proof carried by a message is not the expected one.
    InvalidProof(PublicKey),
}

impl ConnectionError {
    /// The remote peer the refused operation was about.
    pub open spec fn peer(self) -> PublicKey {
        match self {
            ConnectionError::AlreadyConnected(p) => p,
            ConnectionError::AlreadyAcknowledged(p) => p,
            ConnectionError::NoSuchPendingConnection(p) => p,
            ConnectionError::NoSuchConnection(p) => p,
            ConnectionError::InvalidProof(p) => p,
        }
    }

    /// The words that precede the peer's label in the error's text.
    pub open spec fn prefix(self) -> Seq<char> {
        match self {
            ConnectionError::AlreadyConnected(_) => "Already connected to "@,
            ConnectionError::AlreadyAcknowledged(_) => "Already ack-ed "@,
            ConnectionError::NoSuchPendingConnection(_) => "Have not initiated connection with "@,
            ConnectionError::NoSuchConnection(_) => "No connection to drop with "@,
            ConnectionError::InvalidProof(_) => "False signature from "@,
        }
    }

    /// The error as text: what went wrong, then the label of the peer.
    pub fn message(&self) -> (text: String)
        ensures
            text@ == self.prefix() + id_label(self.peer()),
    {
        let (prefix, peer) = match self {
            ConnectionError::AlreadyConnected(p) => ("Already connected to ", p),
            ConnectionError::AlreadyAcknowledged(p) => ("Already ack-ed ", p),
            ConnectionError::NoSuchPendingConnection(p) => ("Have not initiated connection with ", p),
            ConnectionError::NoSuchConnection(p) => ("No connection to drop with ", p),
            ConnectionError::InvalidProof(p) => ("False signature from ", p),
        };
        let mut text = String::from_str(prefix);
        let label = readable_id(peer);
        text.append(label.as_str());
        text
    }
}

} // verus!
