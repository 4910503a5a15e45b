//! Pairwise connection lifecycle between peers of a broadcast network.
//!
//! A [`Broadcaster`] owns one identity and tracks, per remote identity, the
//! shared secret negotiated with that peer and whether the negotiation has
//! been acknowledged. Every transition is a verified function whose contract
//! is stated over a mathematical model of the session.
//!
//! The key agreement itself happens outside: callers generate key pairs and
//! derive secrets, and hand the results to the session, which decides what
//! becomes of them.

pub mod keys;
pub mod laws;
pub mod message;
pub mod peers;
pub mod session;

pub use keys::{
    readable_id, readable_key, same_key, PrivateKey, PublicKey, SharedSecret, Signature,
};
pub use message::{
    AcknowledgeConnection, BroadcastMessage, ConnectionError, DropConnection, EstablishConnection,
    NeedsHashes, ACK_DATA,
};
pub use peers::{PeerConnection, PeerTable};
pub use session::{Broadcaster, SessionState};
