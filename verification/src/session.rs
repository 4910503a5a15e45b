//! A peer's session: its identity and the life cycle of its connections.
//!
//! Per remote identity a connection is absent, pending or established.
//! [`SessionState`] is the mathematical model of a session and defines each
//! transition; [`Broadcaster`] is the executable session, and each of its
//! operations is proved to perform exactly the transition of the model.

use crate::keys::{
    id_label, key_fingerprint, readable_id, readable_key, PrivateKey, PublicKey, SharedSecret,
};
use crate::message::{
    ack_proof, AcknowledgeConnection, ConnectionError, DropConnection, EstablishConnection, ACK_DATA,
};
use crate::peers::{distinct_ids, listing_map, listing_text, PeerConnection, PeerTable};
use vstd::prelude::*;
use vstd::string::StringExecFns;

verus! {

/// The model of a session: who it is and what it holds for each peer.
pub struct SessionState {
    /// The session's identity.
    pub id: PublicKey,
    /// The private key that belongs to `id`.
    pub private_key: PrivateKey,
    /// The connections, by remote identity. A peer without an entry has no
    /// connection.
    pub peers: Map<PublicKey, PeerConnection>,
}

impl SessionState {
    /// A session with the given keys and no connections.
    pub open spec fn fresh(id: PublicKey, private_key: PrivateKey) -> SessionState {
        SessionState { id, private_key, peers: Map::empty() }
    }

    /// Whether any connection to `peer` exists, pending or established.
    pub open spec fn connected(self, peer: PublicKey) -> bool {
        self.peers.contains_key(peer)
    }

    /// Whether the connection to `peer` exists and awaits acknowledgment.
    pub open spec fn pending(self, peer: PublicKey) -> bool {
        self.peers.contains_key(peer) && !self.peers[peer].acknowledged
    }

    /// Whether the connection to `peer` exists and is established.
    pub open spec fn established(self, peer: PublicKey) -> bool {
        self.peers.contains_key(peer) && self.peers[peer].acknowledged
    }

    /// Whether a connection to `peer` may be opened, from either side: it may
    /// unless one is established, and then the refusal is `AlreadyConnected`.
    pub open spec fn connectable(self, peer: PublicKey) -> Result<(), ConnectionError> {
        if self.established(peer) {
            Err(ConnectionError::AlreadyConnected(peer))
        } else {
            Ok(())
        }
    }

    /// The session with `link` recorded for `peer`.
    pub open spec fn with_peer(self, peer: PublicKey, link: PeerConnection) -> SessionState {
        SessionState { peers: self.peers.insert(peer, link), ..self }
    }

    /// The session with nothing recorded for `peer`.
    pub open spec fn without_peer(self, peer: PublicKey) -> SessionState {
        SessionState { peers: self.peers.remove(peer), ..self }
    }

    /// Opening a connection to `remote`, given the secret agreed for it and
    /// the public contribution `gk` to send along.
    ///
    /// Refused when the connection is established. Otherwise the connection
    /// becomes pending with the new secret, whatever was pending before.
    pub open spec fn initiate(self, remote: PublicKey, shared_secret: SharedSecret, gk: [u8; 32]) -> (
        SessionState,
        Result<EstablishConnection, ConnectionError>,
    ) {
        if self.established(remote) {
            (self, Err(ConnectionError::AlreadyConnected(remote)))
        } else {
            (
                self.with_peer(remote, PeerConnection { shared_secret, acknowledged: false }),
                Ok(EstablishConnection { from: self.id, to: remote, gk }),
            )
        }
    }

    /// Answering a request to connect, given the secret derived from it.
    ///
    /// Refused when the connection to the sender is established. Otherwise
    /// the connection becomes established at once, with the new secret.
    pub open spec fn respond(self, request: EstablishConnection, shared_secret: SharedSecret) -> (
        SessionState,
        Result<AcknowledgeConnection, ConnectionError>,
    ) {
        if self.established(request.from) {
            (self, Err(ConnectionError::AlreadyConnected(request.from)))
        } else {
            (
                self.with_peer(request.from, PeerConnection { shared_secret, acknowledged: true }),
                Ok(AcknowledgeConnection { from: self.id, to: request.from, signed: ack_proof() }),
            )
        }
    }

    /// Taking in an acknowledgment.
    ///
    /// A pending connection to the sender becomes established and keeps its
    /// secret, provided the proof is the expected one. In every other case
    /// the session stays as it is.
    pub open spec fn acknowledge(self, ack: AcknowledgeConnection) -> (
        SessionState,
        Result<(), ConnectionError>,
    ) {
        if !self.connected(ack.from) {
            (self, Err(ConnectionError::NoSuchPendingConnection(ack.from)))
        } else if self.peers[ack.from].acknowledged {
            (self, Err(ConnectionError::AlreadyAcknowledged(ack.from)))
        } else if ack.signed != ack_proof() {
            (self, Err(ConnectionError::InvalidProof(ack.from)))
        } else {
            (
                self.with_peer(
                    ack.from,
                    PeerConnection {
                        shared_secret: self.peers[ack.from].shared_secret,
                        acknowledged: true,
                    },
                ),
                Ok(()),
            )
        }
    }

    /// Dropping the connection to `remote`, pending or established.
    ///
    /// Refused when there is none.
    pub open spec fn drop_peer(self, remote: PublicKey) -> (
        SessionState,
        Result<DropConnection, ConnectionError>,
    ) {
        if !self.connected(remote) {
            (self, Err(ConnectionError::NoSuchConnection(remote)))
        } else {
            (
                self.without_peer(remote),
                Ok(DropConnection { from: self.id, to: remote, signed: ack_proof() }),
            )
        }
    }

    /// Taking in a peer's notice that it dropped the connection.
    ///
    /// The connection to the sender is removed, provided there is one and
    /// the proof is the expected one. Otherwise the session stays as it is.
    pub open spec fn accept_drop(self, notice: DropConnection) -> (
        SessionState,
        Result<(), ConnectionError>,
    ) {
        if !self.connected(notice.from) {
            (self, Err(ConnectionError::NoSuchConnection(notice.from)))
        } else if notice.signed != ack_proof() {
            (self, Err(ConnectionError::InvalidProof(notice.from)))
        } else {
            (self.without_peer(notice.from), Ok(()))
        }
    }
}

/// The text of a session summary: identity label, private-key fingerprint
/// and the listed connections, none of the keys in full.
pub open spec fn summary_text(
    state: SessionState,
    listing: Seq<(PublicKey, PeerConnection)>,
) -> Seq<char> {
    "Broadcaster { id: \""@ + id_label(state.id) + "\", private_key: \""@ + key_fingerprint(
        state.private_key,
    ) + "\", peers: \""@ + listing_text(listing) + "\" }"@
}

/// A peer's session.
pub struct Broadcaster {
    private_key: PrivateKey,
    id: PublicKey,
    peers: PeerTable,
}

impl View for Broadcaster {
    type V = SessionState;

    closed spec fn view(&self) -> SessionState {
        SessionState { id: self.id, private_key: self.private_key, peers: self.peers@ }
    }
}

impl Broadcaster {
    /// The connections in the order in which [`Broadcaster::summary`] shows
    /// them.
    pub closed spec fn listing(&self) -> Seq<(PublicKey, PeerConnection)> {
        self.peers.listing()
    }

    /// Starts a session for the given key pair, with no connections.
    pub fn init(public_key: PublicKey, private_key: PrivateKey) -> (session: Broadcaster)
        ensures
            session@ == SessionState::fresh(public_key, private_key),
    {
        Broadcaster { private_key, id: public_key, peers: PeerTable::new() }
    }

    /// The session's identity.
    pub fn id(&self) -> (id: PublicKey)
        ensures
            id == self@.id,
    {
        self.id
    }

    /// Decides whether a connection to `id` may be opened, before any key
    /// material is drawn or derived for it. Both
    /// [`Broadcaster::initialize_connection`] and
    /// [`Broadcaster::establish_connection`] succeed exactly when this does.
    pub fn connectable(&self, id: &PublicKey) -> (decided: Result<(), ConnectionError>)
        ensures
            decided == self@.connectable(*id),
    {
        match self.peers.get(id) {
            Some(link) => {
                if link.acknowledged {
                    Err(ConnectionError::AlreadyConnected(*id))
                } else {
                    Ok(())
                }
            },
            None => Ok(()),
        }
    }

    /// What the session holds for `id`: `None` when there is no connection.
    pub fn connection(&self, id: &PublicKey) -> (link: Option<PeerConnection>)
        ensures
            link == self@.peers.get(*id),
    {
        self.peers.get(id)
    }

    /// Opens a connection to `id`: performs [`SessionState::initiate`].
    ///
    /// `shared_secret` is the secret agreed between `id` and a fresh scalar,
    /// `gk` the public point of that scalar.
    pub fn initialize_connection(
        &mut self,
        id: PublicKey,
        shared_secret: SharedSecret,
        gk: [u8; 32],
    ) -> (sent: Result<EstablishConnection, ConnectionError>)
        ensures
            final(self)@ == old(self)@.initiate(id, shared_secret, gk).0,
            sent == old(self)@.initiate(id, shared_secret, gk).1,
    {
        if let Err(refused) = self.connectable(&id) {
            return Err(refused);
        }
        self.peers.insert(id, PeerConnection { shared_secret, acknowledged: false });
        Ok(EstablishConnection { from: self.id, to: id, gk })
    }

    /// Answers a request to connect: performs [`SessionState::respond`].
    ///
    /// `shared_secret` is the secret agreed between `ec.gk` and this
    /// session's private key.
    pub fn establish_connection(&mut self, ec: EstablishConnection, shared_secret: SharedSecret) -> (sent:
        Result<AcknowledgeConnection, ConnectionError>)
        ensures
            final(self)@ == old(self)@.respond(ec, shared_secret).0,
            sent == old(self)@.respond(ec, shared_secret).1,
    {
        if let Err(refused) = self.connectable(&ec.from) {
            return Err(refused);
        }
        self.peers.insert(ec.from, PeerConnection { shared_secret, acknowledged: true });
        Ok(AcknowledgeConnection { from: self.id, to: ec.from, signed: ACK_DATA as i64 })
    }

    /// Takes in an acknowledgment: performs [`SessionState::acknowledge`].
    pub fn receive_ack(&mut self, ac: AcknowledgeConnection) -> (done: Result<(), ConnectionError>)
        ensures
            final(self)@ == old(self)@.acknowledge(ac).0,
            done == old(self)@.acknowledge(ac).1,
    {
        match self.peers.get(&ac.from) {
            Some(link) => {
                if link.acknowledged {
                    Err(ConnectionError::AlreadyAcknowledged(ac.from))
                } else if ac.signed == ACK_DATA as i64 {
                    self.peers.insert(
                        ac.from,
                        PeerConnection { shared_secret: link.shared_secret, acknowledged: true },
                    );
                    Ok(())
                } else {
                    Err(ConnectionError::InvalidProof(ac.from))
                }
            },
            None => Err(ConnectionError::NoSuchPendingConnection(ac.from)),
        }
    }

    /// Drops the connection to `id`: performs [`SessionState::drop_peer`].
    /// The notice returned is to be sent to `id`.
    pub fn drop(&mut self, id: PublicKey) -> (sent: Result<DropConnection, ConnectionError>)
        ensures
            final(self)@ == old(self)@.drop_peer(id).0,
            sent == old(self)@.drop_peer(id).1,
    {
        if self.peers.get(&id).is_none() {
            return Err(ConnectionError::NoSuchConnection(id));
        }
        self.peers.remove(&id);
        Ok(DropConnection { from: self.id, to: id, signed: ACK_DATA as i64 })
    }

    /// Takes in a peer's drop notice: performs [`SessionState::accept_drop`].
    pub fn drop_connection(&mut self, dc: DropConnection) -> (done: Result<(), ConnectionError>)
        ensures
            final(self)@ == old(self)@.accept_drop(dc).0,
            done == old(self)@.accept_drop(dc).1,
    {
        match self.peers.get(&dc.from) {
            Some(_) => {
                if dc.signed == ACK_DATA as i64 {
                    self.peers.remove(&dc.from);
                    Ok(())
                } else {
                    Err(ConnectionError::InvalidProof(dc.from))
                }
            },
            None => Err(ConnectionError::NoSuchConnection(dc.from)),
        }
    }

    /// Hands a message to the broadcast layer. The connection life cycle is
    /// not involved: the session stays as it is.
    pub fn broadcast(&mut self, v: &str)
        ensures
            *final(self) == *old(self),
    {
    }

    /// A one-line summary of the session for diagnostics.
    ///
    /// It shows every connection once, and keys only as fingerprints.
    pub fn summary(&self) -> (text: String)
        ensures
            text@ == summary_text(self@, self.listing()),
            distinct_ids(self.listing()),
            listing_map(self.listing()) == self@.peers,
    {
        let mut text = String::from_str("Broadcaster { id: \"");
        let id = readable_id(&self.id);
        text.append(id.as_str());
        text.append("\", private_key: \"");
        let key = readable_key(&self.private_key);
        text.append(key.as_str());
        text.append("\", peers: \"");
        let peers = self.peers.render();
        text.append(peers.as_str());
        text.append("\" }");
        text
    }
}

} // verus!
