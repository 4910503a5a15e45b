//! What holds of the connection life cycle across several transitions.
//!
//! Each statement is about [`SessionState`], the model that the operations
//! of a `Broadcaster` are proved to follow, so it holds of every run of the
//! executable session.

use crate::keys::{PublicKey, SharedSecret};
use crate::message::{ack_proof, AcknowledgeConnection, ConnectionError, DropConnection};
use crate::peers::PeerConnection;
use crate::session::SessionState;
use vstd::prelude::*;

verus! {

/// A handshake establishes the connection on both sides.
///
/// When neither side holds an established connection to the other, the
/// initiator's request, the responder's answer and the initiator's intake of
/// that answer all succeed. Afterwards each side is established with the
/// other; the initiator holds the secret it agreed when it initiated, the
/// responder the secret it derived from the request. The two sides hold
/// identical secrets exactly when those two key agreements gave the same
/// value.
pub proof fn lemma_handshake(
    a: SessionState,
    b: SessionState,
    secret_a: SharedSecret,
    gk: [u8; 32],
    secret_b: SharedSecret,
)
    requires
        !a.established(b.id),
        !b.established(a.id),
    ensures
        ({
            let (a1, request) = a.initiate(b.id, secret_a, gk);
            let (b1, answer) = b.respond(request->Ok_0, secret_b);
            let (a2, done) = a1.acknowledge(answer->Ok_0);
            &&& request is Ok
            &&& request->Ok_0.from == a.id && request->Ok_0.to == b.id && request->Ok_0.gk == gk
            &&& answer is Ok
            &&& answer->Ok_0.from == b.id && answer->Ok_0.to == a.id
            &&& done is Ok
            &&& a2.established(b.id)
            &&& b1.established(a.id)
            &&& a2.peers[b.id].shared_secret == secret_a
            &&& b1.peers[a.id].shared_secret == secret_b
            &&& a2.peers[b.id].shared_secret == b1.peers[a.id].shared_secret <==> secret_a
                == secret_b
        }),
{
}

/// A handshake over a key agreement that commutes leaves both sides with
/// the same secret.
///
/// `agree` stands for the key agreement between a public point and a scalar,
/// `point` for the public point of a scalar. The initiator agrees on its
/// secret between the responder's identity and a scalar `k` and sends the
/// point of `k`; the responder agrees on its secret between the point it
/// received and its own private key. When these two agreements give the same
/// value, the secrets held after the handshake are identical.
pub proof fn lemma_handshake_agrees(
    a: SessionState,
    b: SessionState,
    k: [u8; 32],
    agree: spec_fn([u8; 32], [u8; 32]) -> SharedSecret,
    point: spec_fn([u8; 32]) -> [u8; 32],
)
    requires
        !a.established(b.id),
        !b.established(a.id),
        agree(b.id, k) == agree(point(k), b.private_key),
    ensures
        ({
            let (a1, request) = a.initiate(b.id, agree(b.id, k), point(k));
            let (b1, answer) = b.respond(request->Ok_0, agree(request->Ok_0.gk, b.private_key));
            let (a2, done) = a1.acknowledge(answer->Ok_0);
            &&& request is Ok && answer is Ok && done is Ok
            &&& a2.established(b.id)
            &&& b1.established(a.id)
            &&& a2.peers[b.id].shared_secret == b1.peers[a.id].shared_secret
        }),
{
}

/// Whether a connection may be opened is decided before any key material
/// exists: initiating and responding succeed exactly when the session finds
/// the peer connectable, whatever secret and point they are given, and are
/// refused with the same error when it does not.
pub proof fn lemma_connectable_decides(
    s: SessionState,
    remote: PublicKey,
    request: crate::message::EstablishConnection,
    shared_secret: SharedSecret,
    gk: [u8; 32],
)
    ensures
        s.initiate(remote, shared_secret, gk).1 is Ok <==> s.connectable(remote) is Ok,
        s.initiate(remote, shared_secret, gk).1 is Err ==> s.initiate(
            remote,
            shared_secret,
            gk,
        ).1->Err_0 == s.connectable(remote)->Err_0,
        s.respond(request, shared_secret).1 is Ok <==> s.connectable(request.from) is Ok,
        s.respond(request, shared_secret).1 is Err ==> s.respond(request, shared_secret).1->Err_0
            == s.connectable(request.from)->Err_0,
{
}

/// Initiating again before any acknowledgment succeeds and rotates the
/// secret: the connection stays pending, holds the second secret, and the
/// session is as if only the second call had been made.
pub proof fn lemma_initiate_again(
    s: SessionState,
    remote: PublicKey,
    first_secret: SharedSecret,
    first_gk: [u8; 32],
    second_secret: SharedSecret,
    second_gk: [u8; 32],
)
    requires
        !s.established(remote),
    ensures
        ({
            let (s1, first) = s.initiate(remote, first_secret, first_gk);
            let (s2, second) = s1.initiate(remote, second_secret, second_gk);
            &&& first is Ok
            &&& s1.pending(remote)
            &&& s1.peers[remote].shared_secret == first_secret
            &&& second is Ok
            &&& s2.pending(remote)
            &&& s2.peers[remote].shared_secret == second_secret
            &&& (s2, second) == s.initiate(remote, second_secret, second_gk)
        }),
{
    let (s1, first) = s.initiate(remote, first_secret, first_gk);
    let (s2, second) = s1.initiate(remote, second_secret, second_gk);
    assert(s2.peers =~= s.initiate(remote, second_secret, second_gk).0.peers);
}

/// Once the connection to a peer is established, initiating it is refused
/// with `AlreadyConnected` and the session stays as it is. A connection is
/// established after a handshake completed on the initiator's side, or after
/// a request was answered on the responder's side.
pub proof fn lemma_initiate_when_established(
    s: SessionState,
    remote: PublicKey,
    shared_secret: SharedSecret,
    gk: [u8; 32],
)
    requires
        s.established(remote),
    ensures
        s.initiate(remote, shared_secret, gk) == (
            s,
            Err::<crate::message::EstablishConnection, ConnectionError>(
                ConnectionError::AlreadyConnected(remote),
            ),
        ),
{
}

/// After an acknowledgment was accepted, a further acknowledgment from the
/// same peer, whatever proof it carries, is refused with
/// `AlreadyAcknowledged`, and the session stays as it is.
pub proof fn lemma_duplicate_acknowledgment(
    s: SessionState,
    ack: AcknowledgeConnection,
    again: AcknowledgeConnection,
)
    requires
        s.acknowledge(ack).1 is Ok,
        again.from == ack.from,
    ensures
        ({
            let s1 = s.acknowledge(ack).0;
            &&& s1.established(ack.from)
            &&& s1.peers[ack.from].shared_secret == s.peers[ack.from].shared_secret
            &&& s1.acknowledge(again) == (
                s1,
                Err::<(), ConnectionError>(ConnectionError::AlreadyAcknowledged(ack.from)),
            )
        }),
{
}

/// Dropping clears the connection on both sides.
///
/// When each side holds a connection to the other, one side's drop and the
/// other side's intake of the notice both succeed, and afterwards neither
/// holds an entry for the other. Initiating between them then succeeds, and
/// what the initiator holds afterwards is what it would hold had the dropped
/// connection never existed.
pub proof fn lemma_drop_clears(
    a: SessionState,
    b: SessionState,
    shared_secret: SharedSecret,
    gk: [u8; 32],
)
    requires
        a.connected(b.id),
        b.connected(a.id),
    ensures
        ({
            let (a1, notice) = a.drop_peer(b.id);
            let (b1, done) = b.accept_drop(notice->Ok_0);
            let (a2, request) = a1.initiate(b.id, shared_secret, gk);
            &&& notice is Ok
            &&& notice->Ok_0.from == a.id && notice->Ok_0.to == b.id
            &&& done is Ok
            &&& !a1.connected(b.id)
            &&& !b1.connected(a.id)
            &&& forall|other: PublicKey| other != b.id ==> a1.peers.get(other) == a.peers.get(other)
            &&& forall|other: PublicKey| other != a.id ==> b1.peers.get(other) == b.peers.get(other)
            &&& request is Ok
            &&& a2.pending(b.id)
            &&& a2.peers == a.peers.insert(
                b.id,
                PeerConnection { shared_secret, acknowledged: false },
            )
            &&& b1.initiate(a.id, shared_secret, gk).1 is Ok
        }),
{
    let (a1, notice) = a.drop_peer(b.id);
    let (a2, request) = a1.initiate(b.id, shared_secret, gk);
    assert(a2.peers =~= a.peers.insert(b.id, PeerConnection { shared_secret, acknowledged: false }));
}

/// A message with a wrong proof never changes the session.
///
/// An acknowledgment or a drop notice whose proof is not the expected one is
/// refused and leaves the session as it is. The refusal is `InvalidProof`
/// wherever the message would have been accepted with the right proof: for
/// an acknowledgment when the sender's connection is pending, for a drop
/// notice when a connection to the sender exists.
pub proof fn lemma_invalid_proof(s: SessionState, ack: AcknowledgeConnection, notice: DropConnection)
    requires
        ack.signed != ack_proof(),
        notice.signed != ack_proof(),
    ensures
        s.acknowledge(ack).0 == s,
        s.acknowledge(ack).1 is Err,
        s.acknowledge(ack).1 == Err::<(), ConnectionError>(ConnectionError::InvalidProof(ack.from))
            <==> s.pending(ack.from),
        s.accept_drop(notice).0 == s,
        s.accept_drop(notice).1 is Err,
        s.accept_drop(notice).1 == Err::<(), ConnectionError>(
            ConnectionError::InvalidProof(notice.from),
        ) <==> s.connected(notice.from),
{
}

/// Whether `after` has the keys of `before` and holds for every peer but
/// `subject` what `before` holds.
pub open spec fn keeps_others(before: SessionState, after: SessionState, subject: PublicKey) -> bool {
    &&& after.id == before.id
    &&& after.private_key == before.private_key
    &&& forall|other: PublicKey|
        other != subject ==> after.peers.get(other) == before.peers.get(other)
}

/// No refused operation changes the session, and no operation ever changes
/// the session's own keys or what it holds for a peer other than the one
/// the operation is about.
pub proof fn lemma_transitions_are_local(
    s: SessionState,
    remote: PublicKey,
    shared_secret: SharedSecret,
    gk: [u8; 32],
    request: crate::message::EstablishConnection,
    ack: AcknowledgeConnection,
    notice: DropConnection,
)
    ensures
        s.initiate(remote, shared_secret, gk).1 is Err ==> s.initiate(remote, shared_secret, gk).0
            == s,
        s.respond(request, shared_secret).1 is Err ==> s.respond(request, shared_secret).0 == s,
        s.acknowledge(ack).1 is Err ==> s.acknowledge(ack).0 == s,
        s.drop_peer(remote).1 is Err ==> s.drop_peer(remote).0 == s,
        s.accept_drop(notice).1 is Err ==> s.accept_drop(notice).0 == s,
        keeps_others(s, s.initiate(remote, shared_secret, gk).0, remote),
        keeps_others(s, s.respond(request, shared_secret).0, request.from),
        keeps_others(s, s.acknowledge(ack).0, ack.from),
        keeps_others(s, s.drop_peer(remote).0, remote),
        keeps_others(s, s.accept_drop(notice).0, notice.from),
{
}

} // verus!
