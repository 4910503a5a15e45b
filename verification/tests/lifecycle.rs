use bec_broadcast::{
    AcknowledgeConnection, Broadcaster, ConnectionError, DropConnection, EstablishConnection,
    PublicKey, SharedSecret, ACK_DATA,
};

const PROOF: i64 = 4294967295;

fn key(seed: u8) -> [u8; 32] {
    let mut out = [0u8; 32];
    let mut x = seed;
    for byte in out.iter_mut() {
        x = x.wrapping_mul(31).wrapping_add(17);
        *byte = x;
    }
    out
}

fn session(seed: u8) -> Broadcaster {
    Broadcaster::init(key(seed), key(seed.wrapping_add(100)))
}

fn secret_for(session: &Broadcaster, peer: &PublicKey) -> Option<SharedSecret> {
    session.connection(peer).map(|link| link.shared_secret)
}

fn established(session: &Broadcaster, peer: &PublicKey) -> Option<bool> {
    session.connection(peer).map(|link| link.acknowledged)
}

#[test]
fn proof_value_is_the_largest_u32() {
    assert_eq!(ACK_DATA, u32::MAX);
    assert_eq!(ACK_DATA as i64, PROOF);
}

#[test]
fn new_session_has_its_keys_and_no_connections() {
    let s = Broadcaster::init(key(1), key(2));
    assert_eq!(s.id(), key(1));
    assert!(s.summary().contains(&bec_broadcast::readable_key(&key(2))));
    assert!(s.connection(&key(1)).is_none());
    assert!(s.connection(&key(3)).is_none());
}

#[test]
fn a_peer_is_connectable_until_its_connection_is_established() {
    let mut a = session(1);
    let b = key(2);
    assert_eq!(a.connectable(&b), Ok(()));
    a.initialize_connection(b, key(50), key(51)).unwrap();
    assert_eq!(a.connectable(&b), Ok(()));
    a.receive_ack(AcknowledgeConnection { from: b, to: key(1), signed: PROOF }).unwrap();
    assert_eq!(a.connectable(&b), Err(ConnectionError::AlreadyConnected(b)));
    assert_eq!(a.connectable(&key(3)), Ok(()));
    a.drop(b).unwrap();
    assert_eq!(a.connectable(&b), Ok(()));
}

#[test]
fn connectable_agrees_with_initiating_and_responding() {
    let mut a = session(1);
    let b = key(2);
    let request = EstablishConnection { from: b, to: key(1), gk: key(51) };
    a.establish_connection(request, key(60)).unwrap();
    let decided = a.connectable(&b);
    assert_eq!(decided, Err(ConnectionError::AlreadyConnected(b)));
    assert_eq!(a.initialize_connection(b, key(52), key(53)).map(|_| ()), decided);
    assert_eq!(a.establish_connection(request, key(61)).map(|_| ()), decided);
    assert_eq!(secret_for(&a, &b), Some(key(60)));
}

#[test]
fn initiate_records_a_pending_connection_and_addresses_the_request() {
    let mut a = session(1);
    let b = key(2);
    let sent = a.initialize_connection(b, key(50), key(51));
    assert_eq!(sent, Ok(EstablishConnection { from: key(1), to: b, gk: key(51) }));
    assert_eq!(established(&a, &b), Some(false));
    assert_eq!(secret_for(&a, &b), Some(key(50)));
    assert_eq!(a.id(), key(1));
    assert!(a.summary().contains(&bec_broadcast::readable_key(&key(101))));
}

#[test]
fn respond_establishes_at_once_and_answers_the_sender() {
    let mut b = session(2);
    let request = EstablishConnection { from: key(1), to: key(2), gk: key(51) };
    let answer = b.establish_connection(request, key(60));
    assert_eq!(answer, Ok(AcknowledgeConnection { from: key(2), to: key(1), signed: PROOF }));
    assert_eq!(established(&b, &key(1)), Some(true));
    assert_eq!(secret_for(&b, &key(1)), Some(key(60)));
}

#[test]
fn respond_does_not_look_at_the_addressee() {
    let mut b = session(2);
    let request = EstablishConnection { from: key(1), to: key(9), gk: key(51) };
    let answer = b.establish_connection(request, key(60)).unwrap();
    assert_eq!(answer.from, key(2));
    assert_eq!(answer.to, key(1));
    assert_eq!(established(&b, &key(1)), Some(true));
    assert!(b.connection(&key(9)).is_none());
}

#[test]
fn handshake_leaves_both_sides_established_with_the_agreed_secret() {
    let mut a = session(1);
    let mut b = session(2);
    let agreed = key(77);
    let request = a.initialize_connection(b.id(), agreed, key(51)).unwrap();
    let answer = b.establish_connection(request, agreed).unwrap();
    assert_eq!(a.receive_ack(answer), Ok(()));
    assert_eq!(established(&a, &b.id()), Some(true));
    assert_eq!(established(&b, &a.id()), Some(true));
    assert_eq!(secret_for(&a, &b.id()), Some(agreed));
    assert_eq!(secret_for(&a, &b.id()), secret_for(&b, &a.id()));
}

#[test]
fn handshake_keeps_each_side_its_own_secret_when_they_differ() {
    let mut a = session(1);
    let mut b = session(2);
    let request = a.initialize_connection(b.id(), key(70), key(51)).unwrap();
    let answer = b.establish_connection(request, key(71)).unwrap();
    assert_eq!(a.receive_ack(answer), Ok(()));
    assert_eq!(secret_for(&a, &b.id()), Some(key(70)));
    assert_eq!(secret_for(&b, &a.id()), Some(key(71)));
    assert_ne!(secret_for(&a, &b.id()), secret_for(&b, &a.id()));
}

#[test]
fn initiating_twice_rotates_the_secret_and_stays_pending() {
    let mut a = session(1);
    let b = key(2);
    let first = a.initialize_connection(b, key(50), key(51)).unwrap();
    let second = a.initialize_connection(b, key(52), key(53)).unwrap();
    assert_eq!(first.gk, key(51));
    assert_eq!(second.gk, key(53));
    assert_eq!(established(&a, &b), Some(false));
    assert_eq!(secret_for(&a, &b), Some(key(52)));
}

#[test]
fn initiating_after_establishment_is_refused() {
    let mut a = session(1);
    let b = key(2);
    a.initialize_connection(b, key(50), key(51)).unwrap();
    a.receive_ack(AcknowledgeConnection { from: b, to: key(1), signed: PROOF }).unwrap();
    let again = a.initialize_connection(b, key(52), key(53));
    assert_eq!(again, Err(ConnectionError::AlreadyConnected(b)));
    assert_eq!(established(&a, &b), Some(true));
    assert_eq!(secret_for(&a, &b), Some(key(50)));
}

#[test]
fn responding_when_established_is_refused() {
    let mut b = session(2);
    let request = EstablishConnection { from: key(1), to: key(2), gk: key(51) };
    b.establish_connection(request, key(60)).unwrap();
    let again = b.establish_connection(request, key(61));
    assert_eq!(again, Err(ConnectionError::AlreadyConnected(key(1))));
    assert_eq!(secret_for(&b, &key(1)), Some(key(60)));
}

#[test]
fn responding_replaces_a_pending_connection() {
    let mut a = session(1);
    let b = key(2);
    a.initialize_connection(b, key(50), key(51)).unwrap();
    let request = EstablishConnection { from: b, to: key(1), gk: key(54) };
    let answer = a.establish_connection(request, key(55)).unwrap();
    assert_eq!(answer.to, b);
    assert_eq!(established(&a, &b), Some(true));
    assert_eq!(secret_for(&a, &b), Some(key(55)));
}

#[test]
fn duplicate_acknowledgment_is_refused_and_changes_nothing() {
    let mut a = session(1);
    let b = key(2);
    a.initialize_connection(b, key(50), key(51)).unwrap();
    let ack = AcknowledgeConnection { from: b, to: key(1), signed: PROOF };
    assert_eq!(a.receive_ack(ack), Ok(()));
    assert_eq!(a.receive_ack(ack), Err(ConnectionError::AlreadyAcknowledged(b)));
    assert_eq!(established(&a, &b), Some(true));
    assert_eq!(secret_for(&a, &b), Some(key(50)));
}

#[test]
fn acknowledgment_for_an_established_peer_is_refused_before_its_proof_is_read() {
    let mut a = session(1);
    let b = key(2);
    a.initialize_connection(b, key(50), key(51)).unwrap();
    a.receive_ack(AcknowledgeConnection { from: b, to: key(1), signed: PROOF }).unwrap();
    let forged = AcknowledgeConnection { from: b, to: key(1), signed: 5 };
    assert_eq!(a.receive_ack(forged), Err(ConnectionError::AlreadyAcknowledged(b)));
}

#[test]
fn acknowledgment_without_a_connection_is_refused() {
    let mut a = session(1);
    let ack = AcknowledgeConnection { from: key(2), to: key(1), signed: PROOF };
    assert_eq!(a.receive_ack(ack), Err(ConnectionError::NoSuchPendingConnection(key(2))));
    assert!(a.connection(&key(2)).is_none());
    let forged = AcknowledgeConnection { from: key(2), to: key(1), signed: 0 };
    assert_eq!(a.receive_ack(forged), Err(ConnectionError::NoSuchPendingConnection(key(2))));
    assert!(a.connection(&key(2)).is_none());
}

#[test]
fn acknowledgment_with_a_wrong_proof_leaves_the_connection_pending() {
    let mut a = session(1);
    let b = key(2);
    a.initialize_connection(b, key(50), key(51)).unwrap();
    for signed in [0, -1, PROOF - 1, PROOF + 1, i64::MAX, i64::MIN] {
        let forged = AcknowledgeConnection { from: b, to: key(1), signed };
        assert_eq!(a.receive_ack(forged), Err(ConnectionError::InvalidProof(b)));
        assert_eq!(established(&a, &b), Some(false));
        assert_eq!(secret_for(&a, &b), Some(key(50)));
    }
    let ack = AcknowledgeConnection { from: b, to: key(1), signed: PROOF };
    assert_eq!(a.receive_ack(ack), Ok(()));
    assert_eq!(established(&a, &b), Some(true));
}

#[test]
fn acknowledgment_keeps_the_secret() {
    let mut a = session(1);
    let b = key(2);
    a.initialize_connection(b, key(50), key(51)).unwrap();
    a.receive_ack(AcknowledgeConnection { from: b, to: key(9), signed: PROOF }).unwrap();
    assert_eq!(secret_for(&a, &b), Some(key(50)));
}

#[test]
fn drop_removes_a_pending_connection() {
    let mut a = session(1);
    let b = key(2);
    a.initialize_connection(b, key(50), key(51)).unwrap();
    let notice = a.drop(b);
    assert_eq!(notice, Ok(DropConnection { from: key(1), to: b, signed: PROOF }));
    assert!(a.connection(&b).is_none());
}

#[test]
fn drop_removes_an_established_connection() {
    let mut b = session(2);
    let request = EstablishConnection { from: key(1), to: key(2), gk: key(51) };
    b.establish_connection(request, key(60)).unwrap();
    let notice = b.drop(key(1));
    assert_eq!(notice, Ok(DropConnection { from: key(2), to: key(1), signed: PROOF }));
    assert!(b.connection(&key(1)).is_none());
}

#[test]
fn drop_without_a_connection_is_refused() {
    let mut a = session(1);
    assert_eq!(a.drop(key(2)), Err(ConnectionError::NoSuchConnection(key(2))));
    a.initialize_connection(key(3), key(50), key(51)).unwrap();
    assert_eq!(a.drop(key(2)), Err(ConnectionError::NoSuchConnection(key(2))));
    assert_eq!(established(&a, &key(3)), Some(false));
}

#[test]
fn drop_twice_is_refused_the_second_time() {
    let mut a = session(1);
    a.initialize_connection(key(2), key(50), key(51)).unwrap();
    assert!(a.drop(key(2)).is_ok());
    assert_eq!(a.drop(key(2)), Err(ConnectionError::NoSuchConnection(key(2))));
}

#[test]
fn drop_clears_both_sides_and_a_new_handshake_starts_fresh() {
    let mut a = session(1);
    let mut b = session(2);
    let request = a.initialize_connection(b.id(), key(70), key(51)).unwrap();
    let answer = b.establish_connection(request, key(70)).unwrap();
    a.receive_ack(answer).unwrap();

    let notice = a.drop(b.id()).unwrap();
    assert_eq!(notice.to, b.id());
    assert_eq!(b.drop_connection(notice), Ok(()));
    assert!(a.connection(&b.id()).is_none());
    assert!(b.connection(&a.id()).is_none());

    let request = a.initialize_connection(b.id(), key(80), key(81)).unwrap();
    assert_eq!(established(&a, &b.id()), Some(false));
    assert_eq!(secret_for(&a, &b.id()), Some(key(80)));
    let answer = b.establish_connection(request, key(80)).unwrap();
    assert_eq!(a.receive_ack(answer), Ok(()));
    assert_eq!(secret_for(&a, &b.id()), secret_for(&b, &a.id()));
    assert_eq!(established(&b, &a.id()), Some(true));
}

#[test]
fn drop_notice_with_a_wrong_proof_changes_nothing() {
    let mut b = session(2);
    let request = EstablishConnection { from: key(1), to: key(2), gk: key(51) };
    b.establish_connection(request, key(60)).unwrap();
    let forged = DropConnection { from: key(1), to: key(2), signed: 1 };
    assert_eq!(b.drop_connection(forged), Err(ConnectionError::InvalidProof(key(1))));
    assert_eq!(established(&b, &key(1)), Some(true));
    assert_eq!(secret_for(&b, &key(1)), Some(key(60)));
}

#[test]
fn drop_notice_with_a_wrong_proof_keeps_a_pending_connection() {
    let mut a = session(1);
    a.initialize_connection(key(2), key(50), key(51)).unwrap();
    let forged = DropConnection { from: key(2), to: key(1), signed: -PROOF };
    assert_eq!(a.drop_connection(forged), Err(ConnectionError::InvalidProof(key(2))));
    assert_eq!(established(&a, &key(2)), Some(false));
    let notice = DropConnection { from: key(2), to: key(1), signed: PROOF };
    assert_eq!(a.drop_connection(notice), Ok(()));
    assert!(a.connection(&key(2)).is_none());
}

#[test]
fn drop_notice_without_a_connection_is_refused() {
    let mut a = session(1);
    let notice = DropConnection { from: key(2), to: key(1), signed: PROOF };
    assert_eq!(a.drop_connection(notice), Err(ConnectionError::NoSuchConnection(key(2))));
    let forged = DropConnection { from: key(2), to: key(1), signed: 3 };
    assert_eq!(a.drop_connection(forged), Err(ConnectionError::NoSuchConnection(key(2))));
}

#[test]
fn connections_to_different_peers_are_independent() {
    let mut a = session(1);
    a.initialize_connection(key(2), key(50), key(51)).unwrap();
    a.initialize_connection(key(3), key(52), key(53)).unwrap();
    a.establish_connection(EstablishConnection { from: key(4), to: key(1), gk: key(54) }, key(55))
        .unwrap();
    a.receive_ack(AcknowledgeConnection { from: key(3), to: key(1), signed: PROOF }).unwrap();
    assert_eq!(established(&a, &key(2)), Some(false));
    assert_eq!(established(&a, &key(3)), Some(true));
    assert_eq!(established(&a, &key(4)), Some(true));
    a.drop(key(3)).unwrap();
    assert_eq!(secret_for(&a, &key(2)), Some(key(50)));
    assert!(a.connection(&key(3)).is_none());
    assert_eq!(secret_for(&a, &key(4)), Some(key(55)));
}

#[test]
fn identities_that_differ_in_one_byte_are_different_peers() {
    let mut a = session(1);
    let near = key(2);
    let mut far = near;
    far[0] ^= 1;
    let mut last = near;
    last[31] ^= 0x80;
    a.initialize_connection(near, key(50), key(51)).unwrap();
    assert!(a.connection(&far).is_none());
    assert!(a.connection(&last).is_none());
    assert_eq!(a.drop(far), Err(ConnectionError::NoSuchConnection(far)));
    assert_eq!(established(&a, &near), Some(false));
}

#[test]
fn a_session_can_connect_to_its_own_identity() {
    let mut a = session(1);
    let request = a.initialize_connection(a.id(), key(50), key(51)).unwrap();
    assert_eq!(request.from, request.to);
    let answer = a.establish_connection(request, key(52)).unwrap();
    assert_eq!(established(&a, &key(1)), Some(true));
    assert_eq!(secret_for(&a, &key(1)), Some(key(52)));
    assert_eq!(a.receive_ack(answer), Err(ConnectionError::AlreadyAcknowledged(key(1))));
}

#[test]
fn broadcast_leaves_the_session_as_it_is() {
    let mut a = session(1);
    a.initialize_connection(key(2), key(50), key(51)).unwrap();
    let before = a.summary();
    a.broadcast("hello");
    a.broadcast("");
    assert_eq!(a.summary(), before);
    assert_eq!(established(&a, &key(2)), Some(false));
    assert_eq!(secret_for(&a, &key(2)), Some(key(50)));
}

#[test]
fn end_to_end_two_sessions_agree() {
    // Key material of a known X25519 exchange: the initiator's scalar and
    // public point, the responder's key pair, and the secret both derive.
    let scalar: [u8; 32] = [
        0x77, 0x07, 0x6d, 0x0a, 0x73, 0x18, 0xa5, 0x7d, 0x3c, 0x16, 0xc1, 0x72, 0x51, 0xb2, 0x66,
        0x45, 0xdf, 0x4c, 0x2f, 0x87, 0xeb, 0xc0, 0x99, 0x2a, 0xb1, 0x77, 0xfb, 0xa5, 0x1d, 0xb9,
        0x2c, 0x2a,
    ];
    let point: [u8; 32] = [
        0x85, 0x20, 0xf0, 0x09, 0x89, 0x30, 0xa7, 0x54, 0x74, 0x8b, 0x7d, 0xdc, 0xb4, 0x3e, 0xf7,
        0x5a, 0x0d, 0xbf, 0x3a, 0x0d, 0x26, 0x38, 0x1a, 0xf4, 0xeb, 0xa4, 0xa9, 0x8e, 0xaa, 0x9b,
        0x4e, 0x6a,
    ];
    let bob_private: [u8; 32] = [
        0x5d, 0xab, 0x08, 0x7e, 0x62, 0x4a, 0x8a, 0x4b, 0x79, 0xe1, 0x7f, 0x8b, 0x83, 0x80, 0x0e,
        0xe6, 0x6f, 0x3b, 0xb1, 0x29, 0x26, 0x18, 0xb6, 0xfd, 0x1c, 0x2f, 0x8b, 0x27, 0xff, 0x88,
        0xe0, 0xeb,
    ];
    let bob_public: [u8; 32] = [
        0xde, 0x9e, 0xdb, 0x7d, 0x7b, 0x7d, 0xc1, 0xb4, 0xd3, 0x5b, 0x61, 0xc2, 0xec, 0xe4, 0x35,
        0x37, 0x3f, 0x83, 0x43, 0xc8, 0x5b, 0x78, 0x67, 0x4d, 0xad, 0xfc, 0x7e, 0x14, 0x6f, 0x88,
        0x2b, 0x4f,
    ];
    let shared: [u8; 32] = [
        0x4a, 0x5d, 0x9d, 0x5b, 0xa4, 0xce, 0x2d, 0xe1, 0x72, 0x8e, 0x3b, 0xf4, 0x80, 0x35, 0x0f,
        0x25, 0xe0, 0x7e, 0x21, 0xc9, 0x47, 0xd1, 0x9e, 0x33, 0x76, 0xf0, 0x9b, 0x3c, 0x1e, 0x16,
        0x17, 0x42,
    ];
    assert_ne!(scalar, bob_private);

    let mut alice = Broadcaster::init(key(11), key(12));
    let mut bob = Broadcaster::init(bob_public, bob_private);

    let request = alice.initialize_connection(bob.id(), shared, point).unwrap();
    assert_eq!(request.gk, point);
    assert!(bob.summary().contains("private_key: \"ebe088\""));
    let answer = bob.establish_connection(request, shared).unwrap();
    assert_eq!(alice.receive_ack(answer), Ok(()));

    let at_alice = alice.connection(&bob.id()).unwrap();
    let at_bob = bob.connection(&alice.id()).unwrap();
    assert!(at_alice.acknowledged);
    assert!(at_bob.acknowledged);
    assert!(at_alice == at_bob);
    assert_eq!(
        bec_broadcast::readable_key(&at_alice.shared_secret),
        bec_broadcast::readable_key(&at_bob.shared_secret)
    );
    assert_eq!(bec_broadcast::readable_key(&at_alice.shared_secret), "421716");
}
