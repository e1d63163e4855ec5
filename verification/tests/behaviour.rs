use libp2p::PeerId;
use pchat::account::Account;
use pchat::behaviour::{
    chat_gossip_settings, direct_message_outcome, direct_topic, discovered_updates,
    expired_updates, gossip_event_report, publish_failure_string, ChatBehaviour, ExpiredPeer,
    GossipEvent, MdnsEvent, MessageValidation, PeerUpdate, PublishFailure, CHAT_TOPIC,
    DIRECT_TOPIC,
};

#[test]
fn settings_of_the_chat() {
    let s = chat_gossip_settings();
    assert_eq!(s.heartbeat_secs, 10);
    assert!(matches!(s.validation, MessageValidation::Strict));
    assert_eq!(s.max_transmit_size, 1_048_576);
    assert_eq!(CHAT_TOPIC, "test-net");
    assert_eq!(DIRECT_TOPIC, "direct-messages");
}

#[test]
fn test_message() {
    let mut node1 = ChatBehaviour::new(Account::new());
    let mut node2 = ChatBehaviour::new(Account::new());
    let r1 = node1.broadcast_message("Hello, node1!".as_bytes());
    assert!(matches!(r1, Err(PublishFailure::InsufficientPeers)));
    let r2 = node2.broadcast_message("Hello, node2!".as_bytes());
    assert!(matches!(r2, Err(PublishFailure::InsufficientPeers)));
}

#[test]
fn publishing_without_peers_fails() {
    let mut chat = ChatBehaviour::new(Account::new());
    assert!(matches!(chat.broadcast_message(b"hello"), Err(PublishFailure::InsufficientPeers)));
    assert!(matches!(chat.broadcast_message(b"hello"), Err(PublishFailure::InsufficientPeers)));
    let err = chat.send_direct_message(PeerId::random(), b"hi").unwrap_err();
    assert_eq!(err, "InsufficientPeers");
}

#[test]
fn new_behaviour_is_fresh() {
    let chat = ChatBehaviour::new(Account::new());
    assert_eq!(chat.gossipsub.topics().count(), 0);
    assert_eq!(chat.gossipsub.all_peers().count(), 0);
}

#[test]
fn oversized_messages_are_refused() {
    let mut chat = ChatBehaviour::new(Account::new());
    let big = vec![b'x'; 1_048_577];
    assert!(matches!(chat.broadcast_message(&big), Err(PublishFailure::MessageTooLarge)));
    let err = chat.send_direct_message(PeerId::random(), &big).unwrap_err();
    assert_eq!(err, "MessageTooLarge");
    let limit = vec![b'x'; 1_048_576];
    assert!(matches!(chat.broadcast_message(&limit), Err(PublishFailure::InsufficientPeers)));
}

#[test]
fn direct_topic_names_the_peer() {
    let peer = PeerId::random();
    assert_eq!(direct_topic(&peer), format!("direct-messages/{}", peer.to_base58()));
    assert_ne!(direct_topic(&peer), direct_topic(&PeerId::random()));
}

#[test]
fn texts_of_publish_failures() {
    assert_eq!(publish_failure_string(&PublishFailure::Duplicate), "Duplicate");
    assert_eq!(publish_failure_string(&PublishFailure::InsufficientPeers), "InsufficientPeers");
    assert_eq!(publish_failure_string(&PublishFailure::MessageTooLarge), "MessageTooLarge");
    assert_eq!(publish_failure_string(&PublishFailure::AllQueuesFull(3)), "AllQueuesFull(3)");
    assert_eq!(publish_failure_string(&PublishFailure::AllQueuesFull(0)), "AllQueuesFull(0)");
    assert_eq!(
        publish_failure_string(&PublishFailure::SigningError("bad key".to_string())),
        "SigningError(bad key)"
    );
    assert_eq!(
        publish_failure_string(&PublishFailure::TransformFailed("io".to_string())),
        "TransformFailed(io)"
    );
}

#[test]
fn outcome_of_a_direct_message() {
    assert_eq!(direct_message_outcome(Ok(libp2p::gossipsub::MessageId::from("1"))), Ok(()));
    assert_eq!(
        direct_message_outcome(Err(PublishFailure::AllQueuesFull(12))),
        Err("AllQueuesFull(12)".to_string())
    );
}

#[test]
fn discovered_peers_are_added_in_order() {
    let a = PeerId::random().to_bytes();
    let b = PeerId::random().to_bytes();
    let updates = discovered_updates(&vec![a.clone(), b.clone()]);
    assert_eq!(updates.len(), 2);
    assert!(matches!(&updates[0], PeerUpdate::Add(p) if *p == a));
    assert!(matches!(&updates[1], PeerUpdate::Add(p) if *p == b));
}

#[test]
fn expired_peers_still_known_stay() {
    let a = PeerId::random().to_bytes();
    let b = PeerId::random().to_bytes();
    let c = PeerId::random().to_bytes();
    let updates = expired_updates(&vec![
        ExpiredPeer { peer: a.clone(), still_known: false },
        ExpiredPeer { peer: b.clone(), still_known: true },
        ExpiredPeer { peer: c.clone(), still_known: false },
    ]);
    assert_eq!(updates.len(), 2);
    assert!(matches!(&updates[0], PeerUpdate::Remove(p) if *p == a));
    assert!(matches!(&updates[1], PeerUpdate::Remove(p) if *p == c));
}

#[test]
fn mdns_events_are_handled() {
    let mut chat = ChatBehaviour::new(Account::new());
    let a = PeerId::random();
    chat.on_mdns_event(MdnsEvent::Discovered(vec![a.to_bytes(), vec![1, 2, 3]]));
    assert!(chat.gossipsub.all_peers().count() == 0);
    chat.on_mdns_event(MdnsEvent::Expired(vec![ExpiredPeer { peer: a.to_bytes(), still_known: false }]));
}

#[test]
fn reports_of_gossip_events() {
    let line = gossip_event_report(&GossipEvent::Message { data: "héllo".as_bytes().to_vec() });
    assert_eq!(line.unwrap(), "NetworkBehaviourEventProcess gossipsub: héllo");
    assert!(gossip_event_report(&GossipEvent::Message { data: vec![0xff, 0xfe] }).is_none());
    assert_eq!(gossip_event_report(&GossipEvent::Subscribed).unwrap(), "Subscribed to topic");
    assert_eq!(gossip_event_report(&GossipEvent::Unsubscribed).unwrap(), "Unsubscribed from topic");
    assert!(gossip_event_report(&GossipEvent::Other).is_none());
}
