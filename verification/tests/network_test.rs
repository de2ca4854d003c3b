use afri_mesh::app::App;
use afri_mesh::error::AfriMeshError;
use afri_mesh::network::{chat_gossip, publish, publish_outcome, subscribe, CHAT_TOPIC};
use libp2p::gossipsub::{Behaviour, Config, MessageAuthenticity, MessageId, PublishError};
use libp2p::identity::Keypair;
use tokio::sync::mpsc::unbounded_channel;

fn behaviour() -> Behaviour {
    Behaviour::new(MessageAuthenticity::Signed(Keypair::generate_ed25519()), Config::default())
        .unwrap()
}

#[test]
fn subscribing_twice() {
    let mut b = behaviour();
    assert!(matches!(subscribe(&mut b, "lesson"), Ok(true)));
    assert!(matches!(subscribe(&mut b, "lesson"), Ok(false)));
    assert!(matches!(subscribe(&mut b, "other"), Ok(true)));
    let mut topics: Vec<String> = b.topics().map(|t| t.to_string()).collect();
    topics.sort();
    assert_eq!(topics, vec!["lesson".to_string(), "other".to_string()]);
}

#[test]
fn publishing_without_peers_fails() {
    let mut b = behaviour();
    subscribe(&mut b, "lesson").unwrap();
    match publish(&mut b, "lesson", "hello".to_string()) {
        Err(AfriMeshError::PublishFailed(PublishError::InsufficientPeers)) => {}
        other => panic!("unexpected: {:?}", other),
    }
    assert_eq!(b.topics().count(), 1);
}

#[test]
fn joining_the_chat() {
    let (tx, _rx) = unbounded_channel::<String>();
    let mut app = App::new("me".to_string(), tx);
    let mut b = behaviour();
    app.join_chat(&mut b);
    assert!(app.messages.is_empty());
    let topics: Vec<String> = b.topics().map(|t| t.to_string()).collect();
    assert_eq!(topics, vec![CHAT_TOPIC.to_string()]);
    assert_eq!(CHAT_TOPIC, "classroom-chat");
}

#[test]
fn outgoing_message_without_peers_is_reported() {
    let (tx, _rx) = unbounded_channel::<String>();
    let mut app = App::new("me".to_string(), tx);
    let mut b = behaviour();
    app.join_chat(&mut b);
    app.publish_outgoing(&mut b, "hi".to_string());
    assert_eq!(
        app.messages,
        vec!["SYSTEM ERROR: Message failed to send: Failed to publish message: InsufficientPeers"
            .to_string()]
    );
}

#[test]
fn outcome_of_publication() {
    match publish_outcome(Ok(MessageId::new(b"abc"))) {
        Ok(id) => assert_eq!(id, MessageId::new(b"abc")),
        Err(e) => panic!("unexpected: {:?}", e),
    }
    match publish_outcome(Err(PublishError::Duplicate)) {
        Err(AfriMeshError::PublishFailed(PublishError::Duplicate)) => {}
        other => panic!("unexpected: {:?}", other),
    }
}

#[test]
fn recording_publication_answers() {
    let (tx, _rx) = unbounded_channel::<String>();
    let mut app = App::new("me".to_string(), tx);
    app.record_publish_result(&Ok(MessageId::new(b"id")));
    assert!(app.messages.is_empty());
    app.record_publish_result(&Err(AfriMeshError::PublishFailed(PublishError::MessageTooLarge)));
    assert_eq!(
        app.messages,
        vec!["SYSTEM ERROR: Message failed to send: Failed to publish message: MessageTooLarge"
            .to_string()]
    );
}

#[test]
fn fresh_chat_behaviour() {
    let mut b = chat_gossip(&Keypair::generate_ed25519()).unwrap();
    assert_eq!(b.topics().count(), 0);
    assert!(matches!(subscribe(&mut b, CHAT_TOPIC), Ok(true)));
    assert!(matches!(subscribe(&mut b, CHAT_TOPIC), Ok(false)));
    assert_eq!(b.topics().count(), 1);
    assert!(matches!(
        publish(&mut b, CHAT_TOPIC, "x".repeat(70000)),
        Err(AfriMeshError::PublishFailed(_))
    ));
}
