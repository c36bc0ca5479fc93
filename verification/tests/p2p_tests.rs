use pappap_node::p2p::{
    bytes_eq, mesh_topic_name, node_publishes, swarm_publishes, swarm_topic_name, SwarmAction, SwarmInput,
    SwarmState,
};

#[test]
fn mesh_node_publishes_global_and_all() {
    assert!(node_publishes("global"));
    assert!(node_publishes("all"));
    assert!(!node_publishes("gossip"));
    assert!(!node_publishes("Global"));
}

#[test]
fn swarm_publishes_gossip_and_all() {
    assert!(swarm_publishes("gossip"));
    assert!(swarm_publishes("all"));
    assert!(!swarm_publishes("global"));
}

#[test]
fn topics() {
    assert_eq!(mesh_topic_name(), "pappap-snn-v0.4");
    assert_eq!(swarm_topic_name(), "pappap-ai-chain-snn-2025");
}

#[test]
fn bus_messages_are_published_or_ignored() {
    let mut s = SwarmState::new();
    match s.step(SwarmInput::FromBus { target: "all".to_string(), data: vec![1] }) {
        SwarmAction::Publish { data } => assert_eq!(data, vec![1]),
        _ => panic!("expected publish"),
    }
    assert!(matches!(
        s.step(SwarmInput::FromBus { target: "block_finalized".to_string(), data: vec![1] }),
        SwarmAction::Ignore
    ));
    assert_eq!(s.known_count(), 0);
}

#[test]
fn gossip_peers_are_remembered_once() {
    let mut s = SwarmState::new();
    let a = s.step(SwarmInput::Gossip { peer: vec![1, 2], data: vec![9], threat: false });
    match a {
        SwarmAction::Decrypt { peer, data } => {
            assert_eq!(peer, vec![1, 2]);
            assert_eq!(data, vec![9]);
        }
        _ => panic!("expected decrypt"),
    }
    let b = s.step(SwarmInput::Gossip { peer: vec![1, 2], data: vec![8], threat: true });
    assert!(matches!(b, SwarmAction::DropThreat { .. }));
    s.step(SwarmInput::Gossip { peer: vec![3], data: vec![], threat: true });
    assert_eq!(s.known_count(), 2);
    assert!(s.is_known(&[1, 2]));
    assert!(s.is_known(&[3]));
    assert!(!s.is_known(&[1]));
}

#[test]
fn decrypted_messages_are_forwarded_to_gossip() {
    let mut s = SwarmState::new();
    match s.step(SwarmInput::Decrypted { peer: vec![5], plain: Some(vec![4, 4]) }) {
        SwarmAction::Forward { target, data } => {
            assert_eq!(target, "gossip");
            assert_eq!(data, vec![4, 4]);
        }
        _ => panic!("expected forward"),
    }
    assert!(matches!(
        s.step(SwarmInput::Decrypted { peer: vec![5], plain: None }),
        SwarmAction::DecryptFailed { .. }
    ));
    assert!(matches!(s.step(SwarmInput::Other), SwarmAction::Ignore));
}

#[test]
fn byte_equality() {
    assert!(bytes_eq(&[], &[]));
    assert!(bytes_eq(&[1, 2], &[1, 2]));
    assert!(!bytes_eq(&[1, 2], &[1, 3]));
    assert!(!bytes_eq(&[1], &[1, 1]));
}

#[test]
fn safe_gossip_is_forwarded_once_after_decryption() {
    let mut s = SwarmState::new();
    let first = s.step(SwarmInput::Gossip { peer: vec![7], data: vec![1, 2], threat: false });
    let (peer, data) = match first {
        SwarmAction::Decrypt { peer, data } => (peer, data),
        _ => panic!("expected decrypt"),
    };
    assert_eq!(data, vec![1, 2]);
    match s.step(SwarmInput::Decrypted { peer, plain: Some(vec![3]) }) {
        SwarmAction::Forward { target, data } => {
            assert_eq!(target, "gossip");
            assert_eq!(data, vec![3]);
        }
        _ => panic!("expected forward"),
    }
}
