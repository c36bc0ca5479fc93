use pappap_node::managers::{
    anomaly_peer_name, block_file_name, consensus_decide, is_block_proposal, is_finalized_block,
    storage_plan_now, Verdict, ViolationLog, BAN_THRESHOLD, HEARTBEAT_SECS,
};

#[test]
fn consensus_takes_only_proposals() {
    assert!(is_block_proposal("block_proposal"));
    assert!(!is_block_proposal("block_finalized"));
    assert!(!is_block_proposal("block_proposal "));
}

#[test]
fn approved_blocks_are_finalized_unchanged() {
    let out = consensus_decide(true, vec![1, 2, 3]);
    let (target, data) = out.unwrap();
    assert_eq!(target, "block_finalized");
    assert_eq!(data, vec![1, 2, 3]);
    assert!(is_finalized_block(&target));
    assert!(consensus_decide(false, vec![9]).is_none());
}

#[test]
fn block_file_names() {
    assert_eq!(block_file_name(1732406400), "chaindata/blocks/block_1732406400.blk");
    assert_eq!(block_file_name(0), "chaindata/blocks/block_0.blk");
    assert_eq!(block_file_name(-5), "chaindata/blocks/block_-5.blk");
}

#[test]
fn storage_plans_only_finalized_blocks() {
    assert!(storage_plan_now("block_proposal").is_none());
    let p = storage_plan_now("block_finalized").unwrap();
    assert!(p.starts_with("chaindata/blocks/block_"));
    assert!(p.ends_with(".blk"));
}

#[test]
fn violations_warn_then_ban() {
    let mut log = ViolationLog::new();
    let peer = anomaly_peer_name();
    assert_eq!(peer, "unknown_peer");
    assert_eq!(log.violations(&peer), 0);
    for n in 1..BAN_THRESHOLD {
        match log.record_violation(&peer) {
            Verdict::Warned { violations } => assert_eq!(violations, n),
            Verdict::Banned { .. } => panic!("banned too early"),
        }
    }
    match log.record_violation(&peer) {
        Verdict::Banned { violations } => assert_eq!(violations, 4),
        Verdict::Warned { .. } => panic!("not banned"),
    }
    match log.record_violation(&peer) {
        Verdict::Banned { violations } => assert_eq!(violations, 5),
        Verdict::Warned { .. } => panic!("ban lifted"),
    }
    assert_eq!(log.violations(&peer), 5);
}

#[test]
fn violations_are_counted_per_peer() {
    let mut log = ViolationLog::new();
    log.record_violation("a");
    log.record_violation("b");
    log.record_violation("a");
    assert_eq!(log.violations("a"), 2);
    assert_eq!(log.violations("b"), 1);
    assert_eq!(log.violations("c"), 0);
}

#[test]
fn heartbeat_period() {
    assert_eq!(HEARTBEAT_SECS, 8);
}

#[test]
fn many_anomalies_charge_one_peer() {
    let mut log = ViolationLog::new();
    let peer = anomaly_peer_name();
    for k in 1..=255u8 {
        let v = log.record_violation(&peer);
        match v {
            Verdict::Banned { violations } => {
                assert_eq!(violations, k);
                assert!(k >= BAN_THRESHOLD);
            }
            Verdict::Warned { violations } => {
                assert_eq!(violations, k);
                assert!(k < BAN_THRESHOLD);
            }
        }
    }
    assert_eq!(log.violations(&peer), 255);
    assert_eq!(log.violations("other"), 0);
}
