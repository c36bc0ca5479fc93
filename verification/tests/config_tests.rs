use pappap_node::config::{derive_key_block, AppConfig, ConfigValues};

#[test]
fn load_uses_defaults_when_nothing_is_configured() {
    let cfg = AppConfig::load(ConfigValues { listen_addr: None, p2p_port: None, encryption_key: None });
    assert_eq!(cfg.listen_addr, "0.0.0.0:8080");
    assert_eq!(cfg.p2p_port, 9000);
    let default_key = b"pappap2025snnblockchainkey32b!";
    assert_eq!(default_key.len(), 30);
    assert_eq!(&cfg.encryption_key[..30], &default_key[..]);
    assert_eq!(&cfg.encryption_key[30..], &[0u8, 0u8]);
}

#[test]
fn load_keeps_configured_values() {
    let cfg = AppConfig::load(ConfigValues {
        listen_addr: Some("127.0.0.1:7000".to_string()),
        p2p_port: Some(4001),
        encryption_key: Some("abc".to_string()),
    });
    assert_eq!(cfg.listen_addr, "127.0.0.1:7000");
    assert_eq!(cfg.p2p_port, 4001);
    let mut expected = [0u8; 32];
    expected[..3].copy_from_slice(b"abc");
    assert_eq!(cfg.encryption_key, expected);
}

#[test]
fn long_keys_are_cut_to_thirty_two_bytes() {
    let text = "0123456789abcdefghijklmnopqrstuvwxyzXYZ";
    let mut key = text.to_string();
    let block = derive_key_block(&mut key);
    assert_eq!(&block[..], &text.as_bytes()[..32]);
}

#[test]
fn key_text_is_wiped_after_derivation() {
    let mut key = "secret".to_string();
    let _ = derive_key_block(&mut key);
    assert!(key.is_empty());
}

#[test]
fn key_block_takes_utf8_bytes() {
    let mut key = "khóa".to_string();
    let block = derive_key_block(&mut key);
    let bytes = "khóa".as_bytes();
    assert_eq!(bytes.len(), 5);
    assert_eq!(&block[..5], bytes);
    assert!(block[5..].iter().all(|b| *b == 0));
}

#[test]
fn empty_key_gives_all_zero_block() {
    let mut key = String::new();
    assert_eq!(derive_key_block(&mut key), [0u8; 32]);
}
