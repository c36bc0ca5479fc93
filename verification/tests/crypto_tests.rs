use pappap_node::crypto_pqc::{
    assemble_envelope, public_from_secret, PQCrypto, KYBER_CIPHERTEXT_BYTES, KYBER_PUBLIC_KEY_BYTES,
    KYBER_PUBLIC_KEY_OFFSET, KYBER_SECRET_KEY_BYTES, NONCE_BYTES, TAG_BYTES,
};
use pqcrypto_traits::kem::{Ciphertext as _, SecretKey as _, SharedSecret as _};
use chacha20poly1305::aead::Aead;
use chacha20poly1305::{ChaCha20Poly1305, Key, KeyInit, Nonce};

#[test]
fn envelope_has_kem_nonce_and_sealed_parts() {
    let c = PQCrypto::new();
    let data = b"block payload".to_vec();
    let env = c.encrypt(&data);
    assert_eq!(env.len(), KYBER_CIPHERTEXT_BYTES + NONCE_BYTES + data.len() + TAG_BYTES);
}

#[test]
fn empty_payload_gives_tag_only_body() {
    let c = PQCrypto::new();
    let env = c.encrypt(&[]);
    assert_eq!(env.len(), 1088 + 12 + 16);
}

#[test]
fn two_sealings_differ() {
    let c = PQCrypto::new();
    let a = c.encrypt(b"same");
    let b = c.encrypt(b"same");
    assert_ne!(a, b);
}

#[test]
fn key_pair_embeds_public_key_and_envelope_header_is_a_kem_ciphertext() {
    let (pk, sk) = pqcrypto_kyber::kyber768::keypair();
    let sk_bytes = sk.as_bytes().to_vec();
    let pk_bytes = public_from_secret(&sk_bytes);
    assert_eq!(pk_bytes, pqcrypto_traits::kem::PublicKey::as_bytes(&pk).to_vec());
    let c = PQCrypto::new();
    let env = c.encrypt(b"x");
    let ct = pqcrypto_kyber::kyber768::Ciphertext::from_bytes(&env[..KYBER_CIPHERTEXT_BYTES]).unwrap();
    assert_eq!(ct.as_bytes().len(), KYBER_CIPHERTEXT_BYTES);
}

#[test]
fn sealed_body_decrypts_with_the_shared_secret() {
    let (pk, sk) = pqcrypto_kyber::kyber768::keypair();
    let (ss, ct) = pqcrypto_kyber::kyber768::encapsulate(&pk);
    let ss2 = pqcrypto_kyber::kyber768::decapsulate(&ct, &sk);
    assert_eq!(ss.as_bytes(), ss2.as_bytes());
    let nonce = [7u8; 12];
    let cipher = ChaCha20Poly1305::new(Key::from_slice(ss.as_bytes()));
    let sealed = cipher.encrypt(Nonce::from_slice(&nonce), &b"hello"[..]).unwrap();
    let env = assemble_envelope(ct.as_bytes(), &nonce, &sealed);
    let body = &env[KYBER_CIPHERTEXT_BYTES + NONCE_BYTES..];
    let plain = cipher.decrypt(Nonce::from_slice(&env[KYBER_CIPHERTEXT_BYTES..KYBER_CIPHERTEXT_BYTES + NONCE_BYTES]), body).unwrap();
    assert_eq!(plain, b"hello");
}

#[test]
fn assemble_envelope_concatenates() {
    let env = assemble_envelope(&[1, 2], &[3], &[4, 5, 6]);
    assert_eq!(env, vec![1, 2, 3, 4, 5, 6]);
    assert_eq!(assemble_envelope(&[], &[], &[]), Vec::<u8>::new());
}

#[test]
fn public_key_is_read_from_its_offset() {
    let sk: Vec<u8> = (0..KYBER_SECRET_KEY_BYTES).map(|i| (i % 251) as u8).collect();
    let pk = public_from_secret(&sk);
    assert_eq!(pk.len(), KYBER_PUBLIC_KEY_BYTES);
    assert_eq!(pk[0], (KYBER_PUBLIC_KEY_OFFSET % 251) as u8);
    assert_eq!(&pk[..], &sk[1152..2336]);
}
