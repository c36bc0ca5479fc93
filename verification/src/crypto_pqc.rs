//! Post-quantum sealing of payloads: a Kyber768 key encapsulation gives a fresh
//! shared secret, which keys ChaCha20-Poly1305 over the payload. The sealed form is
//! the envelope `kem_ciphertext || nonce || aead_ciphertext`.

use vstd::prelude::*;
use pqcrypto_kyber::kyber768;
use pqcrypto_traits::kem::{PublicKey as KemPublicKey, SecretKey as KemSecretKey, Ciphertext as KemCiphertext, SharedSecret as KemSharedSecret};
use chacha20poly1305::{ChaCha20Poly1305, Key, Nonce, KeyInit, AeadCore};
use chacha20poly1305::aead::Aead;

verus! {

/// Bytes of a Kyber768 public key.
pub const KYBER_PUBLIC_KEY_BYTES: usize = 1184;
/// Bytes of a Kyber768 secret key.
pub const KYBER_SECRET_KEY_BYTES: usize = 2400;
/// Bytes of a Kyber768 encapsulation (KEM ciphertext).
pub const KYBER_CIPHERTEXT_BYTES: usize = 1088;
/// Bytes of a Kyber768 shared secret.
pub const KYBER_SHARED_SECRET_BYTES: usize = 32;
/// Bytes of the coins that Kyber768 encapsulation draws.
pub const KYBER_SYMBYTES: usize = 32;
/// Bytes of the coins that Kyber768 key generation draws.
pub const KYBER_KEYPAIR_COINS: usize = 64;
/// Offset of the public key inside a Kyber768 secret key (after the IND-CPA secret key).
pub const KYBER_PUBLIC_KEY_OFFSET: usize = 1152;
/// Bytes of a ChaCha20-Poly1305 nonce.
pub const NONCE_BYTES: usize = 12;
/// Bytes of the Poly1305 tag appended to a ChaCha20-Poly1305 ciphertext.
pub const TAG_BYTES: usize = 16;
/// Plaintexts at least this long are refused by ChaCha20-Poly1305 (its block counter
/// would wrap): `64 * u32::MAX`.
pub const MAX_PLAINTEXT_BYTES: u64 = 274877906880;

/// The ChaCha20-Poly1305 sealing of `plaintext` under `key` and `nonce`, with no
/// associated data: the encrypted bytes followed by the tag.
pub uninterp spec fn chacha20poly1305_sealed(key: Seq<u8>, nonce: Seq<u8>, plaintext: Seq<u8>) -> Seq<u8>;

/// The Kyber768 key pair `(public key, secret key)` that the deterministic key
/// generation (`crypto_kem_keypair_derand`) makes from 64 bytes of coins.
pub uninterp spec fn kyber768_keypair_from_coins(coins: Seq<u8>) -> (Seq<u8>, Seq<u8>);

/// The Kyber768 encapsulation `(KEM ciphertext, shared secret)` that the deterministic
/// encapsulation (`crypto_kem_enc_derand`) makes for public key `pk` from 32 bytes
/// of coins.
pub uninterp spec fn kyber768_encapsulated(pk: Seq<u8>, coins: Seq<u8>) -> (Seq<u8>, Seq<u8>);

/// The public key held inside a Kyber768 secret key.
pub open spec fn embedded_public_key(sk: Seq<u8>) -> Seq<u8> {
    sk.subrange(KYBER_PUBLIC_KEY_OFFSET as int, KYBER_PUBLIC_KEY_OFFSET + KYBER_PUBLIC_KEY_BYTES)
}

/// `env` seals `data` to the holder of the Kyber768 secret key `sk`: it is the
/// encapsulation, under some 32 coins, of a shared secret to the public key inside
/// `sk`, then a nonce, then the ChaCha20-Poly1305 sealing of `data` under that nonce
/// and that shared secret.
pub open spec fn sealed_to_key(sk: Seq<u8>, env: Seq<u8>, data: Seq<u8>) -> bool {
    let body_start = KYBER_CIPHERTEXT_BYTES + NONCE_BYTES;
    &&& env.len() == body_start + data.len() + TAG_BYTES
    &&& exists|coins: Seq<u8>, key: Seq<u8>|
        #![trigger kyber768_encapsulated(embedded_public_key(sk), coins), chacha20poly1305_sealed(key, env.subrange(KYBER_CIPHERTEXT_BYTES as int, body_start as int), data)]
        coins.len() == KYBER_SYMBYTES && key.len() == KYBER_SHARED_SECRET_BYTES
            && kyber768_encapsulated(embedded_public_key(sk), coins) == (
            env.subrange(0, KYBER_CIPHERTEXT_BYTES as int),
            key,
        ) && chacha20poly1305_sealed(
            key,
            env.subrange(KYBER_CIPHERTEXT_BYTES as int, body_start as int),
            data,
        ) == env.subrange(body_start as int, env.len() as int)
}

/// A fresh Kyber768 key pair (`kyber768::keypair`), as bytes. PQClean's `keypair`
/// draws 64 random bytes of coins and runs the deterministic key generation on them;
/// stated is that the pair is that generation's result for some 64 coins (which ones
/// is chance), the sizes, and that the secret key holds the public key at
/// `KYBER_PUBLIC_KEY_OFFSET`, where the key generation copies it.
#[verifier::external_body]
fn kyber_keypair() -> (keys: (Vec<u8>, Vec<u8>))
    ensures
        keys.0@.len() == KYBER_PUBLIC_KEY_BYTES,
        keys.1@.len() == KYBER_SECRET_KEY_BYTES,
        embedded_public_key(keys.1@) == keys.0@,
        exists|coins: Seq<u8>| (coins.len(), #[trigger] kyber768_keypair_from_coins(coins)) == (KYBER_KEYPAIR_COINS as nat, (keys.0@, keys.1@)),
{
    let (pk, sk) = kyber768::keypair();
    (pk.as_bytes().to_vec(), sk.as_bytes().to_vec())
}

/// Encapsulates a fresh shared secret to the public key `pk`
/// (`kyber768::encapsulate`, after `PublicKey::from_bytes`, which accepts exactly
/// `KYBER_PUBLIC_KEY_BYTES` bytes). Returns the shared secret and the KEM ciphertext.
/// PQClean's `enc` draws 32 random bytes of coins and runs the deterministic
/// encapsulation on them; stated is that the pair is that encapsulation's result for
/// `pk` and some 32 coins (which ones is chance), and the sizes.
#[verifier::external_body]
fn kyber_encapsulate(pk: &[u8]) -> (out: (Vec<u8>, Vec<u8>))
    requires
        pk@.len() == KYBER_PUBLIC_KEY_BYTES,
    ensures
        out.0@.len() == KYBER_SHARED_SECRET_BYTES,
        out.1@.len() == KYBER_CIPHERTEXT_BYTES,
        exists|coins: Seq<u8>| (coins.len(), #[trigger] kyber768_encapsulated(pk@, coins)) == (KYBER_SYMBYTES as nat, (out.1@, out.0@)),
{
    let pk = kyber768::PublicKey::from_bytes(pk).unwrap();
    let (ss, ct) = kyber768::encapsulate(&pk);
    (ss.as_bytes().to_vec(), ct.as_bytes().to_vec())
}

/// A random ChaCha20-Poly1305 nonce (`AeadCore::generate_nonce` over
/// `rand::thread_rng`). Stated is its size only.
#[verifier::external_body]
fn random_nonce() -> (nonce: Vec<u8>)
    ensures
        nonce@.len() == NONCE_BYTES,
{
    ChaCha20Poly1305::generate_nonce(&mut rand::thread_rng()).to_vec()
}

/// ChaCha20-Poly1305 sealing (`KeyInit::new` on the key, then `Aead::encrypt` with no
/// associated data). The encryption fails only for plaintexts of
/// `MAX_PLAINTEXT_BYTES` or more, which `requires` leaves out. The result is the
/// encrypted bytes followed by the 16-byte tag, named by `chacha20poly1305_sealed`.
#[verifier::external_body]
fn chacha_seal(key: &[u8], nonce: &[u8], data: &[u8]) -> (sealed: Vec<u8>)
    requires
        key@.len() == KYBER_SHARED_SECRET_BYTES,
        nonce@.len() == NONCE_BYTES,
        data@.len() < MAX_PLAINTEXT_BYTES,
    ensures
        sealed@ == chacha20poly1305_sealed(key@, nonce@, data@),
        sealed@.len() == data@.len() + TAG_BYTES,
{
    let cipher = ChaCha20Poly1305::new(Key::from_slice(key));
    cipher.encrypt(Nonce::from_slice(nonce), data).unwrap()
}

/// Appends the bytes of `src` to `out`.
fn append_bytes(out: &mut Vec<u8>, src: &[u8])
    ensures
        final(out)@ == old(out)@ + src@,
{
    let n = src.len();
    for i in 0..n
        invariant
            n == src@.len(),
            out@ == old(out)@ + src@.subrange(0, i as int),
    {
        out.push(src[i]);
        assert(src@.subrange(0, i + 1) =~= src@.subrange(0, i as int).push(src@[i as int]));
    }
    assert(src@.subrange(0, n as int) =~= src@);
}

/// The envelope `ct || nonce || sealed`.
pub fn assemble_envelope(ct: &[u8], nonce: &[u8], sealed: &[u8]) -> (env: Vec<u8>)
    ensures
        env@ == ct@ + nonce@ + sealed@,
{
    let mut env: Vec<u8> = Vec::new();
    append_bytes(&mut env, ct);
    append_bytes(&mut env, nonce);
    append_bytes(&mut env, sealed);
    assert(env@ =~= ct@ + nonce@ + sealed@);
    env
}

/// The public key held inside the Kyber768 secret key `sk`.
pub fn public_from_secret(sk: &[u8]) -> (pk: Vec<u8>)
    requires
        sk@.len() == KYBER_SECRET_KEY_BYTES,
    ensures
        pk@ == embedded_public_key(sk@),
        pk@.len() == KYBER_PUBLIC_KEY_BYTES,
{
    let mut pk: Vec<u8> = Vec::new();
    for i in 0..KYBER_PUBLIC_KEY_BYTES
        invariant
            sk@.len() == KYBER_SECRET_KEY_BYTES,
            pk@ == sk@.subrange(KYBER_PUBLIC_KEY_OFFSET as int, KYBER_PUBLIC_KEY_OFFSET + i),
    {
        pk.push(sk[KYBER_PUBLIC_KEY_OFFSET + i]);
        assert(sk@.subrange(KYBER_PUBLIC_KEY_OFFSET as int, KYBER_PUBLIC_KEY_OFFSET + i + 1)
            =~= sk@.subrange(KYBER_PUBLIC_KEY_OFFSET as int, KYBER_PUBLIC_KEY_OFFSET + i).push(
            sk@[KYBER_PUBLIC_KEY_OFFSET + i],
        ));
    }
    pk
}

/// Seals payloads to the node's own Kyber768 key.
pub struct PQCrypto {
    kyber_sk: Vec<u8>,
}

impl PQCrypto {
    #[verifier::type_invariant]
    closed spec fn wf(self) -> bool {
        self.kyber_sk@.len() == KYBER_SECRET_KEY_BYTES
    }

    /// The node's Kyber768 secret key.
    pub closed spec fn secret_key(&self) -> Seq<u8> {
        self.kyber_sk@
    }

    /// A sealer with a freshly generated Kyber768 key pair (the public half is kept
    /// only inside the secret key): the secret key of the key generation run on some
    /// 64 random coins.
    pub fn new() -> (c: PQCrypto)
        ensures
            c.secret_key().len() == KYBER_SECRET_KEY_BYTES,
            exists|coins: Seq<u8>|
                coins.len() == KYBER_KEYPAIR_COINS && (#[trigger] kyber768_keypair_from_coins(
                    coins,
                )).1 == c.secret_key(),
    {
        let (_pk, sk) = kyber_keypair();
        PQCrypto { kyber_sk: sk }
    }

    /// Seals `data` to the node's own key: encapsulates a fresh shared secret to the
    /// public key inside the node's secret key, seals `data` with it under a random
    /// nonce, and returns `kem_ciphertext || nonce || sealing`.
    pub fn encrypt(&self, data: &[u8]) -> (env: Vec<u8>)
        requires
            data@.len() < MAX_PLAINTEXT_BYTES,
        ensures
            sealed_to_key(self.secret_key(), env@, data@),
            env@.len() == data@.len() + 1116,
            exists|coins: Seq<u8>, key: Seq<u8>|
                #![trigger kyber768_encapsulated(embedded_public_key(self.secret_key()), coins), chacha20poly1305_sealed(key, env@.subrange(1088, 1100), data@)]
                coins.len() == 32 && kyber768_encapsulated(
                    self.secret_key().subrange(1152, 2336),
                    coins,
                ) == (env@.subrange(0, 1088), key) && chacha20poly1305_sealed(
                    key,
                    env@.subrange(1088, 1100),
                    data@,
                ) == env@.subrange(1100, env@.len() as int),
    {
        proof {
            use_type_invariant(self);
        }
        let pk = public_from_secret(self.kyber_sk.as_slice());
        let (ss, ct) = kyber_encapsulate(pk.as_slice());
        let nonce = random_nonce();
        let sealed = chacha_seal(ss.as_slice(), nonce.as_slice(), data);
        let env = assemble_envelope(ct.as_slice(), nonce.as_slice(), sealed.as_slice());
        proof {
            let body_start = KYBER_CIPHERTEXT_BYTES + NONCE_BYTES;
            let coins = choose|c: Seq<u8>|
                c.len() == KYBER_SYMBYTES && #[trigger] kyber768_encapsulated(pk@, c) == (ct@, ss@);
            assert(env@.subrange(0, KYBER_CIPHERTEXT_BYTES as int) =~= ct@);
            assert(env@.subrange(KYBER_CIPHERTEXT_BYTES as int, body_start as int) =~= nonce@);
            assert(env@.subrange(body_start as int, env@.len() as int) =~= sealed@);
            assert(kyber768_encapsulated(embedded_public_key(self.secret_key()), coins) == (
                env@.subrange(0, KYBER_CIPHERTEXT_BYTES as int),
                ss@,
            ));
            assert(chacha20poly1305_sealed(
                ss@,
                env@.subrange(KYBER_CIPHERTEXT_BYTES as int, body_start as int),
                data@,
            ) == env@.subrange(body_start as int, env@.len() as int));
        }
        env
    }
}

/// The length of a sealed envelope depends on the length of the data alone: the
/// KEM ciphertext, nonce and tag add 1116 bytes, so data of equal lengths give
/// envelopes of equal lengths.
pub proof fn sealed_envelope_length(sk1: Seq<u8>, env1: Seq<u8>, d1: Seq<u8>, sk2: Seq<u8>, env2: Seq<u8>, d2: Seq<u8>)
    requires
        sealed_to_key(sk1, env1, d1),
        sealed_to_key(sk2, env2, d2),
    ensures
        env1.len() == d1.len() + 1116,
        d1.len() == d2.len() ==> env1.len() == env2.len(),
{
}

/// Layout of a sealed envelope, at fixed offsets: bytes `0..1088` are the Kyber768
/// encapsulation, to the public key stored at `1152..2336` of the secret key, of the
/// shared secret that seals the data; bytes `1088..1100` are the nonce of that
/// sealing; bytes `1100..` are the sealing itself (data length plus the 16-byte tag).
pub proof fn envelope_layout(sk: Seq<u8>, env: Seq<u8>, data: Seq<u8>)
    requires
        sealed_to_key(sk, env, data),
    ensures
        env.len() == 1100 + data.len() + 16,
        exists|coins: Seq<u8>, key: Seq<u8>|
            #![trigger kyber768_encapsulated(sk.subrange(1152, 2336), coins), chacha20poly1305_sealed(key, env.subrange(1088, 1100), data)]
            coins.len() == 32 && key.len() == 32 && kyber768_encapsulated(
                sk.subrange(1152, 2336),
                coins,
            ) == (env.subrange(0, 1088), key) && chacha20poly1305_sealed(
                key,
                env.subrange(1088, 1100),
                data,
            ) == env.subrange(1100, env.len() as int),
{
}

} // verus!
