//! Node configuration: defaults for missing settings and the derivation of the
//! fixed-size encryption key from the configured key text.

use vstd::prelude::*;
use vstd::utf8::encode_utf8;

verus! {

/// Width in bytes of the symmetric encryption key.
pub const KEY_LEN: usize = 32;

/// Listen address used when the configuration does not give one.
pub open spec fn default_listen_addr() -> Seq<char> {
    "0.0.0.0:8080"@
}

/// Encryption key text used when the configuration does not give one.
pub open spec fn default_encryption_key() -> Seq<char> {
    "pappap2025snnblockchainkey32b!"@
}

/// Peer-to-peer port used when the configuration does not give one.
pub const DEFAULT_P2P_PORT: u16 = 9000;

/// The key block made from `bytes`: its first `KEY_LEN` bytes, padded with zeros.
pub open spec fn key_block(bytes: Seq<u8>) -> Seq<u8> {
    Seq::new(KEY_LEN as nat, |i: int| if i < bytes.len() { bytes[i] } else { 0u8 })
}

/// The settings found in the configuration sources; `None` where a source holds none
/// (or holds one that does not read as the setting's type).
pub struct ConfigValues {
    pub listen_addr: Option<String>,
    pub p2p_port: Option<u16>,
    pub encryption_key: Option<String>,
}

/// The node's configuration.
pub struct AppConfig {
    pub listen_addr: String,
    pub p2p_port: u16,
    pub encryption_key: [u8; 32],
}

/// Wipes a secret text in place: `zeroize` overwrites the string's bytes with zeros
/// and then clears it, so that afterwards it is empty.
#[verifier::external_body]
fn wipe_string(s: &mut String)
    ensures
        final(s)@ == Seq::<char>::empty(),
{
    zeroize::Zeroize::zeroize(s);
}

/// Derives the key block from the UTF-8 bytes of `key` (at most the first 32 bytes,
/// zero-padded) and wipes `key` afterwards.
pub fn derive_key_block(key: &mut String) -> (block: [u8; 32])
    ensures
        block@ == key_block(encode_utf8(old(key)@)),
        forall|i: int|
            0 <= i < 32 && i < encode_utf8(old(key)@).len() ==> #[trigger] block@[i] == encode_utf8(
                old(key)@,
            )[i],
        forall|i: int| encode_utf8(old(key)@).len() <= i < 32 ==> #[trigger] block@[i] == 0u8,
        final(key)@ == Seq::<char>::empty(),
{
    let mut block = [0u8; 32];
    let bytes = key.as_str().as_bytes();
    let n: usize = if bytes.len() < KEY_LEN { bytes.len() } else { KEY_LEN };
    for i in 0..n
        invariant
            n <= bytes@.len(),
            n <= KEY_LEN,
            bytes@ == encode_utf8(old(key)@),
            forall|j: int| 0 <= j < i ==> block@[j] == bytes@[j],
            forall|j: int| i <= j < KEY_LEN ==> block@[j] == 0u8,
    {
        block[i] = bytes[i];
    }
    assert(block@ =~= key_block(bytes@));
    wipe_string(key);
    block
}

/// The key block holds exactly 32 bytes: byte `i` of the key text at each position
/// `i` below both 32 and the text's length, whatever its value, and zero at every
/// later position. So two texts give the same block exactly when their first 32 bytes
/// agree and, where one is shorter than 32, the other continues only with zeros.
pub proof fn key_block_copies_prefix(bytes: Seq<u8>)
    ensures
        key_block(bytes).len() == 32,
        forall|i: int| 0 <= i < 32 && i < bytes.len() ==> #[trigger] key_block(bytes)[i] == bytes[i],
        forall|i: int| bytes.len() <= i < 32 ==> #[trigger] key_block(bytes)[i] == 0u8,
        bytes.len() >= 32 ==> key_block(bytes) == bytes.subrange(0, 32),
{
    if bytes.len() >= 32 {
        assert(key_block(bytes) =~= bytes.subrange(0, 32));
    }
}

impl AppConfig {
    /// Builds the configuration from the values found in the sources, falling back to
    /// the defaults for each missing one.
    pub fn load(values: ConfigValues) -> (cfg: AppConfig)
        ensures
            cfg.listen_addr@ == (match values.listen_addr {
                Some(a) => a@,
                None => default_listen_addr(),
            }),
            cfg.p2p_port == (match values.p2p_port {
                Some(p) => p,
                None => DEFAULT_P2P_PORT,
            }),
            cfg.encryption_key@ == key_block(encode_utf8(match values.encryption_key {
                Some(k) => k@,
                None => default_encryption_key(),
            })),
    {
        let mut key = match values.encryption_key {
            Some(k) => k,
            None => "pappap2025snnblockchainkey32b!".to_owned(),
        };
        let encryption_key = derive_key_block(&mut key);
        let listen_addr = match values.listen_addr {
            Some(a) => a,
            None => "0.0.0.0:8080".to_owned(),
        };
        let p2p_port = match values.p2p_port {
            Some(p) => p,
            None => DEFAULT_P2P_PORT,
        };
        AppConfig { listen_addr, p2p_port, encryption_key }
    }
}

} // verus!
