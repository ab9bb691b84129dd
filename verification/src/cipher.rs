//! Key material handling around the symmetric secure cell.
//!
//! The cell itself is an outside authenticated cipher that the shell invokes;
//! the core prepares its configuration (key material is hex-encoded so the
//! stored form is printable), caches it, and checks a consumer's keys against
//! the cached record before any broker interaction.

use vstd::prelude::*;
use vstd::string::StringExecFns;
use vstd::utf8::encode_utf8;
use crate::hexcodec::{hex_chars_of, hex_encode};
use crate::error::{ErrorKind, HoopoeErrorResponse, CRYPTER_ERROR_CODE};

verus! {

/// The printable form a key string takes inside a stored cell config:
/// the lowercase hex of its UTF-8 bytes.
pub open spec fn hex_key_of(s: Seq<char>) -> Seq<char> {
    hex_chars_of(encode_utf8(s))
}

/// Caller-supplied cipher parameters: raw key material and the cache
/// identity of the config record.
#[derive(Clone, Debug, PartialEq)]
pub struct CryptoConfig {
    pub secret: String,
    pub passphrase: String,
    pub unique_redis_id: String,
}

impl Default for CryptoConfig {
    fn default() -> (r: Self)
        ensures
            r.secret@.len() == 0,
            r.passphrase@.len() == 0,
            r.unique_redis_id@.len() == 0,
    {
        CryptoConfig {
            secret: String::new(),
            passphrase: String::new(),
            unique_redis_id: String::new(),
        }
    }
}

/// Internal state of the cipher: hex-encoded key material, and the payload
/// bytes (ciphertext after encryption, plaintext after decryption).
#[derive(Clone, Debug, PartialEq)]
pub struct SecureCellConfig {
    pub secret_key: String,
    pub passphrase: String,
    pub data: Vec<u8>,
}

/// The mathematical view of a [`SecureCellConfig`].
pub struct SecureCellConfigView {
    pub secret_key: Seq<char>,
    pub passphrase: Seq<char>,
    pub data: Seq<u8>,
}

impl View for SecureCellConfig {
    type V = SecureCellConfigView;

    open spec fn view(&self) -> SecureCellConfigView {
        SecureCellConfigView {
            secret_key: self.secret_key@,
            passphrase: self.passphrase@,
            data: self.data@,
        }
    }
}

impl SecureCellConfig {
    /// An exact copy; the stored record is both cached and carried through
    /// the consumer session.
    pub fn duplicate(&self) -> (r: Self)
        ensures
            r@ == self@,
    {
        SecureCellConfig {
            secret_key: self.secret_key.clone(),
            passphrase: self.passphrase.clone(),
            data: clone_bytes(&self.data),
        }
    }
}

/// An exact copy of a byte buffer.
pub fn clone_bytes(v: &Vec<u8>) -> (r: Vec<u8>)
    ensures
        r@ == v@,
{
    let mut r: Vec<u8> = Vec::new();
    let mut i: usize = 0;
    while i < v.len()
        invariant
            i <= v.len(),
            r@ == v@.take(i as int),
        decreases v.len() - i,
    {
        r.push(v[i]);
        proof {
            assert(r@ =~= v@.take(i + 1));
        }
        i = i + 1;
    }
    proof {
        assert(v@.take(v@.len() as int) =~= v@);
    }
    r
}

impl Default for SecureCellConfig {
    fn default() -> (r: Self)
        ensures
            r.secret_key@.len() == 0,
            r.passphrase@.len() == 0,
            r.data@.len() == 0,
    {
        SecureCellConfig { secret_key: String::new(), passphrase: String::new(), data: Vec::new() }
    }
}

/// Hex-encodes a key string's UTF-8 bytes.
pub fn hex_encode_key(s: &str) -> (r: String)
    ensures
        r@ == hex_key_of(s@),
{
    hex_encode(s.as_bytes())
}

/// Builds the cell state for a produce call: both keys hex-encoded, the
/// payload staged in `data` for the cipher to replace with ciphertext.
pub fn prepare_secure_cell(config: &CryptoConfig, payload: Vec<u8>) -> (r: SecureCellConfig)
    ensures
        r.secret_key@ == hex_key_of(config.secret@),
        r.passphrase@ == hex_key_of(config.passphrase@),
        r.data@ == payload@,
{
    SecureCellConfig {
        secret_key: hex_encode_key(config.secret.as_str()),
        passphrase: hex_encode_key(config.passphrase.as_str()),
        data: payload,
    }
}

/// The cache key under which a cell config is stored for its
/// `unique_redis_id`.
pub fn config_cache_key(unique_redis_id: &str) -> (r: String)
    ensures
        r@ == "notif_encryption_config_for_"@ + unique_redis_id@,
{
    let mut key = String::from_str("notif_encryption_config_for_");
    key.append(unique_redis_id);
    key
}

/// The caller's keys agree with a stored cell config when both hex-encoded
/// key strings match the stored ones.
pub open spec fn keys_match(config: CryptoConfig, cell: SecureCellConfig) -> bool {
    &&& hex_key_of(config.secret@) == cell.secret_key@
    &&& hex_key_of(config.passphrase@) == cell.passphrase@
}

/// Checks a consumer's keys against the cached cell config before any
/// broker interaction.  A cache miss is checked against the empty config,
/// so only a caller with empty key material may consume unconfigured.
/// On mismatch the consumer must terminate without touching the broker.
pub fn check_decryption_config(config: &CryptoConfig, cached: Option<SecureCellConfig>) -> (r:
    Result<SecureCellConfig, HoopoeErrorResponse>)
    ensures
        match r {
            Ok(cell) => {
                &&& keys_match(*config, cell)
                &&& match cached {
                    Some(c) => cell == c,
                    None => cell.secret_key@.len() == 0 && cell.passphrase@.len() == 0
                        && cell.data@.len() == 0,
                }
            },
            Err(e) => {
                &&& e.kind == ErrorKind::ConfigMismatch
                &&& match cached {
                    Some(c) => !keys_match(*config, c),
                    None => !(hex_key_of(config.secret@).len() == 0 && hex_key_of(
                        config.passphrase@,
                    ).len() == 0),
                }
            },
        },
{
    let cell = match cached {
        Some(c) => c,
        None => SecureCellConfig::default(),
    };
    let secret_hex = hex_encode_key(config.secret.as_str());
    let passphrase_hex = hex_encode_key(config.passphrase.as_str());
    if secret_hex == cell.secret_key && passphrase_hex == cell.passphrase {
        Ok(cell)
    } else {
        proof {
            if hex_key_of(config.secret@).len() == 0 {
                assert(hex_key_of(config.secret@) =~= cell.secret_key@ || cell.secret_key@.len()
                    != 0);
            }
            if hex_key_of(config.passphrase@).len() == 0 {
                assert(hex_key_of(config.passphrase@) =~= cell.passphrase@ || cell.passphrase@.len()
                    != 0);
            }
        }
        Err(
            HoopoeErrorResponse::new(
                CRYPTER_ERROR_CODE,
                Vec::new(),
                ErrorKind::ConfigMismatch,
                String::from_str("NotifBrokerActor.consume.check_decryption_config"),
            ),
        )
    }
}

} // verus!
