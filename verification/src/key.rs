//! Keys and their derivation from a user's secret.

use crate::error::ErrorKind;
use crate::trusted::{scrypt_stretch, stretched, wipe, KEY_LEN};
use vstd::prelude::*;

verus! {

/// The salt that `derive` uses where the caller supplies none. A fixed salt
/// is acceptable only for keys that stay on one device.
pub const DEFAULT_SALT: [u8; 16] = [
    0x6c, 0x69, 0x62, 0x65, 0x72, 0x74, 0x79, 0x2d, 0x72, 0x65, 0x61, 0x63, 0x68, 0x2d, 0x76, 0x31,
];

/// Base-2 logarithm of scrypt's work factor N: 2^14 blocks, which with
/// `SCRYPT_R` makes 16 MiB of memory for each derivation.
pub const SCRYPT_LOG_N: u8 = 14;

/// scrypt's block size parameter r.
pub const SCRYPT_R: u32 = 8;

/// scrypt's parallelism parameter p.
pub const SCRYPT_P: u32 = 1;

/// A symmetric key. The bytes are erased when the key is dropped.
pub struct Key {
    bytes: Vec<u8>,
}

impl View for Key {
    type V = Seq<u8>;

    closed spec fn view(&self) -> Seq<u8> {
        self.bytes@
    }
}

impl Key {
    /// A key is usable by the cipher when it has exactly `KEY_LEN` bytes.
    pub open spec fn is_valid(&self) -> bool {
        self@.len() == KEY_LEN
    }

    /// Takes ownership of key bytes supplied by the caller, of any length.
    pub fn from_bytes(bytes: Vec<u8>) -> (key: Key)
        ensures
            key@ == bytes@,
    {
        Key { bytes }
    }

    /// Lends the key bytes to the rest of the crate.
    pub(crate) fn as_slice(&self) -> (bytes: &[u8])
        ensures
            bytes@ == self@,
    {
        self.bytes.as_slice()
    }

    /// Erases the key bytes now, without waiting for the key to be dropped.
    /// What is left is a key of no bytes, which the cipher refuses.
    pub fn erase(&mut self)
        ensures
            final(self)@.len() == 0,
            !final(self).is_valid(),
    {
        wipe(&mut self.bytes);
    }

    /// The number of bytes in the key.
    pub fn len(&self) -> (n: usize)
        ensures
            n == self@.len(),
    {
        self.bytes.len()
    }
}

/// The salt that a derivation runs with: the caller's, or `DEFAULT_SALT`
/// where there is none.
pub open spec fn effective_salt(salt: Option<&[u8]>) -> Seq<u8> {
    match salt {
        Some(bytes) => bytes@,
        None => DEFAULT_SALT@,
    }
}

/// The key bytes that belong to a non-empty secret and a salt.
pub open spec fn derived(secret: Seq<u8>, salt: Seq<u8>) -> Seq<u8> {
    stretched(secret, salt, SCRYPT_LOG_N, SCRYPT_R, SCRYPT_P)
}

/// Derives a key from a secret with scrypt, a deliberately slow and
/// memory-hard function. The result depends on the secret and the salt
/// alone. An empty secret is the only input that is refused.
///
/// Different secrets can derive one key. scrypt hands the secret to
/// HMAC-SHA-256 as its key, which pads a short key with zero bytes and
/// replaces one of more than 64 bytes by its digest: a secret of up to 63
/// bytes derives the same key with a zero byte appended.
pub fn derive(secret: &[u8], salt: Option<&[u8]>) -> (res: Result<Key, ErrorKind>)
    ensures
        secret@.len() == 0 ==> (res matches Err(kind) && kind == ErrorKind::EmptySecret),
        secret@.len() > 0 ==> (res matches Ok(key) && key.is_valid() && key@ == derived(
            secret@,
            effective_salt(salt),
        )),
{
    if secret.len() == 0 {
        return Err(ErrorKind::EmptySecret);
    }
    let bytes = match salt {
        Some(given) => scrypt_stretch(secret, given, SCRYPT_LOG_N, SCRYPT_R, SCRYPT_P),
        None => scrypt_stretch(
            secret,
            DEFAULT_SALT.as_slice(),
            SCRYPT_LOG_N,
            SCRYPT_R,
            SCRYPT_P,
        ),
    };
    Ok(Key { bytes })
}

impl Drop for Key {
    fn drop(&mut self)
        opens_invariants none
        no_unwind
    {
        wipe(&mut self.bytes);
    }
}

} // verus!
