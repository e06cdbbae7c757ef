//! The calls that leave this crate, each with the contract that the rest of
//! the crate relies on. Nothing in this file is proved: every contract here
//! is a statement about code that lives elsewhere.

use chacha20poly1305::aead::{AeadCore, AeadInPlace, KeyInit, OsRng};
use chacha20poly1305::{Key as CipherKey, Tag, XChaCha20Poly1305, XNonce};
use vstd::prelude::*;
use vstd::utf8::{decode_utf8, valid_utf8};
use zeroize::Zeroize;

verus! {

/// Length of a cipher key in bytes.
pub const KEY_LEN: usize = 32;

/// Length of a nonce in bytes.
pub const NONCE_LEN: usize = 24;

/// Length of an authentication tag in bytes.
pub const TAG_LEN: usize = 16;

/// The cipher handles messages shorter than this many bytes. Its keystream
/// has 2^32 blocks of 64 bytes; the first makes the authentication key and
/// the last is never handed out, which leaves 2^32 - 2 blocks, so
/// 274_877_906_816 bytes, for the message.
pub const MESSAGE_LIMIT: u64 = 274_877_906_817;

/// The ciphertext and the tag, in this order, that XChaCha20-Poly1305 gives
/// for a plaintext under a key and a nonce, with no associated data.
pub uninterp spec fn sealed(key: Seq<u8>, nonce: Seq<u8>, plaintext: Seq<u8>) -> (Seq<u8>, Seq<u8>);

/// What XChaCha20-Poly1305 releases for a ciphertext and a tag under a key
/// and a nonce, with no associated data: the plaintext, or nothing where it
/// does not accept them.
pub uninterp spec fn opened(key: Seq<u8>, nonce: Seq<u8>, ciphertext: Seq<u8>, tag: Seq<u8>) -> Option<Seq<u8>>;

/// The 32 bytes that scrypt derives from a secret and a salt at the cost
/// parameters `log_n`, `r` and `p`.
pub uninterp spec fn stretched(secret: Seq<u8>, salt: Seq<u8>, log_n: u8, r: u32, p: u32) -> Seq<u8>;

/// `String::push` appends the character to the end of the string.
pub assume_specification[ String::push ](text: &mut String, c: char)
    ensures
        final(text)@ == old(text)@.push(c),
;

/// Turns bytes into text with `String::from_utf8`, which succeeds exactly
/// on valid UTF-8 and then holds the characters that the bytes encode.
#[verifier::external_body]
pub(crate) fn text_from_utf8(bytes: Vec<u8>) -> (res: Option<String>)
    ensures
        res is Some <==> valid_utf8(bytes@),
        res matches Some(text) ==> text@ == decode_utf8(bytes@),
{
    String::from_utf8(bytes).ok()
}

/// Seals `plaintext` with `XChaCha20Poly1305::encrypt_in_place_detached` and
/// returns the ciphertext and the tag.
///
/// Believed of that function: below `MESSAGE_LIMIT` bytes it passes its own
/// length test and the keystream suffices, so it neither fails nor panics;
/// the ciphertext is as long as the plaintext and the tag has `TAG_LEN`
/// bytes; `decrypt_in_place_detached` gives the plaintext back for this
/// ciphertext and tag; and, since it compares the tag it is given with the
/// one it computes from the ciphertext, it accepts no other tag beside this
/// ciphertext.
#[verifier::external_body]
pub(crate) fn aead_seal(key: &[u8], nonce: &[u8], plaintext: &[u8]) -> (out: (Vec<u8>, Vec<u8>))
    requires
        key@.len() == KEY_LEN,
        nonce@.len() == NONCE_LEN,
        plaintext@.len() < MESSAGE_LIMIT,
    ensures
        (out.0@, out.1@) == sealed(key@, nonce@, plaintext@),
        out.0@.len() == plaintext@.len(),
        out.1@.len() == TAG_LEN,
        opened(key@, nonce@, out.0@, out.1@) == Some(plaintext@),
        forall|tag: Seq<u8>|
            tag.len() == TAG_LEN && tag != out.1@ ==> (#[trigger] opened(
                key@,
                nonce@,
                out.0@,
                tag,
            )) is None,
{
    let cipher = XChaCha20Poly1305::new(CipherKey::from_slice(key));
    let mut buffer = plaintext.to_vec();
    let tag = cipher
        .encrypt_in_place_detached(XNonce::from_slice(nonce), b"", &mut buffer)
        .expect("the message is shorter than the cipher's limit");
    (buffer, tag.to_vec())
}

/// Opens a ciphertext with `XChaCha20Poly1305::decrypt_in_place_detached`,
/// which checks the tag before it decrypts anything. Returns the plaintext,
/// or nothing where that function reports an error. Below `MESSAGE_LIMIT`
/// bytes the keystream suffices for the decryption that follows an accepted
/// tag, so the function does not panic.
#[verifier::external_body]
pub(crate) fn aead_open(key: &[u8], nonce: &[u8], ciphertext: &[u8], tag: &[u8]) -> (out: Option<
    Vec<u8>,
>)
    requires
        key@.len() == KEY_LEN,
        nonce@.len() == NONCE_LEN,
        tag@.len() == TAG_LEN,
        ciphertext@.len() < MESSAGE_LIMIT,
    ensures
        out matches Some(plaintext) ==> opened(key@, nonce@, ciphertext@, tag@) == Some(
            plaintext@,
        ),
        out is None ==> opened(key@, nonce@, ciphertext@, tag@) is None,
{
    let cipher = XChaCha20Poly1305::new(CipherKey::from_slice(key));
    let mut buffer = ciphertext.to_vec();
    match cipher.decrypt_in_place_detached(
        XNonce::from_slice(nonce),
        b"",
        &mut buffer,
        Tag::from_slice(tag),
    ) {
        Ok(()) => Some(buffer),
        Err(_) => None,
    }
}

/// Draws a nonce with `XChaCha20Poly1305::generate_nonce` from the operating
/// system's random source. Nothing is promised of the bytes. Where the
/// system has no randomness to give, that function panics rather than
/// return.
#[verifier::external_body]
pub(crate) fn fresh_nonce() -> (nonce: [u8; NONCE_LEN]) {
    XChaCha20Poly1305::generate_nonce(&mut OsRng).into()
}

/// Derives 32 bytes with `scrypt::scrypt` at the parameters that
/// `scrypt::Params::new` makes of `log_n`, `r` and `p`. Within the bounds
/// required here `Params::new` accepts the parameters, the work area of
/// `128 * r * 2^log_n` bytes is at most 2^30 bytes and so within what a
/// vector holds on 32-bit and 64-bit machines alike, and `scrypt::scrypt`,
/// which refuses only an output of no bytes or of more than 2^37, succeeds.
#[verifier::external_body]
pub(crate) fn scrypt_stretch(secret: &[u8], salt: &[u8], log_n: u8, r: u32, p: u32) -> (key: Vec<u8>)
    requires
        1 <= r <= 32,
        1 <= p <= 64,
        log_n <= 18,
        log_n < 16 * r,
    ensures
        key@ == stretched(secret@, salt@, log_n, r, p),
        key@.len() == KEY_LEN,
{
    let params = scrypt::Params::new(log_n, r, p, 32).expect("the parameters are in bounds");
    let mut key = vec![0u8; 32];
    scrypt::scrypt(secret, salt, &params, &mut key).expect("32 bytes is a valid output length");
    key
}

/// Erases a buffer with `Zeroize::zeroize`, which overwrites every byte with
/// zero and then empties the vector. On a vector that function has no
/// failing path, so it is taken not to unwind.
#[verifier::external_body]
pub(crate) fn wipe(bytes: &mut Vec<u8>)
    ensures
        final(bytes)@.len() == 0,
    opens_invariants none
    no_unwind
{
    bytes.zeroize();
}

} // verus!
