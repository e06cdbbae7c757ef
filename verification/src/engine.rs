//! Authenticated encryption of byte messages under a key.
//!
//! The cipher is XChaCha20-Poly1305. Each encryption draws a fresh random
//! nonce of the cipher's full width. Decryption hands out plaintext only
//! after the cipher has accepted the tag.

use crate::envelope::{Envelope, EnvelopeView};
use crate::error::ErrorKind;
use crate::key::Key;
use crate::trusted::{
    aead_open, aead_seal, fresh_nonce, opened, sealed, KEY_LEN, MESSAGE_LIMIT, NONCE_LEN, TAG_LEN,
};
use vstd::prelude::*;
use vstd::slice::slice_to_vec;

verus! {

/// The envelope that sealing a message under a key and a nonce gives.
pub open spec fn sealed_envelope(key: Seq<u8>, nonce: Seq<u8>, message: Seq<u8>) -> EnvelopeView {
    EnvelopeView {
        nonce,
        tag: sealed(key, nonce, message).1,
        ciphertext: sealed(key, nonce, message).0,
    }
}

/// What decrypting an envelope under a key gives: the message, or the one
/// failure kind that applies. An invalid key is reported before a malformed
/// envelope, and that before a failed authentication. A ciphertext of
/// `MESSAGE_LIMIT` bytes or more, which no encryption produces, fails to
/// authenticate without being handed to the cipher.
pub open spec fn decrypt_outcome(envelope: EnvelopeView, key: Seq<u8>) -> Result<
    Seq<u8>,
    ErrorKind,
> {
    if key.len() != KEY_LEN {
        Err(ErrorKind::KeyInvalid)
    } else if !envelope.is_well_formed() {
        Err(ErrorKind::MalformedEnvelope)
    } else if envelope.ciphertext.len() >= MESSAGE_LIMIT {
        Err(ErrorKind::AuthenticationFailure)
    } else {
        match opened(key, envelope.nonce, envelope.ciphertext, envelope.tag) {
            Some(message) => Ok(message),
            None => Err(ErrorKind::AuthenticationFailure),
        }
    }
}

/// The bytes of a result, where it holds any.
pub open spec fn outcome_of(res: Result<Vec<u8>, ErrorKind>) -> Result<Seq<u8>, ErrorKind> {
    match res {
        Ok(bytes) => Ok(bytes@),
        Err(kind) => Err(kind),
    }
}

/// Whether a byte string is short enough for the cipher to handle.
pub fn is_sealable(message: &[u8]) -> (b: bool)
    ensures
        b == (message@.len() < MESSAGE_LIMIT),
{
    (message.len() as u64) < MESSAGE_LIMIT
}

/// Whatever makes the cipher turn an envelope down (another key, a changed
/// ciphertext, a changed tag), decryption under a valid key reports
/// `AuthenticationFailure` and nothing else, and releases no plaintext. The
/// same holds of a ciphertext too long for the cipher.
pub proof fn lemma_rejection_is_authentication_failure(envelope: EnvelopeView, key: Seq<u8>)
    requires
        key.len() == KEY_LEN,
        envelope.is_well_formed(),
        envelope.ciphertext.len() >= MESSAGE_LIMIT || opened(
            key,
            envelope.nonce,
            envelope.ciphertext,
            envelope.tag,
        ) is None,
    ensures
        decrypt_outcome(envelope, key) == Err::<Seq<u8>, ErrorKind>(
            ErrorKind::AuthenticationFailure,
        ),
{
}

/// Seals a message under a key with the nonce that the caller supplies,
/// which must never have been used with this key before.
///
/// Fails with `KeyInvalid` exactly where the key is not valid. Otherwise
/// the envelope is the one that the cipher determines; decrypting it under
/// the same key gives the message back; and with any other tag in place of
/// its own it fails to authenticate.
pub fn encrypt_with_nonce(message: &[u8], key: &Key, nonce: &[u8; NONCE_LEN]) -> (res: Result<
    Envelope,
    ErrorKind,
>)
    requires
        key.is_valid() ==> message@.len() < MESSAGE_LIMIT,
    ensures
        !key.is_valid() ==> res == Err::<Envelope, ErrorKind>(ErrorKind::KeyInvalid),
        key.is_valid() ==> (res matches Ok(envelope) && envelope@ == sealed_envelope(
            key@,
            nonce@,
            message@,
        )),
        res matches Ok(envelope) ==> envelope@.is_well_formed() && envelope@.ciphertext.len()
            == message@.len(),
        res matches Ok(envelope) ==> decrypt_outcome(envelope@, key@) == Ok::<Seq<u8>, ErrorKind>(
            message@,
        ),
        res matches Ok(envelope) ==> forall|tag: Seq<u8>|
            tag.len() == TAG_LEN && tag != envelope@.tag ==> #[trigger] decrypt_outcome(
                envelope@.with_tag(tag),
                key@,
            ) == Err::<Seq<u8>, ErrorKind>(ErrorKind::AuthenticationFailure),
{
    if key.len() != KEY_LEN {
        return Err(ErrorKind::KeyInvalid);
    }
    let (ciphertext, tag) = aead_seal(key.as_slice(), nonce.as_slice(), message);
    Ok(Envelope { nonce: slice_to_vec(nonce.as_slice()), tag, ciphertext })
}

/// Seals a message under a key with a fresh random nonce.
///
/// Fails with `KeyInvalid` exactly where the key is not valid. Otherwise
/// the envelope is the one that the cipher determines for the nonce it
/// carries; decrypting it under the same key gives the message back; and
/// with any other tag in place of its own it fails to authenticate.
pub fn encrypt(message: &[u8], key: &Key) -> (res: Result<Envelope, ErrorKind>)
    requires
        key.is_valid() ==> message@.len() < MESSAGE_LIMIT,
    ensures
        !key.is_valid() ==> res == Err::<Envelope, ErrorKind>(ErrorKind::KeyInvalid),
        key.is_valid() ==> (res matches Ok(envelope) && envelope@ == sealed_envelope(
            key@,
            envelope@.nonce,
            message@,
        )),
        res matches Ok(envelope) ==> envelope@.is_well_formed() && envelope@.ciphertext.len()
            == message@.len(),
        res matches Ok(envelope) ==> decrypt_outcome(envelope@, key@) == Ok::<Seq<u8>, ErrorKind>(
            message@,
        ),
        res matches Ok(envelope) ==> forall|tag: Seq<u8>|
            tag.len() == TAG_LEN && tag != envelope@.tag ==> #[trigger] decrypt_outcome(
                envelope@.with_tag(tag),
                key@,
            ) == Err::<Seq<u8>, ErrorKind>(ErrorKind::AuthenticationFailure),
{
    if key.len() != KEY_LEN {
        return Err(ErrorKind::KeyInvalid);
    }
    let nonce = fresh_nonce();
    encrypt_with_nonce(message, key, &nonce)
}

/// Opens an envelope under a key. The result is `decrypt_outcome` of the
/// two: plaintext leaves this function only where the cipher has accepted
/// the tag. Every envelope and every key is taken; none makes the function
/// panic.
pub fn decrypt(envelope: &Envelope, key: &Key) -> (res: Result<Vec<u8>, ErrorKind>)
    ensures
        outcome_of(res) == decrypt_outcome(envelope@, key@),
{
    if key.len() != KEY_LEN {
        return Err(ErrorKind::KeyInvalid);
    }
    if envelope.nonce.len() != NONCE_LEN || envelope.tag.len() != TAG_LEN {
        return Err(ErrorKind::MalformedEnvelope);
    }
    if !is_sealable(envelope.ciphertext.as_slice()) {
        return Err(ErrorKind::AuthenticationFailure);
    }
    match aead_open(
        key.as_slice(),
        envelope.nonce.as_slice(),
        envelope.ciphertext.as_slice(),
        envelope.tag.as_slice(),
    ) {
        Some(message) => Ok(message),
        None => Err(ErrorKind::AuthenticationFailure),
    }
}

} // verus!
