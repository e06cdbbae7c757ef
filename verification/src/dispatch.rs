//! The commands that the user interface calls: text in, text out, failures
//! as text.
//!
//! A message travels as the UTF-8 bytes of its text. Key material is the
//! UTF-8 bytes of a passphrase, from which every call derives its key anew
//! with the default salt. An envelope travels as the hexadecimal text of its
//! wire form.

use crate::encoding::{
    decode, encode, hex_bytes, hex_text, lemma_hex_round_trip, lemma_hex_text_is_injective,
};
use crate::engine::{decrypt, decrypt_outcome, encrypt, sealed_envelope};
use crate::envelope::{
    lemma_wire_round_trip, lemma_wire_tells_nonces_apart, parsed, Envelope, EnvelopeView,
};
use crate::error::ErrorKind;
use crate::key::{derived, DEFAULT_SALT};
use crate::trusted::{text_from_utf8, MESSAGE_LIMIT, NONCE_LEN, TAG_LEN};
use vstd::prelude::*;
use vstd::string::*;
use vstd::utf8::{decode_utf8, encode_utf8, valid_utf8};

verus! {

/// The key bytes that the commands derive from their key material.
pub open spec fn command_key(key_material: Seq<char>) -> Seq<u8> {
    derived(encode_utf8(key_material), DEFAULT_SALT@)
}

/// The envelope that a text holds: the one parsed from the bytes that the
/// text stands for. A text that is not hexadecimal, or too short for a
/// nonce and a tag, holds none.
pub open spec fn envelope_in(text: Seq<char>) -> Option<EnvelopeView> {
    match hex_bytes(text) {
        None => None,
        Some(wire) => parsed(wire),
    }
}

/// A decrypted message as text: the characters that its bytes encode. An
/// authentic message that is not UTF-8 counts as a malformed envelope.
pub open spec fn as_text(outcome: Result<Seq<u8>, ErrorKind>) -> Result<Seq<char>, ErrorKind> {
    match outcome {
        Err(kind) => Err(kind),
        Ok(plain) => if valid_utf8(plain) {
            Ok(decode_utf8(plain))
        } else {
            Err(ErrorKind::MalformedEnvelope)
        },
    }
}

/// What `decrypt_message` makes of an envelope text and key material: the
/// message text, or the one failure kind that applies. Empty key material
/// is reported first, then a text that holds no envelope, then what
/// decrypting the envelope under the derived key gives.
pub open spec fn decrypt_message_outcome(ciphertext: Seq<char>, key_material: Seq<char>) -> Result<
    Seq<char>,
    ErrorKind,
> {
    if key_material.len() == 0 {
        Err(ErrorKind::EmptySecret)
    } else {
        match envelope_in(ciphertext) {
            None => Err(ErrorKind::MalformedEnvelope),
            Some(envelope) => as_text(decrypt_outcome(envelope, command_key(key_material))),
        }
    }
}

/// What the boundary shows for an outcome: the text itself, or the text
/// that stands for the failure kind.
pub open spec fn shown(outcome: Result<Seq<char>, ErrorKind>) -> Result<Seq<char>, Seq<char>> {
    match outcome {
        Ok(text) => Ok(text),
        Err(kind) => Err(kind.text()),
    }
}

/// The characters of a command's result.
pub open spec fn reply_of(res: Result<String, String>) -> Result<Seq<char>, Seq<char>> {
    match res {
        Ok(text) => Ok(text@),
        Err(text) => Err(text@),
    }
}

/// Text that is not empty has UTF-8 bytes.
proof fn lemma_text_has_bytes(text: Seq<char>)
    requires
        text.len() > 0,
    ensures
        encode_utf8(text).len() > 0,
{
}

/// Framing and text encoding lose nothing: the hexadecimal text of a
/// well-formed envelope holds that envelope, so it is read as the envelope
/// itself decrypts.
pub proof fn lemma_envelope_text_reads_back(envelope: EnvelopeView, key_material: Seq<char>)
    requires
        key_material.len() > 0,
        envelope.is_well_formed(),
    ensures
        envelope_in(hex_text(envelope.wire())) == Some(envelope),
        decrypt_message_outcome(hex_text(envelope.wire()), key_material) == as_text(
            decrypt_outcome(envelope, command_key(key_material)),
        ),
{
    lemma_hex_round_trip(envelope.wire());
    lemma_wire_round_trip(envelope);
}

/// Two encryptions of one message under one key whose nonces differ give
/// different texts.
pub proof fn lemma_distinct_nonces_give_distinct_texts(
    key: Seq<u8>,
    message: Seq<u8>,
    first: Seq<u8>,
    second: Seq<u8>,
)
    requires
        first.len() == NONCE_LEN,
        second.len() == NONCE_LEN,
        first != second,
    ensures
        hex_text(sealed_envelope(key, first, message).wire()) != hex_text(
            sealed_envelope(key, second, message).wire(),
        ),
{
    let a = sealed_envelope(key, first, message);
    let b = sealed_envelope(key, second, message);
    lemma_wire_tells_nonces_apart(a, b);
    if hex_text(a.wire()) == hex_text(b.wire()) {
        lemma_hex_text_is_injective(a.wire(), b.wire());
    }
}

/// Encrypts a message for the boundary.
///
/// Fails, with the text for `EmptySecret`, exactly where the key material
/// is empty. Otherwise the result is the hexadecimal wire form of an
/// envelope: the one that the cipher determines for the derived key, the
/// message bytes and the nonce it carries, with a ciphertext as long as the
/// message. `decrypt_message` with the same key material turns the text
/// back into the message, and fails to authenticate the text of the same
/// envelope with any other tag.
pub fn encrypt_message(message: String, key: String) -> (res: Result<String, String>)
    requires
        key@.len() > 0 ==> encode_utf8(message@).len() < MESSAGE_LIMIT,
    ensures
        key@.len() == 0 ==> reply_of(res) == Err::<Seq<char>, Seq<char>>(
            ErrorKind::EmptySecret.text(),
        ),
        key@.len() > 0 ==> res is Ok,
        res matches Ok(text) ==> envelope_in(text@) matches Some(envelope) && {
            &&& text@ == hex_text(envelope.wire())
            &&& envelope.is_well_formed()
            &&& envelope == sealed_envelope(
                command_key(key@),
                envelope.nonce,
                encode_utf8(message@),
            )
            &&& envelope.ciphertext.len() == encode_utf8(message@).len()
            &&& forall|tag: Seq<u8>|
                tag.len() == TAG_LEN && tag != envelope.tag ==> decrypt_message_outcome(
                    hex_text(#[trigger] envelope.with_tag(tag).wire()),
                    key@,
                ) == Err::<Seq<char>, ErrorKind>(ErrorKind::AuthenticationFailure)
        },
        res matches Ok(text) ==> decrypt_message_outcome(text@, key@) == Ok::<
            Seq<char>,
            ErrorKind,
        >(message@),
{
    if key.as_str().is_empty() {
        return Err(ErrorKind::EmptySecret.message());
    }
    proof {
        lemma_text_has_bytes(key@);
    }
    let derived_key = match crate::key::derive(key.as_str().as_bytes(), None) {
        Ok(k) => k,
        Err(kind) => {
            return Err(kind.message());
        },
    };
    let envelope = match encrypt(message.as_str().as_bytes(), &derived_key) {
        Ok(e) => e,
        Err(kind) => {
            return Err(kind.message());
        },
    };
    let wire = envelope.to_bytes();
    let text = encode(wire.as_slice());
    proof {
        lemma_envelope_text_reads_back(envelope@, key@);
        vstd::utf8::encode_utf8_valid_utf8(message@);
        vstd::utf8::encode_utf8_decode_utf8(message@);
        assert forall|tag: Seq<u8>| tag.len() == TAG_LEN && tag != envelope@.tag implies
            decrypt_message_outcome(hex_text(#[trigger] envelope@.with_tag(tag).wire()), key@)
            == Err::<Seq<char>, ErrorKind>(ErrorKind::AuthenticationFailure) by {
            lemma_envelope_text_reads_back(envelope@.with_tag(tag), key@);
        }
    }
    Ok(text)
}

/// Decrypts an envelope text for the boundary. The result shows
/// `decrypt_message_outcome` of the two arguments.
pub fn decrypt_message(ciphertext: String, key: String) -> (res: Result<String, String>)
    ensures
        reply_of(res) == shown(decrypt_message_outcome(ciphertext@, key@)),
{
    if key.as_str().is_empty() {
        return Err(ErrorKind::EmptySecret.message());
    }
    proof {
        lemma_text_has_bytes(key@);
    }
    let wire = match decode(ciphertext.as_str()) {
        Some(bytes) => bytes,
        None => {
            return Err(ErrorKind::MalformedEnvelope.message());
        },
    };
    let envelope = match Envelope::from_bytes(wire.as_slice()) {
        Ok(e) => e,
        Err(kind) => {
            return Err(kind.message());
        },
    };
    let derived_key = match crate::key::derive(key.as_str().as_bytes(), None) {
        Ok(k) => k,
        Err(kind) => {
            return Err(kind.message());
        },
    };
    let plain = match decrypt(&envelope, &derived_key) {
        Ok(bytes) => bytes,
        Err(kind) => {
            return Err(kind.message());
        },
    };
    match text_from_utf8(plain) {
        Some(text) => Ok(text),
        None => Err(ErrorKind::MalformedEnvelope.message()),
    }
}

/// Greets a user by name.
pub fn greet(name: &str) -> (res: String)
    ensures
        res@ == "Hello, "@ + name@ + "! Welcome to Liberty Reach!"@,
{
    let mut text = "Hello, ".to_owned();
    text.append(name);
    text.append("! Welcome to Liberty Reach!");
    text
}

} // verus!
