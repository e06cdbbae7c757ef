use chacha20poly1305::aead::rand_core::RngCore;
use chacha20poly1305::aead::{Aead, KeyInit, OsRng};
use chacha20poly1305::{XChaCha20Poly1305, XNonce};
use liberty_reach::engine::{decrypt, encrypt, encrypt_with_nonce, is_sealable};
use liberty_reach::envelope::Envelope;
use liberty_reach::error::ErrorKind;
use liberty_reach::key::Key;
use liberty_reach::trusted::MESSAGE_LIMIT;
use std::collections::HashSet;

fn key_of(byte: u8) -> Key {
    Key::from_bytes(vec![byte; 32])
}

fn random_bytes(len: usize) -> Vec<u8> {
    let mut bytes = vec![0u8; len];
    OsRng.fill_bytes(&mut bytes);
    bytes
}

#[test]
fn decrypt_gives_back_what_encrypt_sealed() {
    let key = key_of(0x42);
    let message = b"meet me at the usual place".to_vec();
    let envelope = encrypt(&message, &key).expect("the key is valid");
    assert_eq!(decrypt(&envelope, &key), Ok(message));
}

#[test]
fn the_empty_message_makes_the_round_trip() {
    let key = key_of(0x42);
    let envelope = encrypt(b"", &key).expect("the key is valid");
    assert!(envelope.ciphertext.is_empty());
    assert_eq!(decrypt(&envelope, &key), Ok(Vec::new()));
}

#[test]
fn an_envelope_has_fixed_width_nonce_and_tag_and_a_ciphertext_as_long_as_the_message() {
    let key = key_of(1);
    let message = vec![9u8; 1000];
    let envelope = encrypt(&message, &key).expect("the key is valid");
    assert_eq!(envelope.nonce.len(), 24);
    assert_eq!(envelope.tag.len(), 16);
    assert_eq!(envelope.ciphertext.len(), 1000);
    assert_ne!(envelope.ciphertext, message);
}

#[test]
fn encrypt_with_nonce_agrees_with_the_cipher() {
    let key_bytes: Vec<u8> = (0x80..0xa0u8).collect();
    let nonce: [u8; 24] = [
        0x40, 0x41, 0x42, 0x43, 0x44, 0x45, 0x46, 0x47, 0x48, 0x49, 0x4a, 0x4b, 0x4c, 0x4d, 0x4e,
        0x4f, 0x50, 0x51, 0x52, 0x53, 0x54, 0x55, 0x56, 0x57,
    ];
    let message = b"Ladies and Gentlemen of the class of '99".to_vec();
    let cipher = XChaCha20Poly1305::new_from_slice(&key_bytes).expect("32 bytes");
    let expected = cipher.encrypt(XNonce::from_slice(&nonce), &message[..]).expect("short");
    let envelope = encrypt_with_nonce(&message, &Key::from_bytes(key_bytes), &nonce)
        .expect("the key is valid");
    assert_eq!(envelope.nonce, nonce.to_vec());
    assert_eq!(envelope.ciphertext, expected[..message.len()].to_vec());
    assert_eq!(envelope.tag, expected[message.len()..].to_vec());
}

#[test]
fn encrypt_with_nonce_is_a_function_of_its_arguments() {
    let nonce = [5u8; 24];
    let first = encrypt_with_nonce(b"same", &key_of(3), &nonce);
    let second = encrypt_with_nonce(b"same", &key_of(3), &nonce);
    assert_eq!(first, second);
    assert_ne!(first, encrypt_with_nonce(b"same", &key_of(3), &[6u8; 24]));
    assert_ne!(first, encrypt_with_nonce(b"same", &key_of(4), &nonce));
    assert_ne!(first, encrypt_with_nonce(b"some", &key_of(3), &nonce));
}

#[test]
fn decrypt_opens_what_the_cipher_sealed() {
    let key_bytes = vec![0x11u8; 32];
    let nonce = [0x22u8; 24];
    let message = b"sealed elsewhere".to_vec();
    let cipher = XChaCha20Poly1305::new_from_slice(&key_bytes).expect("32 bytes");
    let sealed = cipher.encrypt(XNonce::from_slice(&nonce), &message[..]).expect("short");
    let envelope = Envelope {
        nonce: nonce.to_vec(),
        tag: sealed[message.len()..].to_vec(),
        ciphertext: sealed[..message.len()].to_vec(),
    };
    assert_eq!(decrypt(&envelope, &Key::from_bytes(key_bytes)), Ok(message));
}

#[test]
fn another_key_fails_to_authenticate() {
    let envelope = encrypt(b"for your eyes only", &key_of(1)).expect("the key is valid");
    assert_eq!(decrypt(&envelope, &key_of(2)), Err(ErrorKind::AuthenticationFailure));
}

#[test]
fn flipping_any_bit_of_the_tag_fails_to_authenticate() {
    let key = key_of(7);
    let envelope = encrypt(b"sixteen byte msg", &key).expect("the key is valid");
    for byte in 0..envelope.tag.len() {
        for bit in 0..8 {
            let mut tampered = envelope.clone();
            tampered.tag[byte] ^= 1 << bit;
            assert_eq!(decrypt(&tampered, &key), Err(ErrorKind::AuthenticationFailure));
        }
    }
}

#[test]
fn flipping_any_bit_of_the_ciphertext_fails_to_authenticate() {
    let key = key_of(7);
    let envelope = encrypt(b"sixteen byte msg", &key).expect("the key is valid");
    for byte in 0..envelope.ciphertext.len() {
        for bit in 0..8 {
            let mut tampered = envelope.clone();
            tampered.ciphertext[byte] ^= 1 << bit;
            assert_eq!(decrypt(&tampered, &key), Err(ErrorKind::AuthenticationFailure));
        }
    }
}

#[test]
fn flipping_any_bit_of_the_nonce_fails_to_authenticate() {
    let key = key_of(7);
    let envelope = encrypt(b"sixteen byte msg", &key).expect("the key is valid");
    for byte in 0..envelope.nonce.len() {
        for bit in 0..8 {
            let mut tampered = envelope.clone();
            tampered.nonce[byte] ^= 1 << bit;
            assert_eq!(decrypt(&tampered, &key), Err(ErrorKind::AuthenticationFailure));
        }
    }
}

#[test]
fn a_shortened_or_lengthened_ciphertext_fails_to_authenticate() {
    let key = key_of(7);
    let envelope = encrypt(b"sixteen byte msg", &key).expect("the key is valid");
    let mut shorter = envelope.clone();
    shorter.ciphertext.pop();
    assert_eq!(decrypt(&shorter, &key), Err(ErrorKind::AuthenticationFailure));
    let mut longer = envelope.clone();
    longer.ciphertext.push(0);
    assert_eq!(decrypt(&longer, &key), Err(ErrorKind::AuthenticationFailure));
}

#[test]
fn a_thousand_encryptions_draw_a_thousand_nonces() {
    let key = key_of(9);
    let mut nonces = HashSet::new();
    for _ in 0..1000 {
        let envelope = encrypt(b"again and again", &key).expect("the key is valid");
        assert!(nonces.insert(envelope.nonce));
    }
    assert_eq!(nonces.len(), 1000);
}

#[test]
fn encrypt_refuses_a_key_of_another_length() {
    assert_eq!(encrypt(b"m", &Key::from_bytes(vec![1u8; 31])), Err(ErrorKind::KeyInvalid));
    assert_eq!(encrypt(b"m", &Key::from_bytes(vec![1u8; 33])), Err(ErrorKind::KeyInvalid));
    assert_eq!(encrypt(b"m", &Key::from_bytes(Vec::new())), Err(ErrorKind::KeyInvalid));
    assert_eq!(
        encrypt_with_nonce(b"m", &Key::from_bytes(vec![1u8; 16]), &[0u8; 24]),
        Err(ErrorKind::KeyInvalid)
    );
}

#[test]
fn decrypt_refuses_a_key_of_another_length() {
    let envelope = encrypt(b"m", &key_of(1)).expect("the key is valid");
    assert_eq!(decrypt(&envelope, &Key::from_bytes(vec![1u8; 31])), Err(ErrorKind::KeyInvalid));
}

#[test]
fn decrypt_reports_an_invalid_key_before_a_malformed_envelope() {
    let envelope = Envelope { nonce: vec![0u8; 3], tag: vec![0u8; 3], ciphertext: Vec::new() };
    assert_eq!(decrypt(&envelope, &Key::from_bytes(vec![1u8; 5])), Err(ErrorKind::KeyInvalid));
}

#[test]
fn decrypt_refuses_a_nonce_or_tag_of_another_width() {
    let key = key_of(1);
    let envelope = encrypt(b"m", &key).expect("the key is valid");
    let mut short_nonce = envelope.clone();
    short_nonce.nonce.pop();
    assert_eq!(decrypt(&short_nonce, &key), Err(ErrorKind::MalformedEnvelope));
    let mut long_nonce = envelope.clone();
    long_nonce.nonce.push(0);
    assert_eq!(decrypt(&long_nonce, &key), Err(ErrorKind::MalformedEnvelope));
    let mut short_tag = envelope.clone();
    short_tag.tag.pop();
    assert_eq!(decrypt(&short_tag, &key), Err(ErrorKind::MalformedEnvelope));
    let mut long_tag = envelope.clone();
    long_tag.tag.push(0);
    assert_eq!(decrypt(&long_tag, &key), Err(ErrorKind::MalformedEnvelope));
}

#[test]
fn a_key_knows_its_length() {
    assert_eq!(Key::from_bytes(vec![0u8; 32]).len(), 32);
    assert_eq!(Key::from_bytes(vec![0u8; 5]).len(), 5);
    assert_eq!(Key::from_bytes(Vec::new()).len(), 0);
}

#[test]
fn ordinary_messages_are_sealable() {
    assert!(is_sealable(b""));
    assert!(is_sealable(&vec![0u8; 1 << 20]));
}

#[test]
fn a_hundred_pairs_with_their_own_keys_do_not_mix() {
    let mut pairs = Vec::new();
    for i in 0..100usize {
        let key_bytes = random_bytes(32);
        let message = random_bytes(1 + i);
        let envelope =
            encrypt(&message, &Key::from_bytes(key_bytes.clone())).expect("the key is valid");
        pairs.push((key_bytes, message, envelope));
    }
    for (key_bytes, message, envelope) in pairs.iter().rev() {
        assert_eq!(decrypt(envelope, &Key::from_bytes(key_bytes.clone())), Ok(message.clone()));
    }
    for i in 0..100usize {
        let (other_key, _, _) = &pairs[(i + 1) % 100];
        let (_, _, envelope) = &pairs[i];
        assert_eq!(
            decrypt(envelope, &Key::from_bytes(other_key.clone())),
            Err(ErrorKind::AuthenticationFailure)
        );
    }
}

#[test]
fn an_erased_key_holds_nothing_and_is_refused() {
    let mut key = key_of(0x42);
    let envelope = encrypt(b"m", &key).expect("the key is valid");
    key.erase();
    assert_eq!(key.len(), 0);
    assert_eq!(encrypt(b"m", &key), Err(ErrorKind::KeyInvalid));
    assert_eq!(decrypt(&envelope, &key), Err(ErrorKind::KeyInvalid));
}

#[test]
fn the_cipher_handles_what_its_keystream_covers() {
    assert_eq!(MESSAGE_LIMIT, 64 * ((1u64 << 32) - 2) + 1);
    assert_eq!(MESSAGE_LIMIT, 274_877_906_817);
}

#[test]
fn an_invalid_key_is_refused_whatever_the_message() {
    let long = vec![0u8; 1 << 16];
    assert_eq!(encrypt(&long, &Key::from_bytes(vec![1u8; 8])), Err(ErrorKind::KeyInvalid));
    assert_eq!(encrypt(b"", &Key::from_bytes(vec![1u8; 8])), Err(ErrorKind::KeyInvalid));
}

#[test]
fn distinct_nonces_give_distinct_envelopes() {
    let key = key_of(5);
    let first = encrypt_with_nonce(b"same", &key, &[1u8; 24]).expect("the key is valid");
    let second = encrypt_with_nonce(b"same", &key, &[2u8; 24]).expect("the key is valid");
    assert_ne!(first.nonce, second.nonce);
    assert_ne!(first.to_bytes(), second.to_bytes());
}
