//! The envelope: what one encryption hands to the outside world, and its
//! layout on the wire.
//!
//! On the wire an envelope is the nonce, then the tag, then the ciphertext.
//! The first two have a fixed width, so the ciphertext is whatever follows
//! them.

use crate::error::ErrorKind;
use crate::trusted::{NONCE_LEN, TAG_LEN};
use vstd::prelude::*;
use vstd::slice::slice_subrange;
use vstd::slice::slice_to_vec;

verus! {

/// Number of bytes on the wire before the ciphertext begins.
pub const HEADER_LEN: usize = NONCE_LEN + TAG_LEN;

/// A sealed message. It carries no key material and means something only
/// together with the key that sealed it.
#[derive(Clone, Debug, PartialEq, Eq)]
pub struct Envelope {
    /// The nonce that this one encryption ran with.
    pub nonce: Vec<u8>,
    /// The authentication tag over the ciphertext.
    pub tag: Vec<u8>,
    /// The encrypted message, as long as the message itself.
    pub ciphertext: Vec<u8>,
}

/// An envelope as three byte strings.
pub struct EnvelopeView {
    pub nonce: Seq<u8>,
    pub tag: Seq<u8>,
    pub ciphertext: Seq<u8>,
}

impl EnvelopeView {
    /// An envelope is well formed when nonce and tag have their fixed
    /// widths.
    pub open spec fn is_well_formed(self) -> bool {
        self.nonce.len() == NONCE_LEN && self.tag.len() == TAG_LEN
    }

    /// The same envelope with another tag in place of its own.
    pub open spec fn with_tag(self, tag: Seq<u8>) -> EnvelopeView {
        EnvelopeView { nonce: self.nonce, tag, ciphertext: self.ciphertext }
    }

    /// The bytes of the envelope on the wire.
    pub open spec fn wire(self) -> Seq<u8> {
        self.nonce + self.tag + self.ciphertext
    }
}

impl View for Envelope {
    type V = EnvelopeView;

    open spec fn view(&self) -> EnvelopeView {
        EnvelopeView { nonce: self.nonce@, tag: self.tag@, ciphertext: self.ciphertext@ }
    }
}

/// The envelope that a byte string holds, or nothing where the string is
/// too short for a nonce and a tag.
pub open spec fn parsed(bytes: Seq<u8>) -> Option<EnvelopeView> {
    if bytes.len() < HEADER_LEN {
        None
    } else {
        Some(
            EnvelopeView {
                nonce: bytes.subrange(0, NONCE_LEN as int),
                tag: bytes.subrange(NONCE_LEN as int, HEADER_LEN as int),
                ciphertext: bytes.subrange(HEADER_LEN as int, bytes.len() as int),
            },
        )
    }
}

/// Parsing the wire form of a well-formed envelope gives the envelope back.
pub proof fn lemma_wire_round_trip(envelope: EnvelopeView)
    requires
        envelope.is_well_formed(),
    ensures
        parsed(envelope.wire()) == Some(envelope),
{
    let got = parsed(envelope.wire()).unwrap();
    assert(got.nonce =~= envelope.nonce);
    assert(got.tag =~= envelope.tag);
    assert(got.ciphertext =~= envelope.ciphertext);
}

/// What parsing yields is well formed, and its wire form is the byte string
/// that was parsed: no two byte strings hold the same envelope.
pub proof fn lemma_parsed_is_exact(bytes: Seq<u8>)
    requires
        parsed(bytes) is Some,
    ensures
        parsed(bytes).unwrap().is_well_formed(),
        parsed(bytes).unwrap().wire() == bytes,
{
    assert(parsed(bytes).unwrap().wire() =~= bytes);
}

/// Envelopes with different nonces of full width differ on the wire.
pub proof fn lemma_wire_tells_nonces_apart(a: EnvelopeView, b: EnvelopeView)
    requires
        a.nonce.len() == NONCE_LEN,
        b.nonce.len() == NONCE_LEN,
        a.nonce != b.nonce,
    ensures
        a.wire() != b.wire(),
{
    assert(a.wire().subrange(0, NONCE_LEN as int) =~= a.nonce);
    assert(b.wire().subrange(0, NONCE_LEN as int) =~= b.nonce);
}

impl Envelope {
    /// Lays the envelope out for the wire.
    pub fn to_bytes(&self) -> (bytes: Vec<u8>)
        ensures
            bytes@ == self@.wire(),
    {
        let mut bytes = slice_to_vec(self.nonce.as_slice());
        bytes.extend_from_slice(self.tag.as_slice());
        bytes.extend_from_slice(self.ciphertext.as_slice());
        bytes
    }

    /// Splits wire bytes into nonce, tag and ciphertext. Fails with
    /// `MalformedEnvelope` exactly where the bytes are too few to hold a
    /// nonce and a tag.
    pub fn from_bytes(bytes: &[u8]) -> (res: Result<Envelope, ErrorKind>)
        ensures
            parsed(bytes@) is None ==> res == Err::<Envelope, ErrorKind>(
                ErrorKind::MalformedEnvelope,
            ),
            parsed(bytes@) is Some ==> (res matches Ok(envelope) && envelope@ == parsed(
                bytes@,
            ).unwrap()),
    {
        if bytes.len() < HEADER_LEN {
            return Err(ErrorKind::MalformedEnvelope);
        }
        let nonce = slice_to_vec(slice_subrange(bytes, 0, NONCE_LEN));
        let tag = slice_to_vec(slice_subrange(bytes, NONCE_LEN, HEADER_LEN));
        let ciphertext = slice_to_vec(slice_subrange(bytes, HEADER_LEN, bytes.len()));
        Ok(Envelope { nonce, tag, ciphertext })
    }
}

} // verus!
