//! Failure kinds and the texts that stand for them at the command boundary.

use vstd::prelude::*;

verus! {

/// Every way in which an operation of this crate can fail.
#[derive(Clone, Copy, Debug, PartialEq, Eq, Structural)]
pub enum ErrorKind {
    /// A key was to be derived from a secret of length zero.
    EmptySecret,
    /// A key does not have the length that the cipher asks for.
    KeyInvalid,
    /// An envelope does not split into nonce, tag and ciphertext.
    MalformedEnvelope,
    /// The cipher did not accept the envelope under the given key. The cause
    /// (another key, a changed ciphertext, a changed tag) is never reported.
    AuthenticationFailure,
    /// The window that an action was meant for does not exist.
    WindowNotFound,
}

impl ErrorKind {
    /// The text that the command boundary shows for this kind. It depends on
    /// the kind alone, so it cannot carry key material or plaintext.
    pub open spec fn text(self) -> Seq<char> {
        match self {
            ErrorKind::EmptySecret => "the secret must not be empty"@,
            ErrorKind::KeyInvalid => "the key has the wrong length"@,
            ErrorKind::MalformedEnvelope => "the envelope is malformed"@,
            ErrorKind::AuthenticationFailure => "the envelope could not be authenticated"@,
            ErrorKind::WindowNotFound => "the window does not exist"@,
        }
    }

    /// Returns the boundary text of this kind.
    pub fn message(&self) -> (res: String)
        ensures
            res@ == self.text(),
            res@.len() > 0,
    {
        proof {
            lemma_text_is_not_empty(*self);
        }
        match self {
            ErrorKind::EmptySecret => "the secret must not be empty".to_owned(),
            ErrorKind::KeyInvalid => "the key has the wrong length".to_owned(),
            ErrorKind::MalformedEnvelope => "the envelope is malformed".to_owned(),
            ErrorKind::AuthenticationFailure => "the envelope could not be authenticated".to_owned(),
            ErrorKind::WindowNotFound => "the window does not exist".to_owned(),
        }
    }
}

/// No failure kind has an empty boundary text.
pub proof fn lemma_text_is_not_empty(kind: ErrorKind)
    ensures
        kind.text().len() > 0,
{
    reveal_strlit("the secret must not be empty");
    reveal_strlit("the key has the wrong length");
    reveal_strlit("the envelope is malformed");
    reveal_strlit("the envelope could not be authenticated");
    reveal_strlit("the window does not exist");
}

} // verus!
