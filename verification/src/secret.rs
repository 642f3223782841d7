//! A container for sensitive text that is wiped from memory when released.

use vstd::prelude::*;

verus! {

/// Sensitive text. The backing memory is overwritten with zeros when the
/// value is dropped, so cleartext never lingers in freed memory.
///
/// Every piece of user data in this crate (values, labels, titles) is held in
/// one of these.
#[derive(Debug, PartialEq)]
pub struct SecretValue {
    text: String,
}

impl View for SecretValue {
    type V = Seq<char>;

    closed spec fn view(&self) -> Seq<char> {
        self.text@
    }
}

impl Drop for SecretValue {
    /// Trusted: calls `zeroize::Zeroize::zeroize` on the backing `String`,
    /// which overwrites its bytes with zeros and truncates it. Nothing is
    /// claimed of the value afterwards, since it is gone.
    #[verifier::external_body]
    fn drop(&mut self)
        opens_invariants none
        no_unwind
    {
        zeroize::Zeroize::zeroize(&mut self.text);
    }
}

impl Clone for SecretValue {
    fn clone(&self) -> (copy: Self)
        ensures
            copy@ == self@,
    {
        SecretValue { text: self.text.clone() }
    }
}

impl SecretValue {
    /// Takes ownership of `secret`; from here on it is wiped on release.
    pub fn new(secret: String) -> (sealed: SecretValue)
        ensures
            sealed@ == secret@,
    {
        SecretValue { text: secret }
    }

    /// The explicit reveal: a borrowed view of the cleartext.
    pub fn expose_secret(&self) -> (text: &str)
        ensures
            text@ == self@,
    {
        self.text.as_str()
    }

    /// Whether both hold the same text.
    pub fn same(&self, other: &SecretValue) -> (same: bool)
        ensures
            same == (self@ == other@),
    {
        self.text == other.text
    }

    /// Replaces the held text. The previous text is wiped as it is released.
    pub fn replace(&mut self, secret: String)
        ensures
            final(self)@ == secret@,
    {
        let mut outgoing = SecretValue { text: secret };
        std::mem::swap(&mut self.text, &mut outgoing.text);
    }
}

} // verus!
