//! Texts that must not be shown: tokens, the client's secret, and what is
//! made of them.

use vstd::prelude::*;

verus! {

/// A text that is kept from view. It has no `Debug`, so that nothing that
/// holds one can be printed by accident; `expose` hands out the text to
/// the one place that sends it.
#[derive(Clone, PartialEq, Eq)]
pub struct Secret {
    pub(crate) text: String,
}

impl View for Secret {
    type V = Seq<char>;

    closed spec fn view(&self) -> Seq<char> {
        self.text@
    }
}

/// What is shown in place of a secret.
pub open spec fn redaction() -> Seq<char> {
    "[redacted]"@
}

impl Secret {
    /// Wraps `text`.
    pub fn new(text: String) -> (secret: Secret)
        ensures
            secret@ == text@,
    {
        Secret { text }
    }

    /// The text itself.
    pub fn expose(&self) -> (text: &String)
        ensures
            text@ == self@,
    {
        &self.text
    }

    /// What to show in place of the text: the same for every secret.
    pub fn redacted(&self) -> (shown: String)
        ensures
            shown@ == redaction(),
    {
        String::from_str("[redacted]")
    }

    /// Whether the secret holds no text.
    pub fn is_empty(&self) -> (empty: bool)
        ensures
            empty == (self@.len() == 0),
    {
        self.text.as_str().is_empty()
    }

    /// Whether `self` and `other` hold the same text.
    pub fn same_as(&self, other: &Secret) -> (same: bool)
        ensures
            same == (self@ == other@),
    {
        self.text == other.text
    }

    /// A copy of the secret.
    pub fn copy(&self) -> (same: Secret)
        ensures
            same == *self,
    {
        Secret { text: self.text.clone() }
    }
}

} // verus!
