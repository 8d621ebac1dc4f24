//! Secret values that must never reach a log or a serialised payload.

use secrecy::ExposeSecret;
use vstd::prelude::*;

verus! {

/// A secret string: a password or a signing key.
///
/// The text is held in a `secrecy::Secret<String>`, which zeroes it on drop
/// and offers no way to print it. Nothing but [`Secret::expose`] reads it.
#[verifier::external_body]
#[derive(Debug)]
pub struct Secret {
    inner: secrecy::Secret<String>,
}

/// The text held inside a secret.
pub uninterp spec fn secret_text(secret: Secret) -> Seq<char>;

impl View for Secret {
    type V = Seq<char>;

    open spec fn view(&self) -> Seq<char> {
        secret_text(*self)
    }
}

/// Wraps a string as a secret. Calls `secrecy::Secret::new`, which stores
/// the value unchanged.
#[verifier::external_body]
fn wrap_secret(text: String) -> (secret: Secret)
    ensures
        secret_text(secret) == text@,
{
    Secret { inner: secrecy::Secret::new(text) }
}

/// Reads the text of a secret. Calls `ExposeSecret::expose_secret`, which
/// hands out a reference to the stored value.
#[verifier::external_body]
fn expose_secret(secret: &Secret) -> (text: &str)
    ensures
        text@ == secret_text(*secret),
{
    secret.inner.expose_secret().as_str()
}

/// Makes a second secret with the same text. Calls the `Clone` impl of
/// `secrecy::Secret`, which clones the stored value.
#[verifier::external_body]
fn clone_secret(secret: &Secret) -> (copy: Secret)
    ensures
        secret_text(copy) == secret_text(*secret),
{
    Secret { inner: secret.inner.clone() }
}

impl Clone for Secret {
    /// A second secret with the same text.
    fn clone(&self) -> (copy: Secret)
        ensures
            copy@ == self@,
    {
        clone_secret(self)
    }
}

impl Secret {
    /// Makes a secret of the given text.
    pub fn new(text: String) -> (secret: Secret)
        ensures
            secret@ == text@,
    {
        wrap_secret(text)
    }

    /// The text of the secret, for the one computation that needs it.
    pub fn expose(&self) -> (text: &str)
        ensures
            text@ == self@,
    {
        expose_secret(self)
    }
}

} // verus!
