//! A guard for secret strings: credentials, access tokens and client
//! secrets are held behind it so that reading them always happens through
//! one explicit, named call, and so that the backing memory is overwritten
//! with zeros when the value is dropped.

use vstd::prelude::*;

verus! {

/// A secret string, backed by `secrecy::SecretBox<String>`. The contents
/// can be read only through the explicit, named [`SecretGuard::expose`]
/// call, and the backing memory is zeroed when the guard is dropped (both
/// provided by `secrecy`). The struct is opaque to the verifier; the
/// trusted wrappers below relate its operations to [`secret_contents`],
/// the character sequence it protects.
#[verifier::external_body]
pub struct SecretGuard {
    inner: secrecy::SecretBox<String>,
}

/// The string a [`SecretGuard`] holds.
pub uninterp spec fn secret_contents(g: SecretGuard) -> Seq<char>;

impl View for SecretGuard {
    type V = Seq<char>;

    open spec fn view(&self) -> Seq<char> {
        secret_contents(*self)
    }
}

impl SecretGuard {
    /// Relies on `secrecy::SecretBox::new`: the box stores exactly the
    /// value handed to it, and zeroes it on drop.
    #[verifier::external_body]
    pub fn new(value: String) -> (g: SecretGuard)
        ensures
            secret_contents(g) == value@,
    {
        SecretGuard { inner: secrecy::SecretBox::new(Box::new(value)) }
    }

    /// Relies on `secrecy::ExposeSecret::expose_secret`: returns a
    /// reference to the stored value, unchanged.
    #[verifier::external_body]
    pub fn expose(&self) -> (r: &String)
        ensures
            r@ == secret_contents(*self),
    {
        secrecy::ExposeSecret::expose_secret(&self.inner)
    }

    /// Relies on `secrecy::ExposeSecret::expose_secret` and
    /// `secrecy::SecretBox::new`: a fresh guard protecting a copy of the
    /// same value.
    #[verifier::external_body]
    pub fn duplicate(&self) -> (g: SecretGuard)
        ensures
            secret_contents(g) == secret_contents(*self),
    {
        SecretGuard {
            inner: secrecy::SecretBox::new(Box::new(
                secrecy::ExposeSecret::expose_secret(&self.inner).clone(),
            )),
        }
    }
}

} // verus!
