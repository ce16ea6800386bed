//! Secret bytes in storage that is zeroed on release.

use vstd::prelude::*;
use secrecy::ExposeSecret;

verus! {

/// Bytes in storage that is zeroed when it is released.
#[verifier::external_body]
pub struct SecretBytes {
    inner: secrecy::SecretSlice<u8>,
}

/// The bytes that a secret holds.
pub uninterp spec fn secret_bytes(secret: SecretBytes) -> Seq<u8>;

impl View for SecretBytes {
    type V = Seq<u8>;

    open spec fn view(&self) -> Seq<u8> {
        secret_bytes(*self)
    }
}

impl SecretBytes {
    /// Calls `SecretSlice::from` on a vector. Trusted: the secret holds the
    /// bytes of the vector.
    #[verifier::external_body]
    pub(crate) fn seal(bytes: Vec<u8>) -> (secret: SecretBytes)
        ensures
            secret_bytes(secret) == bytes@,
    {
        SecretBytes { inner: bytes.into() }
    }

    /// Calls `ExposeSecret::expose_secret`. Trusted: the slice is the bytes
    /// that the secret holds.
    #[verifier::external_body]
    pub(crate) fn expose(&self) -> (bytes: &[u8])
        ensures
            bytes@ == secret_bytes(*self),
    {
        self.inner.expose_secret()
    }

    /// Calls `SecretSlice::clone`. Trusted: the copy holds the same bytes.
    #[verifier::external_body]
    pub(crate) fn duplicate(&self) -> (copy: SecretBytes)
        ensures
            secret_bytes(copy) == secret_bytes(*self),
    {
        SecretBytes { inner: self.inner.clone() }
    }
}

} // verus!
