//! The choice of the attestation provider.

use vstd::prelude::*;
use crate::attest::errors::AttestationError;

verus! {

/// Where a quote comes from.
#[derive(Debug, Clone, Copy, PartialEq, Eq)]
pub enum Provider {
    /// The legacy character device
    Ioctl,
    /// The primary attestation provider
    Coco,
}

/// Picks the provider: the primary one where it is available, else the
/// legacy one where its device node exists, else none.
pub fn select_provider(primary_available: bool, legacy_device_exists: bool) -> (r: Result<
    Provider,
    AttestationError,
>)
    ensures
        primary_available ==> r == Ok::<Provider, AttestationError>(Provider::Coco),
        !primary_available && legacy_device_exists ==> r == Ok::<Provider, AttestationError>(
            Provider::Ioctl,
        ),
        !primary_available && !legacy_device_exists ==> r == Err::<Provider, AttestationError>(
            AttestationError::NoProviderAvailable,
        ),
{
    if primary_available {
        Ok(Provider::Coco)
    } else if legacy_device_exists {
        Ok(Provider::Ioctl)
    } else {
        Err(AttestationError::NoProviderAvailable)
    }
}

} // verus!
