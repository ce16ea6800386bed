//! What the request handlers decide: validation, the opening of requests,
//! the sealing of responses, and the commitments that are attested.

pub mod agent;
pub mod encrypt;
pub mod envelope;
pub mod openai;

use vstd::prelude::*;

verus! {

/// What the state of a server must be able to do: be copied and be shared
/// between threads for as long as the server runs.
pub trait ServerState: Clone + Sync + Send + 'static {

}

impl<T: Clone + Sync + Send + 'static> ServerState for T {

}

} // verus!
