//! The broker's interface.

use vstd::prelude::*;

verus! {

/// The client of the broker's interface. It holds nothing yet.
#[derive(Debug, Clone, Copy, PartialEq, Eq, Structural)]
pub struct ApiClient;

impl ApiClient {
    /// Creates the client.
    pub fn new() -> (client: ApiClient)
        ensures
            client == ApiClient,
    {
        ApiClient
    }
}

} // verus!
