//! The credential supplier capability used for the authenticated-connect
//! handshake.

use vstd::prelude::*;

verus! {

/// Supplies credentials for a session connect message and for challenge
/// responses. An implementation promises an upper bound on the length of
/// what it hands out, so that connect requests provably fit the proxy's
/// buffer.
pub trait CredentialSupplier {
    /// Upper bound on the length of any credentials this supplier returns.
    spec fn spec_max_credentials_length(&self) -> int;

    /// Credentials to include in a session connect message, in binary
    /// form.
    fn encoded_credentials(&self) -> (r: &[u8])
        ensures
            r@.len() <= self.spec_max_credentials_length(),
    ;

    /// Given encoded challenge data, the credentials to include in the
    /// challenge response.
    fn on_challenge(&self, endcoded_challenge: &[u8]) -> (r: &[u8])
        ensures
            r@.len() <= self.spec_max_credentials_length(),
    ;
}

/// The no-op supplier: empty credentials.
pub struct NoCredentialsSupplier;

impl CredentialSupplier for NoCredentialsSupplier {
    open spec fn spec_max_credentials_length(&self) -> int {
        0
    }

    fn encoded_credentials(&self) -> (r: &[u8]) {
        &[]
    }

    fn on_challenge(&self, _endcoded_challenge: &[u8]) -> (r: &[u8]) {
        &[]
    }
}

} // verus!
