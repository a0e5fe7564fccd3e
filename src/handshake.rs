//! Plain types of the connection handshake.

use vstd::prelude::*;

verus! {

/// Whether a connection uses SSL.
#[derive(Clone, Copy, PartialEq, Eq, Structural, Default, Debug)]
pub enum ConnectionSslRequirement {
    /// SSL is disabled, and it is an error to attempt to use it.
    #[default]
    Disable,
    /// SSL is optional, but preferred.
    Optional,
    /// SSL is required, and it is an error to reject it.
    Required,
}

} // verus!
