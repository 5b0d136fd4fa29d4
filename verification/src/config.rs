//! Connection settings shared by every operation.

use vstd::prelude::*;

verus! {

/// Read-only connection settings (endpoint and credential) handed by
/// reference into every facade. This layer never inspects or mutates them;
/// they exist to be passed through to whatever performs the remote exchange.
pub struct Configuration {
    pub base_url: String,
    pub api_key: String,
}

} // verus!
