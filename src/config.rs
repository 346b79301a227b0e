//! The two credentials of an account: the API key and its signing secret.

use vstd::prelude::*;

verus! {

/// Credentials, fixed for the life of the process.
#[derive(Debug, Clone)]
pub struct CoinbaseConfig {
    pub api_key: String,
    pub api_secret: String,
}

} // verus!
