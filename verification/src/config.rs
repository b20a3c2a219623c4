//! The issuer's configuration.

use vstd::prelude::*;

verus! {

/// The key the issuer signs with, and the URL it is reached at.
#[derive(Debug)]
pub struct Config {
    pub private_key: String,
    pub issuer_url: Option<String>,
}

impl Config {
    /// A configuration with both values given.
    pub fn new(private_key: String, issuer_url: String) -> (config: Config)
        ensures
            config.private_key == private_key,
            config.issuer_url == Some(issuer_url),
    {
        Config { private_key, issuer_url: Some(issuer_url) }
    }
}

} // verus!
