//! The configuration a deployment runs with. A configuration-retrieval
//! collaborator outside this core fetches and deserializes it from a remote
//! parameter store before the pipeline starts serving traffic.

use vstd::prelude::*;

verus! {

/// Connection settings for the downstream FileMaker system.
#[derive(Debug)]
pub struct FileMakerConfig {
    pub hostname: String,
    pub database: String,
    pub username: String,
    pub password: String,
    pub script_name: String,
}

/// The whole configuration: the request-signing key and the downstream
/// system's settings.
#[derive(Debug)]
pub struct Config {
    pub signing_key: String,
    pub file_maker: FileMakerConfig,
}

} // verus!
