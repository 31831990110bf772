//! Settings of the service.
use vstd::prelude::*;

verus! {

/// Settings read at startup. A retention setting that is absent or zero
/// switches its rule off.
#[derive(Debug)]
pub struct Config {
    pub port: u16,
    pub database_url: String,
    pub base_url: String,
    pub auth_token: String,
    pub retention_days: Option<u32>,
    pub max_entries: Option<u32>,
}

} // verus!
