use vstd::prelude::*;

verus! {

/// Where the durable record of blacklisted addresses lives.
#[derive(Clone, Debug)]
pub struct DatabaseConfig {
    /// Path of the database file.
    pub file_path: String,
    /// Name of the table that holds one row per blacklisted address.
    pub table_name: String,
}

/// The firewall set that mirrors the durable record.
#[derive(Clone, Debug)]
pub struct NftablesConfig {
    /// Table of the `inet` family that holds the set.
    pub set_table: String,
    /// Name of the set of `ipv4_addr` elements.
    pub set_name: String,
}

/// The authenticated request interface.
#[derive(Clone, Debug)]
pub struct WebhookConfig {
    /// Socket address to listen on, as written in the configuration.
    pub addr: String,
    /// Shared secret that the `authorization` header must equal exactly.
    pub auth_token: String,
}

/// The whole configuration of the service.
#[derive(Clone, Debug)]
pub struct Config {
    pub database: DatabaseConfig,
    pub nftables: NftablesConfig,
    pub webhook: WebhookConfig,
}

} // verus!
