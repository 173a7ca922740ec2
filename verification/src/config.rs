//! Monitoring configuration: endpoint URLs, contract addresses, and the
//! check interval, each resolved from an optionally supplied setting.
//!
//! A setting comes in as the raw text of an environment variable, or
//! `None` when the variable is absent. The default applies exactly when
//! the setting is absent, and — for the interval — also when its text
//! does not parse as a `u64`.

use crate::parse::parse_u64;
use crate::parse::parse_u64_spec;
use vstd::prelude::*;

verus! {

/// Default check interval: one hour.
pub const DEFAULT_CHECK_INTERVAL_SECONDS: u64 = 3600;

/// Default RPC endpoint of the source chain.
pub open spec fn default_celo_rpc() -> Seq<char> {
    "https://celo-sepolia-rpc.publicnode.com"@
}

/// Default RPC endpoint of the sink chain.
pub open spec fn default_oasis_rpc() -> Seq<char> {
    "https://testnet.sapphire.oasis.io"@
}

/// Default contract address: the zero address.
pub open spec fn default_contract_address() -> Seq<char> {
    "0x0000000000000000000000000000000000000000"@
}

/// Configuration loaded once at startup and immutable afterwards.
pub struct MonitoringConfig {
    pub celo_rpc: String,
    pub oasis_rpc: String,
    pub scholar_fi_vault_address: String,
    pub child_data_store_address: String,
    pub check_interval_seconds: u64,
}

/// A string setting resolves to its given text, else to the default.
pub open spec fn resolved_string(given: Option<String>, default: Seq<char>) -> Seq<char> {
    match given {
        Some(s) => s@,
        None => default,
    }
}

/// The interval resolves to the parsed value of its given text; an absent
/// or unparsable setting resolves to the default.
pub open spec fn resolved_interval(given: Option<String>) -> u64 {
    match given {
        Some(s) => match parse_u64_spec(s@) {
            Some(n) => n,
            None => DEFAULT_CHECK_INTERVAL_SECONDS,
        },
        None => DEFAULT_CHECK_INTERVAL_SECONDS,
    }
}

fn resolve(given: Option<String>, default: &str) -> (r: String)
    ensures
        r@ == resolved_string(given, default@),
{
    match given {
        Some(s) => s,
        None => default.to_owned(),
    }
}

impl MonitoringConfig {
    /// Build the configuration from the raw environment settings. Each
    /// field takes its given value when present; the interval falls back
    /// to its default also when its text does not parse.
    pub fn from_env_values(
        celo_rpc: Option<String>,
        oasis_rpc: Option<String>,
        vault_address: Option<String>,
        data_store_address: Option<String>,
        check_interval: Option<String>,
    ) -> (c: Self)
        ensures
            c.celo_rpc@ == resolved_string(celo_rpc, default_celo_rpc()),
            c.oasis_rpc@ == resolved_string(oasis_rpc, default_oasis_rpc()),
            c.scholar_fi_vault_address@ == resolved_string(
                vault_address,
                default_contract_address(),
            ),
            c.child_data_store_address@ == resolved_string(
                data_store_address,
                default_contract_address(),
            ),
            c.check_interval_seconds == resolved_interval(check_interval),
    {
        let check_interval_seconds: u64 = match check_interval {
            Some(s) => match parse_u64(s.as_str()) {
                Some(n) => n,
                None => DEFAULT_CHECK_INTERVAL_SECONDS,
            },
            None => DEFAULT_CHECK_INTERVAL_SECONDS,
        };
        MonitoringConfig {
            celo_rpc: resolve(celo_rpc, "https://celo-sepolia-rpc.publicnode.com"),
            oasis_rpc: resolve(oasis_rpc, "https://testnet.sapphire.oasis.io"),
            scholar_fi_vault_address: resolve(
                vault_address,
                "0x0000000000000000000000000000000000000000",
            ),
            child_data_store_address: resolve(
                data_store_address,
                "0x0000000000000000000000000000000000000000",
            ),
            check_interval_seconds,
        }
    }
}

impl Default for MonitoringConfig {
    /// The configuration with every setting absent.
    fn default() -> (c: Self)
        ensures
            c.celo_rpc@ == default_celo_rpc(),
            c.oasis_rpc@ == default_oasis_rpc(),
            c.scholar_fi_vault_address@ == default_contract_address(),
            c.child_data_store_address@ == default_contract_address(),
            c.check_interval_seconds == DEFAULT_CHECK_INTERVAL_SECONDS,
    {
        MonitoringConfig::from_env_values(None, None, None, None, None)
    }
}

} // verus!
