//! The REST API configuration and its sanitization rules.

use vstd::prelude::*;
use vstd::string::StringExecFns;

verus! {

/// A maximum limit to the body of a POST request in bytes, when none is
/// configured.
pub const DEFAULT_REQUEST_CONTENT_LENGTH_LIMIT: u64 = 8 * 1024 * 1024;

/// Maximum number of transactions that can be sent with the batch submit
/// API, by default.
pub const DEFAULT_MAX_SUBMIT_TRANSACTION_BATCH_SIZE: usize = 10;

/// Maximum page size for paginated APIs, by default.
pub const DEFAULT_MAX_PAGE_SIZE: u16 = 100;

/// Maximum page size for resource and module paginated APIs, by default.
pub const DEFAULT_MAX_ACCOUNT_PAGE_SIZE: u16 = 9999;

/// Maximum gas unit limit for view functions, by default.
pub const DEFAULT_MAX_VIEW_GAS: u64 = 2_000_000;

pub fn default_enabled() -> (r: bool)
    ensures
        r,
{
    true
}

pub fn default_disabled() -> (r: bool)
    ensures
        !r,
{
    false
}

/// The configuration of the REST API endpoint.
pub struct ApiConfig {
    /// Enables the REST API endpoint
    pub enabled: bool,
    /// Address for the REST API to listen on, as `<host>:<port>`
    pub address: String,
    /// Path to a local TLS certificate to enable HTTPS
    pub tls_cert_path: Option<String>,
    /// Path to a local TLS key to enable HTTPS
    pub tls_key_path: Option<String>,
    /// A maximum limit to the body of a POST request in bytes
    pub content_length_limit: Option<u64>,
    /// Enables failpoints for error testing
    pub failpoints_enabled: bool,
    /// Enables JSON output of APIs that support it
    pub json_output_enabled: bool,
    /// Enables BCS output of APIs that support it
    pub bcs_output_enabled: bool,
    /// Enables encode submission API
    pub encode_submission_enabled: bool,
    /// Enables transaction submission APIs
    pub transaction_submission_enabled: bool,
    /// Enables transaction simulation
    pub transaction_simulation_enabled: bool,
    /// Maximum number of transactions that can be sent with the batch
    /// submit API
    pub max_submit_transaction_batch_size: usize,
    /// Maximum page size for transaction paginated APIs
    pub max_transactions_page_size: u16,
    /// Maximum page size for event paginated APIs
    pub max_events_page_size: u16,
    /// Maximum page size for resource paginated APIs
    pub max_account_resources_page_size: u16,
    /// Maximum page size for module paginated APIs
    pub max_account_modules_page_size: u16,
    /// Maximum gas unit limit for view functions
    pub max_gas_view_function: u64,
    /// Optional: maximum number of worker threads for the API
    pub max_runtime_workers: Option<usize>,
    /// Multiplier for number of worker threads with number of CPU cores;
    /// ignored when `max_runtime_workers` is set
    pub runtime_worker_multiplier: usize,
}

impl Default for ApiConfig {
    fn default() -> (config: ApiConfig)
        ensures
            config.enabled,
            config.address@ == "127.0.0.1:8080"@,
            config.tls_cert_path is None,
            config.tls_key_path is None,
            config.content_length_limit is None,
            !config.failpoints_enabled,
            config.json_output_enabled,
            config.bcs_output_enabled,
            config.encode_submission_enabled,
            config.transaction_submission_enabled,
            config.transaction_simulation_enabled,
            config.max_submit_transaction_batch_size
                == DEFAULT_MAX_SUBMIT_TRANSACTION_BATCH_SIZE,
            config.max_transactions_page_size == DEFAULT_MAX_PAGE_SIZE,
            config.max_events_page_size == DEFAULT_MAX_PAGE_SIZE,
            config.max_account_resources_page_size == DEFAULT_MAX_ACCOUNT_PAGE_SIZE,
            config.max_account_modules_page_size == DEFAULT_MAX_ACCOUNT_PAGE_SIZE,
            config.max_gas_view_function == DEFAULT_MAX_VIEW_GAS,
            config.max_runtime_workers is None,
            config.runtime_worker_multiplier == 2,
    {
        ApiConfig {
            enabled: default_enabled(),
            address: String::from_str("127.0.0.1:8080"),
            tls_cert_path: None,
            tls_key_path: None,
            content_length_limit: None,
            failpoints_enabled: default_disabled(),
            json_output_enabled: default_enabled(),
            bcs_output_enabled: default_enabled(),
            encode_submission_enabled: default_enabled(),
            transaction_submission_enabled: default_enabled(),
            transaction_simulation_enabled: default_enabled(),
            max_submit_transaction_batch_size: DEFAULT_MAX_SUBMIT_TRANSACTION_BATCH_SIZE,
            max_transactions_page_size: DEFAULT_MAX_PAGE_SIZE,
            max_events_page_size: DEFAULT_MAX_PAGE_SIZE,
            max_account_resources_page_size: DEFAULT_MAX_ACCOUNT_PAGE_SIZE,
            max_account_modules_page_size: DEFAULT_MAX_ACCOUNT_PAGE_SIZE,
            max_gas_view_function: DEFAULT_MAX_VIEW_GAS,
            max_runtime_workers: None,
            runtime_worker_multiplier: 2,
        }
    }
}

/// The type of node a configuration is sanitized for.
#[derive(Clone, Copy, Debug, Eq, PartialEq)]
pub enum NodeType {
    Validator,
    ValidatorFullnode,
    PublicFullnode,
}

/// The identity of the chain a node joins.
#[derive(Clone, Copy, Debug, Eq, PartialEq, Structural)]
pub struct ChainId {
    pub id: u8,
}

impl ChainId {
    /// The chain id of mainnet.
    pub fn mainnet() -> (c: ChainId)
        ensures
            c.id == 1,
    {
        ChainId { id: 1 }
    }

    /// Whether this is the mainnet chain.
    pub fn is_mainnet(&self) -> (r: bool)
        ensures
            r == (self.id == 1),
    {
        self.id == 1
    }
}

/// A configuration error surfaced while sanitizing a node configuration:
/// the name of the failed sanitizer and the reason.
#[derive(Debug)]
pub enum ConfigError {
    ConfigSanitizerFailed(String, String),
}

/// The node configuration, as far as the API sanitizer reads it.
pub struct NodeConfig {
    pub api: ApiConfig,
}

impl Default for NodeConfig {
    fn default() -> (config: NodeConfig)
        ensures
            config.api.enabled,
            !config.api.failpoints_enabled,
            config.api.max_runtime_workers is None,
            config.api.runtime_worker_multiplier == 2,
    {
        NodeConfig { api: ApiConfig::default() }
    }
}

/// Whether a configuration fails sanitization because failpoints are
/// enabled on a mainnet node.
pub open spec fn failpoints_rejected(api: ApiConfig, chain_id: ChainId) -> bool {
    api.enabled && chain_id.id == 1 && api.failpoints_enabled
}

/// Whether a configuration fails sanitization because no worker count can
/// be derived.
pub open spec fn workers_rejected(api: ApiConfig) -> bool {
    api.enabled && api.max_runtime_workers is None && api.runtime_worker_multiplier == 0
}

impl ApiConfig {
    /// The effective request body limit: the configured one, or the
    /// default.
    pub fn content_length_limit(&self) -> (limit: u64)
        ensures
            limit == match self.content_length_limit {
                Some(v) => v,
                None => DEFAULT_REQUEST_CONTENT_LENGTH_LIMIT,
            },
    {
        match self.content_length_limit {
            Some(v) => v,
            None => DEFAULT_REQUEST_CONTENT_LENGTH_LIMIT,
        }
    }

    /// Checks an API configuration: a disabled API always passes; an
    /// enabled one is rejected when failpoints are switched on for a
    /// mainnet node, or when no worker count can be derived because
    /// `max_runtime_workers` is unset and the multiplier is 0.
    #[allow(unused_variables)]
    pub fn sanitize(node_config: &mut NodeConfig, node_type: NodeType, chain_id: ChainId) -> (r:
        Result<(), ConfigError>)
        ensures
            *final(node_config) == *old(node_config),
            r is Err <==> failpoints_rejected(old(node_config).api, chain_id) || (
            !failpoints_rejected(old(node_config).api, chain_id) && workers_rejected(
                old(node_config).api,
            )),
            r is Err ==> r->Err_0 is ConfigSanitizerFailed,
    {
        let api_config = &node_config.api;

        // If the API is disabled, nothing else needs checking.
        if !api_config.enabled {
            return Ok(());
        }

        // Failpoints are not supported on mainnet nodes.
        if chain_id.is_mainnet() && api_config.failpoints_enabled {
            return Err(
                ConfigError::ConfigSanitizerFailed(
                    String::from_str("ApiConfig"),
                    String::from_str("Failpoints are not supported on mainnet nodes!"),
                ),
            );
        }

        // Some number of runtime workers must be derivable.
        if api_config.max_runtime_workers.is_none() && api_config.runtime_worker_multiplier == 0 {
            return Err(
                ConfigError::ConfigSanitizerFailed(
                    String::from_str("ApiConfig"),
                    String::from_str("runtime_worker_multiplier must be greater than 0!"),
                ),
            );
        }

        Ok(())
    }
}

} // verus!
