use aptosdb::{ApiConfig, ChainId, ConfigError, NodeConfig, NodeType};

#[test]
fn test_sanitize_disabled_api() {
    // Create a node config with the API disabled
    let mut node_config = NodeConfig {
        api: ApiConfig {
            enabled: false,
            failpoints_enabled: true,
            ..Default::default()
        },
        ..Default::default()
    };

    // Sanitize the config and verify that it succeeds
    ApiConfig::sanitize(&mut node_config, NodeType::Validator, ChainId::mainnet()).unwrap();
}

#[test]
fn test_sanitize_failpoints_on_mainnet() {
    // Create a node config with failpoints enabled
    let mut node_config = NodeConfig {
        api: ApiConfig {
            enabled: true,
            failpoints_enabled: true,
            ..Default::default()
        },
        ..Default::default()
    };

    // Sanitize the config and verify that it fails because
    // failpoints are not supported on mainnet.
    let error = ApiConfig::sanitize(&mut node_config, NodeType::Validator, ChainId::mainnet())
        .unwrap_err();
    assert!(matches!(error, ConfigError::ConfigSanitizerFailed(_, _)));
}

#[test]
fn test_sanitize_invalid_workers() {
    // Create a node config with an invalid runtime worker multiplier
    let mut node_config = NodeConfig {
        api: ApiConfig {
            enabled: true,
            max_runtime_workers: None,
            runtime_worker_multiplier: 0,
            ..Default::default()
        },
        ..Default::default()
    };

    // Sanitize the config and verify that it fails because
    // the runtime worker multiplier is invalid.
    let error = ApiConfig::sanitize(&mut node_config, NodeType::Validator, ChainId::mainnet())
        .unwrap_err();
    assert!(matches!(error, ConfigError::ConfigSanitizerFailed(_, _)));
}

#[test]
fn test_sanitize_passes_off_mainnet_and_with_workers() {
    let mut node_config = NodeConfig::default();
    ApiConfig::sanitize(&mut node_config, NodeType::Validator, ChainId::mainnet()).unwrap();

    // Failpoints are acceptable off mainnet.
    let mut node_config = NodeConfig {
        api: ApiConfig {
            enabled: true,
            failpoints_enabled: true,
            ..Default::default()
        },
        ..Default::default()
    };
    ApiConfig::sanitize(&mut node_config, NodeType::Validator, ChainId { id: 4 }).unwrap();
}

#[test]
fn test_content_length_limit() {
    let config = ApiConfig::default();
    assert_eq!(config.content_length_limit(), 8 * 1024 * 1024);

    let config = ApiConfig {
        content_length_limit: Some(100),
        ..Default::default()
    };
    assert_eq!(config.content_length_limit(), 100);
}

#[test]
fn test_api_config_defaults() {
    let config = ApiConfig::default();
    assert!(config.enabled);
    assert_eq!(config.address, "127.0.0.1:8080");
    assert!(!config.failpoints_enabled);
    assert_eq!(config.max_submit_transaction_batch_size, 10);
    assert_eq!(config.max_transactions_page_size, 100);
    assert_eq!(config.max_events_page_size, 100);
    assert_eq!(config.max_account_resources_page_size, 9999);
    assert_eq!(config.max_account_modules_page_size, 9999);
    assert_eq!(config.max_gas_view_function, 2_000_000);
    assert_eq!(config.max_runtime_workers, None);
    assert_eq!(config.runtime_worker_multiplier, 2);
}
