use aptosdb::{
    EntryPoints, PeerStateKey, TokenStandard, TransactionType, TransactionTypeArg,
};

#[test]
fn test_materialize_coin_transfer() {
    assert_eq!(
        TransactionTypeArg::CoinTransfer.materialize(1),
        TransactionType::CoinTransfer {
            invalid_transaction_ratio: 0,
            sender_use_account_pool: false,
        }
    );
    assert_eq!(
        TransactionTypeArg::CoinTransferWithInvalid.materialize(1),
        TransactionType::CoinTransfer {
            invalid_transaction_ratio: 10,
            sender_use_account_pool: false,
        }
    );
    assert_eq!(
        TransactionTypeArg::default().materialize(1),
        TransactionTypeArg::CoinTransfer.materialize(1)
    );
}

#[test]
fn test_materialize_custom_modules_take_working_set_size() {
    assert_eq!(
        TransactionTypeArg::NoOp.materialize(17),
        TransactionType::CallCustomModules {
            entry_point: EntryPoints::Nop,
            num_modules: 17,
            use_account_pool: false,
        }
    );
    assert_eq!(
        TransactionTypeArg::ModifyGlobalResource.materialize(3),
        TransactionType::CallCustomModules {
            entry_point: EntryPoints::StepDst,
            num_modules: 3,
            use_account_pool: false,
        }
    );
    assert_eq!(
        TransactionTypeArg::CreateNewAccountResource.materialize(5),
        TransactionType::CallCustomModules {
            entry_point: EntryPoints::BytesMakeOrChange {
                data_length: Some(32)
            },
            num_modules: 5,
            use_account_pool: true,
        }
    );
}

#[test]
fn test_materialize_fixed_workloads() {
    assert_eq!(
        TransactionTypeArg::Batch100Transfer.materialize(1),
        TransactionType::BatchTransfer { batch_size: 100 }
    );
    assert_eq!(
        TransactionTypeArg::PublishPackage.materialize(1),
        TransactionType::PublishPackage {
            use_account_pool: true
        }
    );
    assert_eq!(
        TransactionTypeArg::NftMintAndTransfer.materialize(1),
        TransactionType::NftMintAndTransfer
    );
    assert_eq!(
        TransactionTypeArg::AccountGenerationLargePool.materialize(1),
        TransactionType::AccountGeneration {
            add_created_accounts_to_pool: true,
            max_account_working_set: 50_000_000,
            creation_balance: 200_000_000,
        }
    );
}

#[test]
fn test_peer_state_keys_and_labels() {
    let keys = PeerStateKey::get_all_keys();
    assert_eq!(
        keys,
        vec![
            PeerStateKey::LatencyInfo,
            PeerStateKey::NetworkInfo,
            PeerStateKey::NodeInfo,
        ]
    );
    assert_eq!(PeerStateKey::LatencyInfo.get_label(), "latency_info");
    assert_eq!(PeerStateKey::NetworkInfo.get_label(), "network_info");
    assert_eq!(PeerStateKey::NodeInfo.get_label(), "node_info");
}

#[test]
fn test_token_standard_labels() {
    assert_eq!(TokenStandard::V1.label(), "v1");
    assert_eq!(TokenStandard::V2.label(), "v2");
}
