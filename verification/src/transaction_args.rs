//! Predefined transaction-workload configurations selectable by name.

use vstd::prelude::*;

verus! {

/// The entry points a custom-module workload can call.
#[derive(Clone, Copy, Debug, Eq, PartialEq)]
pub enum EntryPoints {
    Nop,
    StepDst,
    BytesMakeOrChange { data_length: Option<usize> },
    TokenV1MintAndStoreNFTSequential,
    TokenV1MintAndTransferNFTSequential,
    TokenV1MintAndStoreNFTParallel,
    TokenV1MintAndTransferNFTParallel,
    TokenV1MintAndStoreFT,
    TokenV1MintAndTransferFT,
    TokenV2AmbassadorMint,
}

/// A fully configured transaction workload.
#[derive(Clone, Copy, Debug, Eq, PartialEq)]
pub enum TransactionType {
    CoinTransfer {
        invalid_transaction_ratio: usize,
        sender_use_account_pool: bool,
    },
    AccountGeneration {
        add_created_accounts_to_pool: bool,
        max_account_working_set: usize,
        creation_balance: u64,
    },
    NftMintAndTransfer,
    PublishPackage {
        use_account_pool: bool,
    },
    CallCustomModules {
        entry_point: EntryPoints,
        num_modules: usize,
        use_account_pool: bool,
    },
    BatchTransfer {
        batch_size: usize,
    },
}

impl TransactionType {
    /// The stock account-generation workload.
    pub fn default_account_generation() -> (t: TransactionType)
        ensures
            t == (TransactionType::AccountGeneration {
                add_created_accounts_to_pool: false,
                max_account_working_set: 1_000_000,
                creation_balance: 0,
            }),
    {
        TransactionType::AccountGeneration {
            add_created_accounts_to_pool: false,
            max_account_working_set: 1_000_000,
            creation_balance: 0,
        }
    }
}

/// Utility class for specifying transaction type with predefined
/// configurations through CLI.
#[derive(Debug, Copy, Clone)]
pub enum TransactionTypeArg {
    NoOp,
    NoOp2Signers,
    NoOp5Signers,
    CoinTransfer,
    CoinTransferWithInvalid,
    AccountGeneration,
    AccountGenerationLargePool,
    NftMintAndTransfer,
    PublishPackage,
    CreateNewAccountResource,
    ModifyGlobalResource,
    Batch100Transfer,
    TokenV1NFTMintAndStoreSequential,
    TokenV1NFTMintAndTransferSequential,
    TokenV1NFTMintAndStoreParallel,
    TokenV1NFTMintAndTransferParallel,
    TokenV1FTMintAndStore,
    TokenV1FTMintAndTransfer,
    TokenV2AmbassadorMint,
}

impl Default for TransactionTypeArg {
    fn default() -> (t: Self)
        ensures
            t == TransactionTypeArg::CoinTransfer,
    {
        TransactionTypeArg::CoinTransfer
    }
}

/// The workload configuration each argument stands for, with
/// `module_working_set_size` custom modules where the workload calls them.
pub open spec fn materialized(arg: TransactionTypeArg, module_working_set_size: usize) -> TransactionType {
    match arg {
        TransactionTypeArg::CoinTransfer => TransactionType::CoinTransfer {
            invalid_transaction_ratio: 0,
            sender_use_account_pool: false,
        },
        TransactionTypeArg::CoinTransferWithInvalid => TransactionType::CoinTransfer {
            invalid_transaction_ratio: 10,
            sender_use_account_pool: false,
        },
        TransactionTypeArg::AccountGeneration => TransactionType::AccountGeneration {
            add_created_accounts_to_pool: false,
            max_account_working_set: 1_000_000,
            creation_balance: 0,
        },
        TransactionTypeArg::AccountGenerationLargePool => TransactionType::AccountGeneration {
            add_created_accounts_to_pool: true,
            max_account_working_set: 50_000_000,
            creation_balance: 200_000_000,
        },
        TransactionTypeArg::NftMintAndTransfer => TransactionType::NftMintAndTransfer,
        TransactionTypeArg::PublishPackage => TransactionType::PublishPackage {
            use_account_pool: true,
        },
        TransactionTypeArg::CreateNewAccountResource => TransactionType::CallCustomModules {
            entry_point: EntryPoints::BytesMakeOrChange { data_length: Some(32usize) },
            num_modules: module_working_set_size,
            use_account_pool: true,
        },
        TransactionTypeArg::ModifyGlobalResource => TransactionType::CallCustomModules {
            entry_point: EntryPoints::StepDst,
            num_modules: module_working_set_size,
            use_account_pool: false,
        },
        TransactionTypeArg::NoOp => TransactionType::CallCustomModules {
            entry_point: EntryPoints::Nop,
            num_modules: module_working_set_size,
            use_account_pool: false,
        },
        TransactionTypeArg::NoOp2Signers => TransactionType::CallCustomModules {
            entry_point: EntryPoints::Nop,
            num_modules: module_working_set_size,
            use_account_pool: false,
        },
        TransactionTypeArg::NoOp5Signers => TransactionType::CallCustomModules {
            entry_point: EntryPoints::Nop,
            num_modules: module_working_set_size,
            use_account_pool: false,
        },
        TransactionTypeArg::Batch100Transfer => TransactionType::BatchTransfer { batch_size: 100 },
        TransactionTypeArg::TokenV1NFTMintAndStoreSequential => TransactionType::CallCustomModules {
            entry_point: EntryPoints::TokenV1MintAndStoreNFTSequential,
            num_modules: module_working_set_size,
            use_account_pool: false,
        },
        TransactionTypeArg::TokenV1NFTMintAndTransferSequential => TransactionType::CallCustomModules {
            entry_point: EntryPoints::TokenV1MintAndTransferNFTSequential,
            num_modules: module_working_set_size,
            use_account_pool: false,
        },
        TransactionTypeArg::TokenV1NFTMintAndStoreParallel => TransactionType::CallCustomModules {
            entry_point: EntryPoints::TokenV1MintAndStoreNFTParallel,
            num_modules: module_working_set_size,
            use_account_pool: false,
        },
        TransactionTypeArg::TokenV1NFTMintAndTransferParallel => TransactionType::CallCustomModules {
            entry_point: EntryPoints::TokenV1MintAndTransferNFTParallel,
            num_modules: module_working_set_size,
            use_account_pool: false,
        },
        TransactionTypeArg::TokenV1FTMintAndStore => TransactionType::CallCustomModules {
            entry_point: EntryPoints::TokenV1MintAndStoreFT,
            num_modules: module_working_set_size,
            use_account_pool: false,
        },
        TransactionTypeArg::TokenV1FTMintAndTransfer => TransactionType::CallCustomModules {
            entry_point: EntryPoints::TokenV1MintAndTransferFT,
            num_modules: module_working_set_size,
            use_account_pool: false,
        },
        TransactionTypeArg::TokenV2AmbassadorMint => TransactionType::CallCustomModules {
            entry_point: EntryPoints::TokenV2AmbassadorMint,
            num_modules: module_working_set_size,
            use_account_pool: false,
        },
    }
}

impl TransactionTypeArg {
    /// The fully configured workload this argument stands for.
    pub fn materialize(&self, module_working_set_size: usize) -> (t: TransactionType)
        ensures
            t == materialized(*self, module_working_set_size),
    {
        match self {
            TransactionTypeArg::CoinTransfer => TransactionType::CoinTransfer {
                invalid_transaction_ratio: 0,
                sender_use_account_pool: false,
            },
            TransactionTypeArg::CoinTransferWithInvalid => TransactionType::CoinTransfer {
                invalid_transaction_ratio: 10,
                sender_use_account_pool: false,
            },
            TransactionTypeArg::AccountGeneration => TransactionType::default_account_generation(),
            TransactionTypeArg::AccountGenerationLargePool => TransactionType::AccountGeneration {
                add_created_accounts_to_pool: true,
                max_account_working_set: 50_000_000,
                creation_balance: 200_000_000,
            },
            TransactionTypeArg::NftMintAndTransfer => TransactionType::NftMintAndTransfer,
            TransactionTypeArg::PublishPackage => TransactionType::PublishPackage {
                use_account_pool: true,
            },
            TransactionTypeArg::CreateNewAccountResource => TransactionType::CallCustomModules {
                entry_point: EntryPoints::BytesMakeOrChange { data_length: Some(32usize) },
                num_modules: module_working_set_size,
                use_account_pool: true,
            },
            TransactionTypeArg::ModifyGlobalResource => TransactionType::CallCustomModules {
                entry_point: EntryPoints::StepDst,
                num_modules: module_working_set_size,
                use_account_pool: false,
            },
            TransactionTypeArg::NoOp => TransactionType::CallCustomModules {
                entry_point: EntryPoints::Nop,
                num_modules: module_working_set_size,
                use_account_pool: false,
            },
            TransactionTypeArg::NoOp2Signers => TransactionType::CallCustomModules {
                entry_point: EntryPoints::Nop,
                num_modules: module_working_set_size,
                use_account_pool: false,
            },
            TransactionTypeArg::NoOp5Signers => TransactionType::CallCustomModules {
                entry_point: EntryPoints::Nop,
                num_modules: module_working_set_size,
                use_account_pool: false,
            },
            TransactionTypeArg::Batch100Transfer => TransactionType::BatchTransfer {
                batch_size: 100,
            },
            TransactionTypeArg::TokenV1NFTMintAndStoreSequential => {
                TransactionType::CallCustomModules {
                    entry_point: EntryPoints::TokenV1MintAndStoreNFTSequential,
                    num_modules: module_working_set_size,
                    use_account_pool: false,
                }
            },
            TransactionTypeArg::TokenV1NFTMintAndTransferSequential => {
                TransactionType::CallCustomModules {
                    entry_point: EntryPoints::TokenV1MintAndTransferNFTSequential,
                    num_modules: module_working_set_size,
                    use_account_pool: false,
                }
            },
            TransactionTypeArg::TokenV1NFTMintAndStoreParallel => {
                TransactionType::CallCustomModules {
                    entry_point: EntryPoints::TokenV1MintAndStoreNFTParallel,
                    num_modules: module_working_set_size,
                    use_account_pool: false,
                }
            },
            TransactionTypeArg::TokenV1NFTMintAndTransferParallel => {
                TransactionType::CallCustomModules {
                    entry_point: EntryPoints::TokenV1MintAndTransferNFTParallel,
                    num_modules: module_working_set_size,
                    use_account_pool: false,
                }
            },
            TransactionTypeArg::TokenV1FTMintAndStore => TransactionType::CallCustomModules {
                entry_point: EntryPoints::TokenV1MintAndStoreFT,
                num_modules: module_working_set_size,
                use_account_pool: false,
            },
            TransactionTypeArg::TokenV1FTMintAndTransfer => TransactionType::CallCustomModules {
                entry_point: EntryPoints::TokenV1MintAndTransferFT,
                num_modules: module_working_set_size,
                use_account_pool: false,
            },
            TransactionTypeArg::TokenV2AmbassadorMint => TransactionType::CallCustomModules {
                entry_point: EntryPoints::TokenV2AmbassadorMint,
                num_modules: module_working_set_size,
                use_account_pool: false,
            },
        }
    }
}

} // verus!
