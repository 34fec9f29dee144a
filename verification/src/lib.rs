//! Verified state transitions of a collection of ledger contracts.
pub mod common;
pub mod security_primitives;
pub mod fuzz;
pub mod membership_nft;
pub mod paymaster;
pub mod subscription_manager;
pub mod rbac;
pub mod dynamic_staking;
pub mod crypto;
pub mod merkle_distributor;
pub mod airdrop_manager;
pub mod governance;
pub mod flash_loan;
pub mod bytes_map;
pub mod cross_chain_messaging;
pub mod bounty_escrow;
pub mod circuit_breaker;
pub mod state_channel;
pub mod lending;
pub mod dao_treasury;
pub mod gaming_asset_exchange;
pub mod parametric_insurance;
pub mod cross_chain_client;
pub mod crowdfunding;
pub mod milestone_release;
pub mod smart_wallet;
pub mod rarity_validator;
pub mod nft_ticketing;
pub mod anti_scalping;
pub mod admin;
pub mod continuous_bonding_curve;
pub mod did_registry;
pub mod proxy;
pub mod amm_pool;
pub mod classroom_paymaster;
pub mod quiz_assessment;
pub mod storage_lesson;
pub mod playground_cache;
pub mod fractional_nft_vault;
