//! State verification for a two-chain bridge relayer: reading counters from
//! the bridge contract, checking the bridge identifier held on both chains,
//! computing the checkpoint that validators sign, choosing a gas price source
//! and classifying failed contract calls.

pub mod checkpoint;
pub mod commands;
pub mod contract_error;
pub mod error;
pub mod gas;
pub mod gravity_id;
pub mod hash;
pub mod nonce;
pub mod uint;
