//! Vault accounting for the Pragma vaults: portfolio risk metrics, position
//! bookkeeping from on-chain events, indexer status, and the request and
//! response rules of the vault API.
pub mod decimal;
pub mod kpi;
pub mod time;
pub mod text;
pub mod types;
pub mod models;
pub mod indexer;
pub mod numtext;
pub mod response;
pub mod query;
pub mod dto;
pub mod handlers;
pub mod bigdec;
pub mod felt;
pub mod deposit;
pub mod service;
pub mod quoting;
