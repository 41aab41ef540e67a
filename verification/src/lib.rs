//! Verified core of the xlm-ns Stellar name service: name validation,
//! registration pricing and lifecycle, the registrar, resolver and NFT
//! ledgers, and the pure decision logic of the SDK client and CLI.

pub mod constants;


pub mod text;
pub mod validation;
pub mod str_map;
pub mod pricing;
pub mod registrar;
pub mod resolver;
pub mod nft;
pub mod sdk;
pub mod cli;
pub mod monitor;
