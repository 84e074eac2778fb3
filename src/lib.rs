pub mod args;
pub mod ckb_config;
pub mod config;
pub mod error;
pub mod extract;
pub mod laws;
pub mod rpc;
pub mod stamp;
pub mod upload;
