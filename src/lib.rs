//! Builds the buy and sell calls of a token-trading program, the ordered
//! instruction list of one atomic trade, and the JSON-RPC request that submits
//! signed transactions to a bundle relay.
pub mod address;
pub mod bundle;
pub mod encode;
pub mod transaction;
