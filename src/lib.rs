//! Client logic for a game contract on Starknet: credentials and field
//! elements read from hex, selectors, the steps of a signed call, and the
//! decoding of what read-only calls return.
pub mod contract;
pub mod handlers;
pub mod hex;
pub mod models;
pub mod scalar;
