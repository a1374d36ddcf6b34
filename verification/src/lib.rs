//! Resilience and fault-translation layer for a request proxy.
//!
//! Decides what happens when a request fails: classifies nested error
//! chains into protocol-correct responses (HTTP statuses or gRPC
//! trailers), applies per-destination retry policies, evicts handlers
//! that have been idle too long, and rejects connection targets that
//! would route the proxy back to itself.

pub mod addr;
pub mod errors;
pub mod idle;
pub mod inbound;
pub mod outbound;
pub mod respond;
pub mod retry;
