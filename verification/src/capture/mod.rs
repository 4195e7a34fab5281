//! Packet capture: BPF filters, protocol decoding, capture settings.

pub mod filter;
pub mod decode;
pub mod session;
pub mod device;
pub mod stats;
