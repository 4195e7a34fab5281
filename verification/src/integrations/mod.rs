//! External services: the records their replies become, and the handling
//! of their status codes.

pub mod error;
pub mod config;
pub mod ssllabs;
pub mod registry;
pub mod bgp;
pub mod ipinfo;
pub mod shodan;
