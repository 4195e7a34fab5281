//! Automatic remediation: the fixes it knows, how issues become a plan,
//! the decisions taken while a plan runs, and the rollback points that let
//! a fix be undone.

pub mod clock;
pub mod error;
pub mod actions;
pub mod engine;
pub mod well_known_dns;
pub mod rollback;
