//! Network diagnostics: packet decoding and capture filters, daemon
//! configuration and supervision logic, external-service record handling,
//! automatic remediation planning, and the command-line helpers around them.

pub mod text;
pub mod net;
pub mod capture;
pub mod daemon;
pub mod integrations;
pub mod autofix;
pub mod gui;
pub mod android;
pub mod cli;
pub mod connectivity;
pub mod path_analyzer;
pub mod diagnostics;
pub mod traceroute;

use vstd::prelude::*;

verus! {

} // verus!
