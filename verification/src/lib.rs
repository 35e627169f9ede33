//! System DNS resolver.
//!
//! Resolves the name via `getaddrinfo`, with hints that the caller chooses.

pub mod addr_info_hints;
pub mod background;
pub mod system;

pub use addr_info_hints::AddrInfoHints;
