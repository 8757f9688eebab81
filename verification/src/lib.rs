//! Dynamic DNS for a single address record hosted at Gandi LiveDNS.
//!
//! The crate decides; it performs no input or output. A caller sends the
//! requests that the crate describes and hands the replies back.

pub mod error;
pub mod gandi;
pub mod http;
pub mod reconcile;
pub mod resolver;
pub mod settings;
