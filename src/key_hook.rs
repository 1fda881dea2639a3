//! The key registry: a table from characters to the actions they trigger.
#[allow(clippy::module_inception)]
pub mod key_hook;
