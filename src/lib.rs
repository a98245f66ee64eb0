//! Emits the source text that declares one shared, lazily built provider
//! handle per network, and one accessor function per network returning it.
pub mod code;
pub mod decimal;
pub mod generator;
pub mod layout;
pub mod naming;
pub mod network;
