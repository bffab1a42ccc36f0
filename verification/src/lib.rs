//! Runtime core of a dependency-injection container: a type-keyed singleton
//! store, the lazy resolution protocol on top of it, and the rules by which
//! a container picks its profile and its configuration sources.

pub mod profiles;
pub mod store;
pub mod resolve;
pub mod laws;
pub mod args;
pub mod sources;
pub mod naming;
pub mod provider;
