//! Backend capability composition engine for an email client.
//!
//! A command declares which abstract email operations it needs; the engine
//! resolves, per operation, which protocol backend is configured to serve
//! it, constructs at most one context per backend kind, binds capabilities
//! to contexts through a registry of compiled-in implementations, and yields
//! an immutable `Backend` facade that either delegates an operation or
//! reports it unavailable.

pub mod attachment;
pub mod backend;
pub mod builder;
pub mod config;
pub mod context;
pub mod envelope;
pub mod error;
pub mod flag;
pub mod folder;
pub mod kind;
pub mod registry;
pub mod template;
