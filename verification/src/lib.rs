//! A request-presigning customization layer.
//!
//! The crate turns a generic, hook-driven request pipeline into one that
//! produces a self-contained, time-limited, query-parameter-signed request:
//!
//! - [`interceptor::PresigningInterceptor`] mutates shared per-call
//!   configuration at two fixed extension points (before serialization and
//!   before signing) so the eventual signing step places the signature in
//!   query parameters and bounds its validity window.
//! - [`plugin::PresigningPlugin`] assembles the component overrides a
//!   presign operation needs: the interceptor itself, a clock frozen at the
//!   configured start time, a never-retry policy, and a configuration layer
//!   that disables ambient request-decorating interceptors.
//! - [`store`] holds the type-indexed, layered configuration store the
//!   pipeline stages communicate through.

pub mod body;
pub mod config;
pub mod error;
pub mod interceptor;
pub mod plugin;
pub mod settings;
pub mod signing;
pub mod store;
