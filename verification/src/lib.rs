//! Server-side protocol layer for a remote network-driver plugin.
//!
//! A container orchestrator invokes the driver over a local transport: each
//! call carries an operation path and a JSON body.  This crate provides the
//! verified wire-schema layer (decoding each operation's request type from
//! JSON text and encoding each response type back to JSON text) and the
//! dispatcher that routes a (path, body) pair to the matching operation of a
//! pluggable driver implementation.

pub mod decode;
pub mod dispatch;
pub mod encode;
pub mod json;
pub mod laws;
pub mod schema;
pub mod text;
