//! The tool protocol: JSON-RPC 2.0 over line-delimited standard input and
//! output, exposing session control as a small fixed catalog of named tools.
//!
//! `types` holds the protocol's data shapes, their JSON renderings and the
//! validation of tool arguments; `tools` the static catalog; `server` the
//! request dispatch, each tool call's plan and the rendering of its reply.

pub mod server;
pub mod tools;
pub mod types;
