//! A pseudo-terminal session multiplexer with a cross-process control plane.
//!
//! The library holds the logic of the system: the bounded retained-output
//! buffer, the session registry, the single-slot control-request correlation,
//! the JSON-RPC tool protocol, and the text parsers for the shell-out
//! integrations.  The process edges (pty devices, sockets, standard input and
//! output, the credential store) live outside it and hand it plain values.

pub mod buffer;
pub mod control;
pub mod docker;
pub mod git;
pub mod json;
pub mod json_text;
pub mod mcp;
pub mod pump;
pub mod registry;
pub mod shell;
pub mod slot;
pub mod sshconfig;
pub mod text;
pub mod wsl;
