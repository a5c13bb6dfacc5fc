//! Building blocks for servers that expose a set of tools through a uniform
//! remote-invocation protocol.
//!
//! - [`tool`]: tools, and the normalisation of what they return into a text,
//!   a JSON object or an error;
//! - [`tool_box`]: the registry of the declared tools, with its catalog and
//!   the routing of a call to the tool it names;
//! - [`server`]: the configuration under construction, the handshake payload
//!   and the handler of the requests to list the tools and to call one;
//! - [`transport`]: the choice between the pipe and the network;
//! - [`cli`] and [`help`]: what a command line decides and shows;
//! - [`json`]: what is assumed of the JSON values of `serde_json`.
//!
//! The library decides and computes; awaiting, input and output are left to
//! its callers.

pub mod cli;
pub mod help;
pub mod json;
pub mod server;
pub mod server_config;
pub mod server_prelude;
pub mod tool;
pub mod tool_box;
pub mod tool_prelude;
pub mod transport;
