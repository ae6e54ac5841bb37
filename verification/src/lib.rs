//! An MCP server that lets a model control an aMule instance: it answers
//! JSON-RPC 2.0 requests and turns tool calls into `amulecmd` commands.
//!
//! - `json`: the JSON documents that requests and responses are made of;
//! - `text`: character-level string operations;
//! - `validate`: the checks on download links and priorities;
//! - `request`: reading the fields of a tool call;
//! - `response`: the JSON-RPC responses;
//! - `catalog`: the server's identity and the tools it offers;
//! - `server`: what each request comes to, and which command a tool call runs;
//! - `laws`: properties of the server as a whole;
//! - `tool_laws`: what each tool call comes to, over the request's fields;
//! - `catalog_laws`: what `tools/list` announces of each tool;
//! - `message_laws`: how requests are read and what responses hold.
#[allow(unused_imports)]
use vstd::prelude::*;

pub mod catalog;
pub mod catalog_laws;
pub mod json;
pub mod laws;
pub mod message_laws;
pub mod request;
pub mod response;
pub mod server;
pub mod text;
pub mod tool_laws;
pub mod validate;
