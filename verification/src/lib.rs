//! Reusable surface for exposing one command implementation both as CLI JSON
//! output and as a Model Context Protocol (MCP) stdio server.
//!
//! Consumers provide tools, each with metadata and a handler; this crate
//! provides the stable success/error envelopes, tool registration and
//! dispatch, JSON-RPC request handling (single requests and batches), protocol
//! version negotiation and the newline-delimited framing of the stdio
//! transport.

pub mod envelope;
pub mod error;
pub mod framing;
pub mod json;
pub mod json_text;
pub mod laws;
pub mod mismatch;
pub mod protocol;
pub mod tools;

pub use envelope::{
    envelope_from_result, envelope_from_result_ref, EnvelopeMeta, ErrorCategory, JsonEnvelope,
    JsonError, StructuredError, JSON_SCHEMA_VERSION,
};
pub use error::McpCliError;
pub use framing::{ProtocolFrame, DEFAULT_MAX_FRAME_BYTES};
pub use json::{JsonNumber, JsonValue};
pub use protocol::{McpServer, StdioServerConfig};
pub use tools::{Tool, ToolMetadata, ToolRouter};
