//! Verified core of a command-line client for the MCP server of Paper Desktop.

pub mod cli;
pub mod context;
pub mod json;
pub mod mcp;
pub mod output;
pub mod record;
pub mod results;
pub mod sse;
pub mod text;
pub mod upgrade;
