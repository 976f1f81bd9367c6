//! The MCP tool interface.
pub mod dto;
pub mod server;
