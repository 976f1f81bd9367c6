//! The interfaces: the shapes of tool parameters and the decisions the tool
//! server and dashboard make around the application layer.
pub mod dashboard;
pub mod mcp;
