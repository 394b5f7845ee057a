//! Verified core of an MCP (Model Context Protocol) server for the Godot engine.
pub mod bridge;
pub mod cli_runner;
pub mod config;
pub mod error;
pub mod json;
pub mod protocol;
pub mod server;
pub mod text;
pub mod tools;
