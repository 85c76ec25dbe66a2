//! Core logic of a browser voice-assistant: conversation agent, model
//! catalogue, inference-engine state, the integer skeleton of the audio
//! feature-extraction pipeline, and the MCP (Model Context Protocol)
//! client/server data model.

pub mod agent;
pub mod audio;
pub mod inference;
pub mod json;
pub mod llm;
pub mod mcp_client;
pub mod mcp_server;
pub mod mcp_types;
pub mod models;
pub mod types;
pub mod whisper;
