//! MCP (Model Context Protocol) data model: server configuration, the
//! capability records a server reports, protocol state and the JSON-RPC
//! request/response envelopes.

use std::collections::HashMap;
use vstd::prelude::*;

verus! {

/// MCP server configuration.
#[derive(Debug, Clone)]
pub struct McpServerConfig {
    pub name: String,
    pub url: Option<String>,
    pub server_type: Option<String>,
    pub active: bool,
    pub active_tools: Vec<String>,
    pub active_prompts: Vec<String>,
}

/// MCP tool definition.
#[derive(Debug)]
pub struct McpTool {
    pub name: String,
    pub description: String,
    pub input_schema: serde_json::Value,
}

impl Clone for McpTool {
    /// An exact copy, field by field.
    fn clone(&self) -> (r: Self)
        ensures
            r == *self,
    {
        McpTool {
            name: self.name.clone(),
            description: self.description.clone(),
            input_schema: self.input_schema.clone(),
        }
    }
}

/// MCP resource definition.
#[derive(Debug)]
pub struct McpResource {
    pub uri: String,
    pub name: String,
    pub description: Option<String>,
    pub mime_type: Option<String>,
}

impl Clone for McpResource {
    /// An exact copy, field by field.
    fn clone(&self) -> (r: Self)
        ensures
            r == *self,
    {
        McpResource {
            uri: self.uri.clone(),
            name: self.name.clone(),
            description: match &self.description {
                Some(d) => Some(d.clone()),
                None => None,
            },
            mime_type: match &self.mime_type {
                Some(m) => Some(m.clone()),
                None => None,
            },
        }
    }
}

/// MCP prompt argument.
#[derive(Debug)]
pub struct McpPromptArgument {
    pub name: String,
    pub description: Option<String>,
    pub required: bool,
}

impl Clone for McpPromptArgument {
    /// An exact copy, field by field.
    fn clone(&self) -> (r: Self)
        ensures
            r == *self,
    {
        McpPromptArgument {
            name: self.name.clone(),
            description: match &self.description {
                Some(d) => Some(d.clone()),
                None => None,
            },
            required: self.required,
        }
    }
}

/// MCP prompt definition.
#[derive(Debug)]
pub struct McpPrompt {
    pub name: String,
    pub description: Option<String>,
    pub arguments: Vec<McpPromptArgument>,
}

/// Field-wise equality of prompts, comparing the argument lists by their
/// contents.
pub open spec fn spec_prompt_eq(a: McpPrompt, b: McpPrompt) -> bool {
    &&& a.name == b.name
    &&& a.description == b.description
    &&& a.arguments@ == b.arguments@
}

impl Clone for McpPrompt {
    /// A copy that is field-wise equal; the argument vector holds the same
    /// entries.
    fn clone(&self) -> (r: Self)
        ensures
            spec_prompt_eq(r, *self),
    {
        let arguments = self.arguments.clone();
        proof {
            assert(arguments@ =~= self.arguments@);
        }
        McpPrompt {
            name: self.name.clone(),
            description: match &self.description {
                Some(d) => Some(d.clone()),
                None => None,
            },
            arguments,
        }
    }
}

/// Tool call result.
#[derive(Debug, Clone)]
pub struct ToolCallResult {
    pub success: bool,
    pub result: String,
    pub error: Option<String>,
}

/// MCP server state: whether the server is connected and the capabilities it
/// last reported.
#[derive(Debug)]
pub struct McpServerState {
    pub connected: bool,
    pub tools: Vec<McpTool>,
    pub resources: Vec<McpResource>,
    pub prompts: Vec<McpPrompt>,
}

/// A disconnected state: no connection and no reported capabilities.
pub open spec fn spec_disconnected(s: McpServerState) -> bool {
    &&& !s.connected
    &&& s.tools@ == Seq::<McpTool>::empty()
    &&& s.resources@ == Seq::<McpResource>::empty()
    &&& s.prompts@ == Seq::<McpPrompt>::empty()
}

impl McpServerState {
    /// Create a new disconnected state.
    pub fn disconnected() -> (r: Self)
        ensures
            spec_disconnected(r),
    {
        McpServerState {
            connected: false,
            tools: Vec::new(),
            resources: Vec::new(),
            prompts: Vec::new(),
        }
    }
}

/// JSON-RPC request envelope.
#[derive(Debug, Clone)]
pub struct McpRequest {
    pub jsonrpc: String,
    pub id: String,
    pub method: String,
    pub params: Option<serde_json::Value>,
}

impl McpRequest {
    /// Assemble a request envelope; the protocol version is always "2.0".
    pub fn new(id: String, method: String, params: Option<serde_json::Value>) -> (r: McpRequest)
        ensures
            r.jsonrpc@ == "2.0"@,
            r.id == id,
            r.method == method,
            r.params == params,
    {
        McpRequest { jsonrpc: "2.0".to_owned(), id, method, params }
    }
}

/// JSON-RPC response envelope.
#[derive(Debug, Clone)]
pub struct McpResponse {
    pub jsonrpc: String,
    pub id: String,
    pub result: Option<serde_json::Value>,
    pub error: Option<McpError>,
}

/// JSON-RPC error object.
#[derive(Debug, Clone)]
pub struct McpError {
    pub code: i32,
    pub message: String,
    pub data: Option<serde_json::Value>,
}

/// Tool call parameters.
#[derive(Debug, Clone)]
pub struct ToolCallParams {
    pub name: String,
    pub arguments: HashMap<String, serde_json::Value>,
}

} // verus!
