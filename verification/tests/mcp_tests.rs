//! Tests for the MCP layer: the built-in servers, the client's state
//! machine, request ids and reply digestion.

use jarvis::mcp_client::next_request_id;
use jarvis::mcp_client::McpClient;
use jarvis::mcp_server::CameraServer;
use jarvis::mcp_server::MemoriesServer;
use jarvis::mcp_types::McpError;
use jarvis::mcp_types::McpPrompt;
use jarvis::mcp_types::McpRequest;
use jarvis::mcp_types::McpResource;
use jarvis::mcp_types::McpResponse;
use jarvis::mcp_types::McpServerConfig;
use jarvis::mcp_types::McpTool;

fn test_config() -> McpServerConfig {
    McpServerConfig {
        name: "test".to_string(),
        url: Some("http://localhost:3000".to_string()),
        server_type: None,
        active: true,
        active_tools: vec![],
        active_prompts: vec![],
    }
}

fn ok_response(result: Option<serde_json::Value>) -> McpResponse {
    McpResponse {
        jsonrpc: "2.0".to_string(),
        id: "1".to_string(),
        result,
        error: None,
    }
}

fn error_response(message: &str) -> McpResponse {
    McpResponse {
        jsonrpc: "2.0".to_string(),
        id: "1".to_string(),
        result: None,
        error: Some(McpError { code: -32600, message: message.to_string(), data: None }),
    }
}

#[test]
fn test_memories_server() {
    let mut server = MemoriesServer::new();
    server.store("Test memory".to_string());
    assert_eq!(server.retrieve().len(), 1);
    server.clear();
    assert_eq!(server.retrieve().len(), 0);
}

#[test]
fn memories_keep_order() {
    let mut server = MemoriesServer::new();
    server.store("first".to_string());
    server.store("second".to_string());
    assert_eq!(
        server.retrieve().to_vec(),
        vec!["first".to_string(), "second".to_string()]
    );
}

#[test]
fn camera_is_unavailable() {
    let server = CameraServer::new();
    assert_eq!(
        server.take_picture(),
        Err("Camera capture not yet implemented".to_string())
    );
}

#[test]
fn test_request_id_generator() {
    let mut counter: u64 = 1;
    let id1 = next_request_id(&mut counter);
    let id2 = next_request_id(&mut counter);
    assert_ne!(id1, id2);
}

#[test]
fn request_ids_count_up_in_decimal() {
    let mut counter: u64 = 8;
    assert_eq!(next_request_id(&mut counter), "8");
    assert_eq!(next_request_id(&mut counter), "9");
    assert_eq!(next_request_id(&mut counter), "10");
    assert_eq!(counter, 11);
    let mut large: u64 = 1234567890123456789;
    assert_eq!(next_request_id(&mut large), "1234567890123456789");
}

#[test]
fn test_client_creation() {
    let config = test_config();
    let client = McpClient::new(config);
    assert!(!client.is_connected());
}

#[test]
fn connect_precheck_needs_a_url() {
    let client = McpClient::new(test_config());
    assert_eq!(
        client.connect_precheck(),
        Ok("http://localhost:3000".to_string())
    );
    let mut config = test_config();
    config.url = None;
    let client = McpClient::new(config);
    assert_eq!(
        client.connect_precheck(),
        Err("Server URL not configured".to_string())
    );
}

#[test]
fn connect_outcome_transitions() {
    let mut client = McpClient::new(test_config());
    let r = client.connect_outcome(Err("refused".to_string()));
    assert_eq!(r, Err("Connection failed: refused".to_string()));
    assert!(!client.is_connected());

    let r = client.connect_outcome(Ok(error_response("bad handshake")));
    assert_eq!(r, Err("Server error: bad handshake".to_string()));
    assert!(!client.is_connected());

    let r = client.connect_outcome(Ok(ok_response(None)));
    assert_eq!(r, Ok(()));
    assert!(client.is_connected());

    client.disconnect();
    assert!(!client.is_connected());
}

#[test]
fn listing_needs_a_connection() {
    let mut client = McpClient::new(test_config());
    assert_eq!(
        client.list_tools().unwrap_err(),
        "Not connected to server".to_string()
    );
    assert_eq!(
        client.list_resources().unwrap_err(),
        "Not connected to server".to_string()
    );
    assert_eq!(
        client.list_prompts().unwrap_err(),
        "Not connected to server".to_string()
    );
    assert!(client.check_connected().is_err());

    client.connect_outcome(Ok(ok_response(None))).unwrap();
    client.set_tools(vec![McpTool {
        name: "echo".to_string(),
        description: "repeats".to_string(),
        input_schema: serde_json::Value::Null,
    }]);
    client.set_resources(vec![McpResource {
        uri: "mem://0".to_string(),
        name: "memory".to_string(),
        description: None,
        mime_type: Some("text/plain".to_string()),
    }]);
    client.set_prompts(vec![McpPrompt {
        name: "greet".to_string(),
        description: Some("say hello".to_string()),
        arguments: vec![],
    }]);

    let tools = client.list_tools().unwrap();
    assert_eq!(tools.len(), 1);
    assert_eq!(tools[0].name, "echo");
    let resources = client.list_resources().unwrap();
    assert_eq!(resources[0].uri, "mem://0");
    let prompts = client.list_prompts().unwrap();
    assert_eq!(prompts[0].name, "greet");
    assert!(client.check_connected().is_ok());
}

#[test]
fn request_envelope() {
    let request = McpRequest::new("7".to_string(), "tools/list".to_string(), None);
    assert_eq!(request.jsonrpc, "2.0");
    assert_eq!(request.id, "7");
    assert_eq!(request.method, "tools/list");
    assert!(request.params.is_none());
}

#[test]
fn tool_call_outcomes() {
    let r = McpClient::tool_call_outcome(Err("timeout".to_string()));
    assert!(!r.success);
    assert_eq!(r.result, "");
    assert_eq!(r.error, Some("timeout".to_string()));

    let r = McpClient::tool_call_outcome(Ok(error_response("unknown tool")));
    assert!(!r.success);
    assert_eq!(r.result, "");
    assert_eq!(r.error, Some("unknown tool".to_string()));

    // The successful result is the JSON text of the reply's payload: a
    // handed-back unserialized value would not carry the quotes.
    let payload = serde_json::Value::String("done".to_string());
    let r = McpClient::tool_call_outcome(Ok(ok_response(Some(payload))));
    assert!(r.success);
    assert_eq!(r.result, "\"done\"");
    assert_eq!(r.error, None);

    let r = McpClient::tool_call_outcome(Ok(ok_response(None)));
    assert!(r.success);
    assert_eq!(r.result, "");
    assert_eq!(r.error, None);
}

#[test]
fn prompt_and_resource_outcomes() {
    let r = McpClient::get_prompt_outcome(Err("down".to_string()));
    assert_eq!(r, Err("down".to_string()));
    let r = McpClient::get_prompt_outcome(Ok(error_response("no prompt")));
    assert_eq!(r, Err("no prompt".to_string()));
    let r = McpClient::get_prompt_outcome(Ok(ok_response(None)));
    assert_eq!(r, Err("No result in response".to_string()));
    let payload = serde_json::Value::Bool(true);
    let r = McpClient::get_prompt_outcome(Ok(ok_response(Some(payload))));
    assert_eq!(r, Ok("true".to_string()));

    let err = McpError { code: -1, message: "denied".to_string(), data: None };
    let r = McpClient::read_resource_outcome(Some(err), Some("text".to_string()));
    assert_eq!(r, Err("denied".to_string()));
    let r = McpClient::read_resource_outcome(None, None);
    assert_eq!(r, Err("No content in response".to_string()));
    let r = McpClient::read_resource_outcome(None, Some("[1,2]".to_string()));
    assert_eq!(r, Ok("[1,2]".to_string()));
}
