use mcp_tasks::errors::CoreError;
use mcp_tasks::json::{parse_json, render_to_string, JsonValue};
use mcp_tasks::mcp_client::{
    accept_response, empty_response_failure, response_from_json, response_line_is_empty,
    JsonRpcError, JsonRpcRequest, JsonRpcResponse, McpClient,
};

fn ready_client() -> McpClient {
    let mut client = McpClient::new();
    let init_line = client.begin_initialize();
    assert!(init_line.starts_with("{\"jsonrpc\":\"2.0\",\"id\":\"1\",\"method\":\"initialize\""));
    let resp = JsonRpcResponse {
        jsonrpc: "2.0".to_string(),
        id: "1".to_string(),
        result: Some(JsonValue::Obj(Vec::new())),
        error: None,
    };
    let notification = client.finish_initialize(&resp).expect("handshake should succeed");
    assert_eq!(notification, "{\"jsonrpc\":\"2.0\",\"method\":\"initialized\"}");
    assert!(client.is_initialized());
    client
}

#[test]
fn initialize_frame_is_exact() {
    let mut client = McpClient::new();
    let line = client.begin_initialize();
    assert_eq!(
        line,
        "{\"jsonrpc\":\"2.0\",\"id\":\"1\",\"method\":\"initialize\",\"params\":{\"protocolVersion\":\"2024-11-05\",\"capabilities\":{\"roots\":null,\"sampling\":null},\"clientInfo\":{\"name\":\"mcp-tasks\",\"version\":\"0.1.0\"}}}"
    );
}

#[test]
fn handshake_failure_is_fatal() {
    let mut client = McpClient::new();
    let _ = client.begin_initialize();
    let resp = JsonRpcResponse {
        jsonrpc: "2.0".to_string(),
        id: "1".to_string(),
        result: None,
        error: Some(JsonRpcError {
            code: -32000,
            message: "nope".to_string(),
            data: None,
        }),
    };
    match client.finish_initialize(&resp) {
        Err(CoreError::HandshakeFailed(msg)) => {
            assert_eq!(msg, "MCP initialization failed: nope");
        }
        other => panic!("expected handshake failure, got {:?}", other.is_ok()),
    }
    assert!(!client.is_initialized());
}

#[test]
fn operations_require_completed_handshake() {
    let mut client = McpClient::new();
    let args = JsonValue::Obj(Vec::new());
    match client.call_tool_request("list_tasks", &args) {
        Err(CoreError::ProtocolViolation(msg)) => {
            assert_eq!(msg, "MCP client is not initialized");
        }
        _ => panic!("call_tool must be rejected before the handshake"),
    }
    match client.list_tools_request() {
        Err(CoreError::ProtocolViolation(msg)) => {
            assert_eq!(msg, "MCP client is not initialized");
        }
        _ => panic!("list_tools must be rejected before the handshake"),
    }
}

#[test]
fn request_ids_increase_and_frames_are_exact() {
    let mut client = ready_client();
    let args = JsonValue::Obj(Vec::new());
    let (id, line) = client.call_tool_request("list_tasks", &args).unwrap();
    assert_eq!(id, "2");
    assert_eq!(
        line,
        "{\"jsonrpc\":\"2.0\",\"id\":\"2\",\"method\":\"tools/call\",\"params\":{\"name\":\"list_tasks\",\"arguments\":{}}}"
    );
    let (id2, line2) = client.list_tools_request().unwrap();
    assert_eq!(id2, "3");
    assert_eq!(
        line2,
        "{\"jsonrpc\":\"2.0\",\"id\":\"3\",\"method\":\"tools/list\",\"params\":{}}"
    );
}

#[test]
fn accepted_response_echoes_assigned_id() {
    let line = "{\"jsonrpc\":\"2.0\",\"id\":\"7\",\"result\":{\"ok\":true}}";
    let resp = accept_response(line, "7").expect("matching id must be accepted");
    assert_eq!(resp.id, "7");
    assert!(resp.result.is_some());
    assert!(resp.error.is_none());
}

#[test]
fn mismatched_id_is_rejected_before_any_result() {
    let line = "{\"jsonrpc\":\"2.0\",\"id\":\"8\",\"result\":{}}";
    match accept_response(line, "7") {
        Err(CoreError::ProtocolViolation(msg)) => {
            assert_eq!(msg, "Response ID mismatch: expected 7, got 8");
        }
        _ => panic!("an id mismatch must be a fatal protocol violation"),
    }
}

#[test]
fn malformed_line_reports_offending_text() {
    match accept_response("not json at all", "1") {
        Err(CoreError::ProtocolViolation(msg)) => {
            assert_eq!(msg, "Failed to parse JSON-RPC response: not json at all");
        }
        _ => panic!("malformed frames must be parse failures"),
    }
}

#[test]
fn envelope_reads_error_object() {
    let v = parse_json("{\"jsonrpc\":\"2.0\",\"id\":\"1\",\"error\":{\"code\":-32601,\"message\":\"no such method\"}}")
        .unwrap();
    let resp = response_from_json(v).unwrap();
    assert!(resp.result.is_none());
    let err = resp.error.unwrap();
    assert_eq!(err.code, -32601);
    assert_eq!(err.message, "no such method");
    assert!(err.data.is_none());
}

#[test]
fn empty_line_triggers_stderr_diagnosis() {
    assert!(response_line_is_empty("   \n"));
    assert!(response_line_is_empty(""));
    assert!(!response_line_is_empty("{}"));
    match empty_response_failure(" server exploded \n") {
        CoreError::TransportIo(msg) => {
            assert_eq!(msg, "Empty response from MCP server. Server error: server exploded");
        }
        _ => panic!("expected a transport failure"),
    }
    match empty_response_failure("  \n") {
        CoreError::TransportIo(msg) => {
            assert_eq!(msg, "Empty response from MCP server");
        }
        _ => panic!("expected a transport failure"),
    }
}

#[test]
fn render_request_writes_null_params() {
    let req = JsonRpcRequest {
        jsonrpc: "2.0".to_string(),
        id: "4".to_string(),
        method: "ping".to_string(),
        params: None,
    };
    let line = mcp_tasks::mcp_client::render_request(&req);
    assert_eq!(
        line,
        "{\"jsonrpc\":\"2.0\",\"id\":\"4\",\"method\":\"ping\",\"params\":null}"
    );
}

#[test]
fn notifications_render_with_and_without_params() {
    let bare = mcp_tasks::mcp_client::render_notification("initialized", None);
    assert_eq!(bare, "{\"jsonrpc\":\"2.0\",\"method\":\"initialized\"}");
    let params = JsonValue::Obj(vec![("n".to_string(), JsonValue::Int(1))]);
    let with = mcp_tasks::mcp_client::render_notification("progress", Some(&params));
    assert_eq!(
        with,
        "{\"jsonrpc\":\"2.0\",\"method\":\"progress\",\"params\":{\"n\":1}}"
    );
}

#[test]
fn renderer_escapes_and_parser_round_trips() {
    let v = JsonValue::Obj(vec![
        ("a\"b".to_string(), JsonValue::Text("line\nbreak\\".to_string())),
        ("n".to_string(), JsonValue::Int(-42)),
        ("x".to_string(), JsonValue::Arr(vec![JsonValue::Bool(true), JsonValue::Null])),
    ]);
    let text = render_to_string(&v);
    assert_eq!(
        text,
        "{\"a\\\"b\":\"line\\u000abreak\\\\\",\"n\":-42,\"x\":[true,null]}"
    );
    let back = parse_json(&text).expect("rendered JSON must parse");
    let again = render_to_string(&back);
    assert_eq!(text, again);
}
