use mcp_tasks::errors::CoreError;
use mcp_tasks::json::parse_json;
use mcp_tasks::mcp_client::{
    task_list_from_result, tasks_from_response, tasks_from_result, tools_from_result,
    JsonRpcResponse, McpClient, Task, TaskQuery,
};

fn task(status: &str, completed_at: Option<&str>) -> Task {
    Task {
        id: "t1".to_string(),
        title: "a task".to_string(),
        description: None,
        status: status.to_string(),
        priority: None,
        due_date: None,
        created_at: "2024-01-01T00:00:00Z".to_string(),
        updated_at: None,
        completed_at: completed_at.map(|s| s.to_string()),
        tags: None,
    }
}

#[test]
fn classification_is_the_fixed_three_way_policy() {
    let client = McpClient::new();
    assert!(!client.is_task_unfinished(&task("Completed", None)));
    assert!(client.is_task_unfinished(&task("PENDING", None)));
    assert!(client.is_task_unfinished(&task("weird_custom", None)));
    assert!(!client.is_task_unfinished(&task("weird_custom", Some("2024-01-02T00:00:00Z"))));
    assert!(!client.is_task_unfinished(&task("Done", None)));
    assert!(!client.is_task_unfinished(&task("RESOLVED", Some("x"))));
    assert!(client.is_task_unfinished(&task("In_Progress", Some("x"))));
    assert!(client.is_task_unfinished(&task("open", None)));
}

#[test]
fn unfinished_filter_keeps_order() {
    let client = McpClient::new();
    let tasks = vec![
        task("done", None),
        task("open", None),
        task("other", None),
        task("other", Some("ts")),
    ];
    let kept = client.get_unfinished_tasks(tasks);
    assert_eq!(kept.len(), 2);
    assert_eq!(kept[0].status, "open");
    assert_eq!(kept[1].status, "other");
    assert!(kept[1].completed_at.is_none());
}

#[test]
fn status_filter_is_case_insensitive() {
    let client = McpClient::new();
    let tasks = vec![
        task("Pending", None),
        task("done", None),
        task("PENDING", Some("x")),
    ];
    let kept = client.get_tasks_by_status(tasks, "pending");
    assert_eq!(kept.len(), 2);
    assert_eq!(kept[0].status, "Pending");
    assert_eq!(kept[1].status, "PENDING");
}

#[test]
fn structured_task_list_parses_first() {
    let v = parse_json(
        "{\"tasks\":[{\"id\":\"1\",\"title\":\"t\",\"status\":\"open\",\"created_at\":\"c\",\"tags\":[\"a\",\"b\"]}],\"total\":1,\"page\":2,\"page_size\":10}",
    )
    .unwrap();
    let tasks = tasks_from_result(&v).unwrap();
    assert_eq!(tasks.len(), 1);
    assert_eq!(tasks[0].id, "1");
    assert_eq!(tasks[0].tags.as_ref().unwrap(), &vec!["a".to_string(), "b".to_string()]);
    let q = TaskQuery { page: None, page_size: None, status: None, priority: None, tag: None };
    let listing = task_list_from_result(&v, &q).unwrap();
    assert_eq!(listing.total, 1);
    assert_eq!(listing.page, 2);
    assert_eq!(listing.page_size, 10);
}

#[test]
fn bare_array_is_the_compatibility_fallback() {
    let v = parse_json(
        "[{\"id\":\"1\",\"title\":\"t\",\"status\":\"open\",\"created_at\":\"c\",\"description\":null}]",
    )
    .unwrap();
    let tasks = tasks_from_result(&v).unwrap();
    assert_eq!(tasks.len(), 1);
    assert!(tasks[0].description.is_none());
    let q = TaskQuery {
        page: Some(3),
        page_size: None,
        status: None,
        priority: None,
        tag: None,
    };
    let listing = task_list_from_result(&v, &q).unwrap();
    assert_eq!(listing.total, 1);
    assert_eq!(listing.page, 3);
    assert_eq!(listing.page_size, 1);
}

#[test]
fn neither_shape_is_a_parse_failure() {
    let v = parse_json("{\"unexpected\":true}").unwrap();
    match tasks_from_result(&v) {
        Err(CoreError::ProtocolViolation(msg)) => {
            assert_eq!(msg, "Failed to parse tasks response from MCP server");
        }
        _ => panic!("expected a parse failure"),
    }
}

#[test]
fn missing_result_surfaces_server_error() {
    let resp = JsonRpcResponse {
        jsonrpc: "2.0".to_string(),
        id: "1".to_string(),
        result: None,
        error: Some(mcp_tasks::mcp_client::JsonRpcError {
            code: 1,
            message: "boom".to_string(),
            data: None,
        }),
    };
    match tasks_from_response(&resp) {
        Err(CoreError::ToolExecutionError(msg)) => {
            assert_eq!(msg, "Failed to get tasks: boom");
        }
        _ => panic!("expected the server-reported failure"),
    }
}

#[test]
fn tools_parse_in_both_shapes() {
    let bare = parse_json(
        "[{\"name\":\"alpha\",\"description\":\"first\"},{\"name\":\"beta\",\"inputSchema\":{\"type\":\"object\"}}]",
    )
    .unwrap();
    let tools = tools_from_result(bare).unwrap();
    assert_eq!(tools.len(), 2);
    assert_eq!(tools[0].name, "alpha");
    assert_eq!(tools[0].description.as_deref(), Some("first"));
    assert!(tools[0].input_schema.is_none());
    assert_eq!(tools[1].name, "beta");
    assert!(tools[1].input_schema.is_some());

    let structured = parse_json("{\"tools\":[{\"name\":\"gamma\"}]}").unwrap();
    let tools2 = tools_from_result(structured).unwrap();
    assert_eq!(tools2.len(), 1);
    assert_eq!(tools2[0].name, "gamma");

    let bad = parse_json("{\"nope\":1}").unwrap();
    match tools_from_result(bad) {
        Err(CoreError::ProtocolViolation(msg)) => {
            assert_eq!(msg, "Failed to parse tools response from MCP server");
        }
        _ => panic!("expected a parse failure"),
    }
}
