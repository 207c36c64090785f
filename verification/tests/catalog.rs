use mcp_tasks::errors::CoreError;
use mcp_tasks::json::{parse_json, render_to_string, JsonValue};
use mcp_tasks::mcp_client::{tools_from_result, Tool};
use mcp_tasks::tooling::{
    arguments_value, create_mcp_tool_definitions, create_task_tools, generic_invoke_parts,
    mcp_invoke_tool, normalize_schema, route_tool_call, shape_tool_result, task_tool_arguments,
    unknown_tool_error, ToolRoute,
};

#[test]
fn non_object_schema_is_replaced_not_dropped() {
    let schema = normalize_schema(Some(JsonValue::Text("not a schema".to_string())));
    assert_eq!(
        render_to_string(&schema),
        "{\"type\":\"object\",\"properties\":{},\"required\":[]}"
    );
    let kept = normalize_schema(Some(parse_json("{\"type\":\"object\",\"x\":1}").unwrap()));
    assert_eq!(render_to_string(&kept), "{\"type\":\"object\",\"x\":1}");
    let missing = normalize_schema(None);
    assert_eq!(
        render_to_string(&missing),
        "{\"type\":\"object\",\"properties\":{},\"required\":[]}"
    );
}

#[test]
fn descriptor_with_bad_schema_still_enters_catalog() {
    let tools = vec![Tool {
        name: "odd".to_string(),
        description: None,
        input_schema: Some(JsonValue::Int(3)),
    }];
    let catalog = create_mcp_tool_definitions(tools);
    assert_eq!(catalog.len(), 2);
    assert_eq!(catalog[1].function.name, "mcp_odd");
    assert_eq!(catalog[1].function.description, "Invoke odd tool from MCP server");
    assert_eq!(
        render_to_string(&catalog[1].function.parameters),
        "{\"type\":\"object\",\"properties\":{},\"required\":[]}"
    );
}

#[test]
fn bare_tools_array_yields_prefixed_normalized_catalog() {
    let bare = parse_json(
        "[{\"name\":\"alpha\",\"description\":\"first\",\"inputSchema\":\"bogus\"},{\"name\":\"beta\",\"inputSchema\":{\"type\":\"object\",\"properties\":{\"q\":{\"type\":\"string\"}}}}]",
    )
    .unwrap();
    let tools = tools_from_result(bare).unwrap();
    let catalog = create_mcp_tool_definitions(tools);
    assert_eq!(catalog.len(), 3);
    assert_eq!(catalog[0].function.name, "mcp_invoke");
    assert_eq!(catalog[0].tool_type, "function");
    assert_eq!(catalog[1].function.name, "mcp_alpha");
    assert_eq!(catalog[1].function.description, "first");
    assert_eq!(
        render_to_string(&catalog[1].function.parameters),
        "{\"type\":\"object\",\"properties\":{},\"required\":[]}"
    );
    assert_eq!(catalog[2].function.name, "mcp_beta");
    assert_eq!(
        render_to_string(&catalog[2].function.parameters),
        "{\"properties\":{\"q\":{\"type\":\"string\"}},\"type\":\"object\"}"
    );
}

#[test]
fn builtin_tools_are_fixed() {
    let builtins = create_task_tools();
    assert_eq!(builtins.len(), 3);
    assert_eq!(builtins[0].function.name, "list_tasks");
    assert_eq!(builtins[1].function.name, "get_task");
    assert_eq!(builtins[2].function.name, "task_stats");
    let invoke = mcp_invoke_tool();
    assert_eq!(invoke.function.name, "mcp_invoke");
    assert_eq!(invoke.tool_type, "function");
}

#[test]
fn routing_follows_the_fixed_order() {
    assert!(matches!(route_tool_call("mcp_invoke"), ToolRoute::GenericInvoke));
    match route_tool_call("list_tasks") {
        ToolRoute::TaskTool(n) => assert_eq!(n, "list_tasks"),
        _ => panic!("builtins dispatch by exact name"),
    }
    match route_tool_call("mcp_weather") {
        ToolRoute::Prefixed(n) => assert_eq!(n, "weather"),
        _ => panic!("prefixed names are stripped and forwarded"),
    }
    assert!(matches!(route_tool_call("bogus"), ToolRoute::Unknown));
    match unknown_tool_error("bogus") {
        CoreError::ToolNotFound(msg) => assert_eq!(msg, "Unknown tool: bogus"),
        _ => panic!("unknown tools are recoverable"),
    }
}

#[test]
fn unparsable_arguments_become_empty_object() {
    let v = arguments_value("{\"a\": 1}");
    assert_eq!(render_to_string(&v), "{\"a\":1}");
    let bad = arguments_value("{not json");
    assert_eq!(render_to_string(&bad), "{}");
}

#[test]
fn task_tool_arguments_filter_and_demand() {
    let args = parse_json(
        "{\"status\":\"open\",\"priority\":7,\"tag\":\"home\",\"junk\":true}",
    )
    .unwrap();
    let built = task_tool_arguments("list_tasks", &args).unwrap();
    assert_eq!(render_to_string(&built), "{\"status\":\"open\",\"tag\":\"home\"}");

    let missing = parse_json("{}").unwrap();
    match task_tool_arguments("get_task", &missing) {
        Err(CoreError::ToolExecutionError(msg)) => {
            assert_eq!(msg, "Missing 'id' argument for get_task");
        }
        _ => panic!("get_task demands an id"),
    }
    let with_id = parse_json("{\"id\":\"42\"}").unwrap();
    let built2 = task_tool_arguments("get_task", &with_id).unwrap();
    assert_eq!(render_to_string(&built2), "{\"id\":\"42\"}");

    let stats = task_tool_arguments("task_stats", &missing).unwrap();
    assert_eq!(render_to_string(&stats), "{}");

    match task_tool_arguments("other", &missing) {
        Err(CoreError::ToolNotFound(msg)) => assert_eq!(msg, "Unknown task tool: other"),
        _ => panic!("unknown task tools fail"),
    }
}

#[test]
fn generic_invoke_splits_its_arguments() {
    let args = parse_json(
        "{\"server\":\"todo\",\"tool\":\"list_tasks\",\"arguments\":{\"status\":\"open\"}}",
    )
    .unwrap();
    let (server, tool, forwarded) = generic_invoke_parts(args).unwrap();
    assert_eq!(server, "todo");
    assert_eq!(tool, "list_tasks");
    assert_eq!(render_to_string(&forwarded), "{\"status\":\"open\"}");

    let no_args = parse_json("{\"server\":\"todo\",\"tool\":\"x\"}").unwrap();
    let (_, _, forwarded2) = generic_invoke_parts(no_args).unwrap();
    assert_eq!(render_to_string(&forwarded2), "{}");

    let missing = parse_json("{\"tool\":\"x\"}").unwrap();
    match generic_invoke_parts(missing) {
        Err(CoreError::ToolExecutionError(msg)) => assert_eq!(msg, "Missing 'server' argument"),
        _ => panic!("the server argument is required"),
    }
}

#[test]
fn tool_results_are_flattened() {
    let result = parse_json(
        "{\"content\":[{\"type\":\"text\",\"text\":\"{\\\"n\\\":1}\"}]}",
    )
    .unwrap();
    let shaped = shape_tool_result("list_tasks", result);
    assert_eq!(
        render_to_string(&shaped),
        "{\"content\":{\"n\":1},\"tool_name\":\"list_tasks\",\"success\":true}"
    );

    let plain = parse_json("{\"content\":[{\"type\":\"text\",\"text\":\"hello\"}]}").unwrap();
    let shaped2 = shape_tool_result("t", plain);
    assert_eq!(
        render_to_string(&shaped2),
        "{\"content\":{\"text\":\"hello\",\"type\":\"text\"},\"tool_name\":\"t\",\"success\":true}"
    );

    let failing = parse_json(
        "{\"content\":[{\"type\":\"text\",\"text\":\"a\"},{\"type\":\"image\",\"data\":\"zz\"}],\"isError\":true}",
    )
    .unwrap();
    let shaped3 = shape_tool_result("t", failing);
    assert_eq!(
        render_to_string(&shaped3),
        "{\"content\":[{\"text\":\"a\",\"type\":\"text\"},{\"data\":\"zz\",\"mime_type\":null,\"type\":\"image\"}],\"tool_name\":\"t\",\"success\":false,\"error\":\"Tool execution reported an error\"}"
    );

    let empty = parse_json("{}").unwrap();
    let shaped4 = shape_tool_result("t", empty);
    assert_eq!(render_to_string(&shaped4), "{\"tool_name\":\"t\",\"success\":true}");
}

#[test]
fn media_and_resource_items_are_rekeyed() {
    let result = parse_json(
        "{\"content\":[{\"type\":\"audio\",\"data\":\"qq\",\"mimeType\":\"audio/wav\"},{\"type\":\"resource\",\"resource\":{\"uri\":\"file:x\"}},{\"type\":\"sculpture\"}]}",
    )
    .unwrap();
    let shaped = shape_tool_result("t", result);
    assert_eq!(
        render_to_string(&shaped),
        "{\"content\":[{\"data\":\"qq\",\"mime_type\":\"audio/wav\",\"type\":\"audio\"},{\"resource\":{\"uri\":\"file:x\"},\"type\":\"resource\"},{\"type\":\"sculpture\"}],\"tool_name\":\"t\",\"success\":true}"
    );
}

#[test]
fn failed_tool_calls_become_structured_payloads() {
    let payload = mcp_tasks::tooling::tool_failure_payload("Unknown tool: bogus");
    assert_eq!(
        render_to_string(&payload),
        "{\"error\":\"Unknown tool: bogus\",\"success\":false}"
    );
}
