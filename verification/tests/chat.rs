use mcp_tasks::errors::CoreError;
use mcp_tasks::json::render_to_string;
use mcp_tasks::tooling::{
    chat_request_value, chat_response_from_text, ChatRequest, ChatResponse, Choice, Message,
    ResponseMessage, ToolCall, ToolCallFunction,
};
use mcp_tasks::deepseek_client::{deepseek_model, ChatLoop, ChatStep};

fn call(id: &str, name: &str, arguments: &str) -> ToolCall {
    ToolCall {
        id: id.to_string(),
        call_type: None,
        function: ToolCallFunction {
            name: name.to_string(),
            arguments: arguments.to_string(),
        },
    }
}

fn reply_with_calls(calls: Vec<ToolCall>) -> ChatResponse {
    ChatResponse {
        choices: vec![Choice {
            message: ResponseMessage { content: None, tool_calls: Some(calls) },
        }],
    }
}

fn reply_with_content(content: &str) -> ChatResponse {
    ChatResponse {
        choices: vec![Choice {
            message: ResponseMessage {
                content: Some(content.to_string()),
                tool_calls: None,
            },
        }],
    }
}

#[test]
fn two_calls_then_answer_counts_two() {
    let mut run = ChatLoop::start("look at my tasks");
    assert_eq!(run.messages.len(), 2);
    assert_eq!(run.messages[0].role, "system");
    assert_eq!(run.messages[1].role, "user");
    assert!(run.can_request());

    let step = run
        .on_endpoint_response(reply_with_calls(vec![
            call("c1", "list_tasks", "{}"),
            call("c2", "get_task", "{\"id\":\"1\"}"),
        ]))
        .unwrap();
    let calls = match step {
        ChatStep::RunTools(calls) => calls,
        ChatStep::Done(_) => panic!("the first reply carries tool calls"),
    };
    assert_eq!(calls.len(), 2);
    assert_eq!(run.tool_calls_made, 2);
    let recorded = run.messages.last().unwrap();
    assert_eq!(recorded.role, "assistant");
    let normalized = recorded.tool_calls.as_ref().unwrap();
    assert_eq!(normalized[0].call_type.as_deref(), Some("function"));

    run.record_tool_result("c1", "{\"ok\":true}");
    run.record_tool_result("c2", "{\"ok\":true}");
    assert_eq!(run.messages.last().unwrap().role, "tool");
    assert_eq!(run.messages.last().unwrap().tool_call_id.as_deref(), Some("c2"));

    let step2 = run.on_endpoint_response(reply_with_content("all done")).unwrap();
    match step2 {
        ChatStep::Done(answer) => assert_eq!(answer, "all done"),
        ChatStep::RunTools(_) => panic!("the second reply is final"),
    }
    assert_eq!(run.tool_calls_made, 2);
    assert_eq!(run.messages.last().unwrap().content, "all done");
}

#[test]
fn loop_exhausts_after_five_rounds() {
    let mut run = ChatLoop::start("busy");
    for i in 0..5 {
        assert!(run.can_request());
        let step = run
            .on_endpoint_response(reply_with_calls(vec![call("x", "list_tasks", "{}")]))
            .unwrap();
        assert!(matches!(step, ChatStep::RunTools(_)));
        run.record_tool_result("x", "{}");
        assert_eq!(run.tool_calls_made, (i + 1) as u64);
    }
    assert!(!run.can_request());
    assert_eq!(run.tool_calls_made, 5);
    assert_eq!(
        run.exhausted_message(),
        "Analysis completed with maximum tool call iterations reached."
    );
}

#[test]
fn empty_choice_list_is_fatal() {
    let mut run = ChatLoop::start("hi");
    match run.on_endpoint_response(ChatResponse { choices: Vec::new() }) {
        Err(CoreError::EndpointError(msg)) => {
            assert_eq!(msg, "No response choices returned from DeepSeek API");
        }
        _ => panic!("a reply without choices is fatal"),
    }
}

#[test]
fn chat_request_renders_the_wire_shape() {
    let req = ChatRequest {
        model: deepseek_model(),
        messages: vec![
            Message {
                role: "system".to_string(),
                content: "s".to_string(),
                tool_call_id: None,
                tool_calls: None,
            },
            Message {
                role: "tool".to_string(),
                content: "{}".to_string(),
                tool_call_id: Some("c1".to_string()),
                tool_calls: None,
            },
        ],
        tools: None,
        tool_choice: Some("auto".to_string()),
        temperature_tenths: 7,
        max_tokens: 4000,
    };
    let v = chat_request_value(req);
    assert_eq!(
        render_to_string(&v),
        "{\"model\":\"deepseek-chat\",\"messages\":[{\"role\":\"system\",\"content\":\"s\"},{\"role\":\"tool\",\"content\":\"{}\",\"tool_call_id\":\"c1\"}],\"tool_choice\":\"auto\",\"temperature\":0.7,\"max_tokens\":4000}"
    );
}

#[test]
fn default_request_pins_the_fixed_parameters() {
    let run = ChatLoop::start("u");
    let req = mcp_tasks::deepseek_client::default_chat_request(
        deepseek_model(),
        run.messages,
        Vec::new(),
    );
    assert_eq!(req.model, "deepseek-chat");
    assert_eq!(req.messages.len(), 2);
    assert_eq!(req.tool_choice.as_deref(), Some("auto"));
    assert_eq!(req.temperature_tenths, 7);
    assert_eq!(req.max_tokens, 4000);
    let v = chat_request_value(req);
    let text = render_to_string(&v);
    assert!(text.contains("\"tools\":[]"));
    assert!(text.ends_with("\"tool_choice\":\"auto\",\"temperature\":0.7,\"max_tokens\":4000}"));
}

#[test]
fn chat_response_parses_from_body_text() {
    let body = "{\"choices\":[{\"message\":{\"content\":null,\"tool_calls\":[{\"id\":\"a\",\"type\":\"function\",\"function\":{\"name\":\"mcp_x\",\"arguments\":\"{}\"}}]}}]}";
    let resp = chat_response_from_text(body).unwrap();
    assert_eq!(resp.choices.len(), 1);
    let msg = &resp.choices[0].message;
    assert!(msg.content.is_none());
    let calls = msg.tool_calls.as_ref().unwrap();
    assert_eq!(calls[0].id, "a");
    assert_eq!(calls[0].call_type.as_deref(), Some("function"));
    assert_eq!(calls[0].function.name, "mcp_x");

    match chat_response_from_text("{\"nope\":1}") {
        Err(CoreError::EndpointError(msg)) => {
            assert_eq!(msg, "Failed to parse DeepSeek API response");
        }
        _ => panic!("a shapeless body is an endpoint failure"),
    }
}
