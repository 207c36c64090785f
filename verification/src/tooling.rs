//! The tool catalog bridge: translation between the server's tool
//! descriptors and the chat-completion tool dialect, and routing of
//! inbound tool-call names.

use vstd::prelude::*;

use crate::errors::{error_text, CoreError};
use crate::json::{
    is_object, json_get, json_of, obj_lookup, opt_val, parse_json, take_member, text_member,
    JsonValue,
};
use crate::mcp_client::Tool;
use crate::text::{chars_of, dec_digits, push_str_chars, push_u64, str_eq, string_from_chars};

verus! {

/// A chat-completion tool definition.
#[derive(Clone)]
pub struct ToolObject {
    pub tool_type: String,
    pub function: Function,
}

/// The function part of a chat-completion tool definition.
#[derive(Clone)]
pub struct Function {
    pub name: String,
    pub description: String,
    pub parameters: JsonValue,
}

/// The minimal empty-object schema substituted for a descriptor whose
/// schema is not a well-formed object schema.
pub open spec fn is_default_schema(v: JsonValue) -> bool {
    &&& v is Obj
    &&& v->Obj_0@.len() == 3
    &&& v->Obj_0@[0].0@ == "type"@
    &&& v->Obj_0@[0].1 is Text
    &&& v->Obj_0@[0].1->Text_0@ == "object"@
    &&& v->Obj_0@[1].0@ == "properties"@
    &&& v->Obj_0@[1].1 is Obj
    &&& v->Obj_0@[1].1->Obj_0@.len() == 0
    &&& v->Obj_0@[2].0@ == "required"@
    &&& v->Obj_0@[2].1 is Arr
    &&& v->Obj_0@[2].1->Arr_0@.len() == 0
}

/// Builds the minimal empty-object schema.
pub fn default_schema() -> (r: JsonValue)
    ensures
        is_default_schema(r),
{
    let mut fields: Vec<(String, JsonValue)> = Vec::new();
    fields.push((String::from_str("type"), JsonValue::Text(String::from_str("object"))));
    fields.push((String::from_str("properties"), JsonValue::Obj(Vec::new())));
    fields.push((String::from_str("required"), JsonValue::Arr(Vec::new())));
    JsonValue::Obj(fields)
}

/// Keeps a well-formed object schema; substitutes the minimal
/// empty-object schema for anything else, rather than failing the whole
/// catalog build.
pub fn normalize_schema(schema: Option<JsonValue>) -> (r: JsonValue)
    ensures
        (match schema {
            Some(s) => if s is Obj {
                r == s
            } else {
                is_default_schema(r)
            },
            None => is_default_schema(r),
        }),
{
    match schema {
        Some(s) => {
            if is_object(&s) {
                s
            } else {
                default_schema()
            }
        },
        None => default_schema(),
    }
}

/// How a translated catalog entry relates to the descriptor it came from:
/// a `function` tool whose name carries the collision-avoidance prefix,
/// whose description is the descriptor's or a generated fallback, and
/// whose schema is the descriptor's object schema or the minimal default.
pub open spec fn translated_matches(obj: ToolObject, t: Tool) -> bool {
    &&& obj.tool_type@ == "function"@
    &&& obj.function.name@ == "mcp_"@ + t.name@
    &&& (match t.description {
        Some(d) => obj.function.description@ == d@,
        None => obj.function.description@ == "Invoke "@ + t.name@ + " tool from MCP server"@,
    })
    &&& (match t.input_schema {
        Some(s) => if s is Obj {
            obj.function.parameters == s
        } else {
            is_default_schema(obj.function.parameters)
        },
        None => is_default_schema(obj.function.parameters),
    })
}

/// The generic invoke-any-tool definition that always heads the catalog:
/// its schema is an object demanding a server alias, a tool name and an
/// arguments object.
pub open spec fn is_mcp_invoke_tool(obj: ToolObject) -> bool {
    &&& obj.tool_type@ == "function"@
    &&& obj.function.name@ == "mcp_invoke"@
    &&& obj.function.description@
        == "Invoke any tool on connected MCP servers to fetch data, manage tasks, or perform actions"@
    &&& obj.function.parameters is Obj
    &&& req_text(obj.function.parameters, "type"@)
    &&& text_member(obj.function.parameters, "type"@) == "object"@
    &&& (match json_get(obj.function.parameters, "required"@) {
        Some(a) => {
            &&& a is Arr
            &&& a->Arr_0@.len() == 3
            &&& a->Arr_0@[0] is Text && a->Arr_0@[0]->Text_0@ == "server"@
            &&& a->Arr_0@[1] is Text && a->Arr_0@[1]->Text_0@ == "tool"@
            &&& a->Arr_0@[2] is Text && a->Arr_0@[2]->Text_0@ == "arguments"@
        },
        None => false,
    })
    &&& (match json_get(obj.function.parameters, "properties"@) {
        Some(p) => {
            &&& p is Obj
            &&& p->Obj_0@.len() == 3
            &&& p->Obj_0@[0].0@ == "server"@ && p->Obj_0@[0].1 is Obj
            &&& p->Obj_0@[1].0@ == "tool"@ && p->Obj_0@[1].1 is Obj
            &&& p->Obj_0@[2].0@ == "arguments"@ && p->Obj_0@[2].1 is Obj
        },
        None => false,
    })
}

/// Builds the generic invoke-any-tool definition, whose parameters name
/// the target server, the tool, and its arguments.
pub fn mcp_invoke_tool() -> (r: ToolObject)
    ensures
        is_mcp_invoke_tool(r),
{
    let mut server: Vec<(String, JsonValue)> = Vec::new();
    server.push((String::from_str("type"), JsonValue::Text(String::from_str("string"))));
    server.push(
        (
            String::from_str("description"),
            JsonValue::Text(String::from_str("MCP server alias (e.g., 'todo', 'weather', etc.)")),
        ),
    );
    let mut tool: Vec<(String, JsonValue)> = Vec::new();
    tool.push((String::from_str("type"), JsonValue::Text(String::from_str("string"))));
    tool.push(
        (
            String::from_str("description"),
            JsonValue::Text(String::from_str("Tool name on the MCP server to invoke")),
        ),
    );
    let mut args: Vec<(String, JsonValue)> = Vec::new();
    args.push((String::from_str("type"), JsonValue::Text(String::from_str("object"))));
    args.push(
        (
            String::from_str("description"),
            JsonValue::Text(String::from_str("Tool arguments as a JSON object")),
        ),
    );
    let mut props: Vec<(String, JsonValue)> = Vec::new();
    props.push((String::from_str("server"), JsonValue::Obj(server)));
    props.push((String::from_str("tool"), JsonValue::Obj(tool)));
    props.push((String::from_str("arguments"), JsonValue::Obj(args)));
    let mut required: Vec<JsonValue> = Vec::new();
    required.push(JsonValue::Text(String::from_str("server")));
    required.push(JsonValue::Text(String::from_str("tool")));
    required.push(JsonValue::Text(String::from_str("arguments")));
    let mut params: Vec<(String, JsonValue)> = Vec::new();
    params.push((String::from_str("type"), JsonValue::Text(String::from_str("object"))));
    params.push((String::from_str("required"), JsonValue::Arr(required)));
    params.push((String::from_str("properties"), JsonValue::Obj(props)));
    proof {
        reveal_strlit("type");
        reveal_strlit("required");
        reveal_strlit("properties");
        assert("type"@.len() == 4 && "required"@.len() == 8 && "properties"@.len() == 10);
        crate::json::lemma_obj_lookup_first(params@, 0, "type"@);
        crate::json::lemma_obj_lookup_first(params@, 1, "required"@);
        crate::json::lemma_obj_lookup_first(params@, 2, "properties"@);
    }
    ToolObject {
        tool_type: String::from_str("function"),
        function: Function {
            name: String::from_str("mcp_invoke"),
            description: String::from_str(
                "Invoke any tool on connected MCP servers to fetch data, manage tasks, or perform actions",
            ),
            parameters: JsonValue::Obj(params),
        },
    }
}

/// Prefixes a tool name with `mcp_`.
fn prefixed_name(name: &str) -> (r: String)
    ensures
        r@ == "mcp_"@ + name@,
{
    let mut out: Vec<char> = Vec::new();
    push_str_chars(&mut out, "mcp_");
    push_str_chars(&mut out, name);
    string_from_chars(&out)
}

/// The generated description for a descriptor that carries none.
fn fallback_description(name: &str) -> (r: String)
    ensures
        r@ == "Invoke "@ + name@ + " tool from MCP server"@,
{
    let mut out: Vec<char> = Vec::new();
    push_str_chars(&mut out, "Invoke ");
    push_str_chars(&mut out, name);
    push_str_chars(&mut out, " tool from MCP server");
    string_from_chars(&out)
}

/// Translates the server's descriptors into the chat-completion dialect:
/// the generic invoke tool first, then one prefixed, schema-normalized
/// entry per descriptor.  A descriptor with a non-object schema is still
/// included, with the minimal empty-object schema substituted.
#[verifier::loop_isolation(false)]
pub fn create_mcp_tool_definitions(tools: Vec<Tool>) -> (r: Vec<ToolObject>)
    ensures
        r@.len() == tools@.len() + 1,
        is_mcp_invoke_tool(r@[0]),
        forall|i: int| 0 <= i < tools@.len() ==> translated_matches(r@[i + 1], tools@[i]),
{
    let ghost orig = tools@;
    let mut out: Vec<ToolObject> = Vec::new();
    out.push(mcp_invoke_tool());
    let mut rest = tools;
    let ghost i: int = 0;
    while rest.len() > 0
        invariant
            0 <= i <= orig.len(),
            rest@ == orig.skip(i),
            out@.len() == i + 1,
            is_mcp_invoke_tool(out@[0]),
            forall|j: int| 0 <= j < i ==> translated_matches(out@[j + 1], orig[j]),
        decreases rest.len(),
    {
        proof {
            assert(rest@[0] == orig[i]);
        }
        let t = rest.remove(0);
        let name = prefixed_name(t.name.as_str());
        let description = match t.description {
            Some(d) => d,
            None => fallback_description(t.name.as_str()),
        };
        let parameters = normalize_schema(t.input_schema);
        out.push(
            ToolObject {
                tool_type: String::from_str("function"),
                function: Function { name, description, parameters },
            },
        );
        proof {
            assert(rest@ =~= orig.skip(i + 1));
            i = i + 1;
        }
    }
    proof {
        assert(orig.skip(i).len() == 0);
        assert(i == orig.len());
    }
    out
}

/// One built-in task tool definition: a `function` tool with the given
/// name and description and a schema declaring an object.
pub open spec fn is_builtin_def(obj: ToolObject, name: Seq<char>, description: Seq<char>) -> bool {
    &&& obj.tool_type@ == "function"@
    &&& obj.function.name@ == name
    &&& obj.function.description@ == description
    &&& obj.function.parameters is Obj
    &&& req_text(obj.function.parameters, "type"@)
    &&& text_member(obj.function.parameters, "type"@) == "object"@
}

/// The listing tool's schema offers exactly the four optional filters.
pub open spec fn list_tasks_schema_ok(v: JsonValue) -> bool {
    match json_get(v, "properties"@) {
        Some(p) => {
            &&& p is Obj
            &&& p->Obj_0@.len() == 4
            &&& p->Obj_0@[0].0@ == "assignee"@ && p->Obj_0@[0].1 is Obj
            &&& p->Obj_0@[1].0@ == "priority"@ && p->Obj_0@[1].1 is Obj
            &&& p->Obj_0@[2].0@ == "status"@ && p->Obj_0@[2].1 is Obj
            &&& p->Obj_0@[3].0@ == "tag"@ && p->Obj_0@[3].1 is Obj
        },
        None => false,
    }
}

/// The lookup tool's schema demands exactly the task id.
pub open spec fn get_task_schema_ok(v: JsonValue) -> bool {
    &&& (match json_get(v, "required"@) {
        Some(a) => a is Arr && a->Arr_0@.len() == 1 && a->Arr_0@[0] is Text
            && a->Arr_0@[0]->Text_0@ == "id"@,
        None => false,
    })
    &&& (match json_get(v, "properties"@) {
        Some(p) => p is Obj && p->Obj_0@.len() == 1 && p->Obj_0@[0].0@ == "id"@ && p->Obj_0@[0].1
            is Obj,
        None => false,
    })
}

/// The statistics tool's schema declares no parameters.
pub open spec fn task_stats_schema_ok(v: JsonValue) -> bool {
    match json_get(v, "properties"@) {
        Some(p) => p is Obj && p->Obj_0@.len() == 0,
        None => false,
    }
}

/// Builds one string-typed property description.
fn string_property(description: &str) -> (r: JsonValue)
    ensures
        r is Obj,
{
    let mut fields: Vec<(String, JsonValue)> = Vec::new();
    fields.push((String::from_str("type"), JsonValue::Text(String::from_str("string"))));
    fields.push((String::from_str("description"), JsonValue::Text(description.to_owned())));
    JsonValue::Obj(fields)
}

/// The built-in convenience tools defined statically rather than
/// discovered: task listing, single-task lookup, and aggregate
/// statistics.
pub fn create_task_tools() -> (r: Vec<ToolObject>)
    ensures
        r@.len() == 3,
        is_builtin_def(
            r@[0],
            "list_tasks"@,
            "List all tasks, optionally filtered by status, priority, assignee, or tag"@,
        ),
        is_builtin_def(r@[1], "get_task"@, "Get detailed information about a specific task by ID"@),
        is_builtin_def(
            r@[2],
            "task_stats"@,
            "Get statistics about tasks (counts by status, priority, etc.)"@,
        ),
        list_tasks_schema_ok(r@[0].function.parameters),
        get_task_schema_ok(r@[1].function.parameters),
        task_stats_schema_ok(r@[2].function.parameters),
{
    let mut list_props: Vec<(String, JsonValue)> = Vec::new();
    list_props.push((String::from_str("assignee"), string_property("Filter tasks by assignee")));
    list_props.push((String::from_str("priority"), string_property("Filter tasks by priority")));
    list_props.push((String::from_str("status"), string_property("Filter tasks by status")));
    list_props.push((String::from_str("tag"), string_property("Filter tasks by tag")));
    let mut list_params: Vec<(String, JsonValue)> = Vec::new();
    list_params.push((String::from_str("type"), JsonValue::Text(String::from_str("object"))));
    list_params.push((String::from_str("properties"), JsonValue::Obj(list_props)));
    let mut get_props: Vec<(String, JsonValue)> = Vec::new();
    get_props.push((String::from_str("id"), string_property("The ID of the task to retrieve")));
    let mut get_required: Vec<JsonValue> = Vec::new();
    get_required.push(JsonValue::Text(String::from_str("id")));
    let mut get_params: Vec<(String, JsonValue)> = Vec::new();
    get_params.push((String::from_str("type"), JsonValue::Text(String::from_str("object"))));
    get_params.push((String::from_str("required"), JsonValue::Arr(get_required)));
    get_params.push((String::from_str("properties"), JsonValue::Obj(get_props)));
    let mut stats_params: Vec<(String, JsonValue)> = Vec::new();
    stats_params.push((String::from_str("type"), JsonValue::Text(String::from_str("object"))));
    stats_params.push((String::from_str("properties"), JsonValue::Obj(Vec::new())));
    proof {
        reveal_strlit("type");
        reveal_strlit("required");
        reveal_strlit("properties");
        assert("type"@.len() == 4 && "required"@.len() == 8 && "properties"@.len() == 10);
        crate::json::lemma_obj_lookup_first(list_params@, 0, "type"@);
        crate::json::lemma_obj_lookup_first(list_params@, 1, "properties"@);
        crate::json::lemma_obj_lookup_first(get_params@, 0, "type"@);
        crate::json::lemma_obj_lookup_first(get_params@, 1, "required"@);
        crate::json::lemma_obj_lookup_first(get_params@, 2, "properties"@);
        crate::json::lemma_obj_lookup_first(stats_params@, 0, "type"@);
        crate::json::lemma_obj_lookup_first(stats_params@, 1, "properties"@);
    }
    let mut out: Vec<ToolObject> = Vec::new();
    out.push(
        ToolObject {
            tool_type: String::from_str("function"),
            function: Function {
                name: String::from_str("list_tasks"),
                description: String::from_str(
                    "List all tasks, optionally filtered by status, priority, assignee, or tag",
                ),
                parameters: JsonValue::Obj(list_params),
            },
        },
    );
    out.push(
        ToolObject {
            tool_type: String::from_str("function"),
            function: Function {
                name: String::from_str("get_task"),
                description: String::from_str(
                    "Get detailed information about a specific task by ID",
                ),
                parameters: JsonValue::Obj(get_params),
            },
        },
    );
    out.push(
        ToolObject {
            tool_type: String::from_str("function"),
            function: Function {
                name: String::from_str("task_stats"),
                description: String::from_str(
                    "Get statistics about tasks (counts by status, priority, etc.)",
                ),
                parameters: JsonValue::Obj(stats_params),
            },
        },
    );
    out
}

/// The built-in task tool names dispatched by exact match.
pub open spec fn is_builtin_task_tool(n: Seq<char>) -> bool {
    ||| n == "list_tasks"@
    ||| n == "get_task"@
    ||| n == "task_stats"@
}

/// A name carrying the `mcp_` prefix.
pub open spec fn has_mcp_prefix(n: Seq<char>) -> bool {
    n.len() >= 4 && n.subrange(0, 4) == "mcp_"@
}

/// Where an inbound tool-call name is dispatched.
pub enum ToolRoute {
    /// One of the built-in task tools, by exact name.
    TaskTool(String),
    /// The generic invoke-any-tool entry point.
    GenericInvoke,
    /// A prefixed server tool; carries the name with the prefix stripped.
    Prefixed(String),
    /// No tool of this name exists.
    Unknown,
}

/// Routes an inbound tool-call name: the generic entry point by exact
/// match first, then the built-in task tools, then the prefixed form, and
/// anything else is unknown.
#[verifier::loop_isolation(false)]
pub fn route_tool_call(name: &str) -> (r: ToolRoute)
    ensures
        (r is GenericInvoke) == (name@ == "mcp_invoke"@),
        (r is TaskTool) == (name@ != "mcp_invoke"@ && is_builtin_task_tool(name@)),
        r is TaskTool ==> r->TaskTool_0@ == name@,
        (r is Prefixed) == (name@ != "mcp_invoke"@ && !is_builtin_task_tool(name@)
            && has_mcp_prefix(name@)),
        r is Prefixed ==> r->Prefixed_0@ == name@.skip(4),
        (r is Unknown) == (name@ != "mcp_invoke"@ && !is_builtin_task_tool(name@)
            && !has_mcp_prefix(name@)),
{
    if str_eq(name, "mcp_invoke") {
        return ToolRoute::GenericInvoke;
    }
    if str_eq(name, "list_tasks") || str_eq(name, "get_task") || str_eq(name, "task_stats") {
        return ToolRoute::TaskTool(name.to_owned());
    }
    let cs = chars_of(name);
    proof {
        reveal_strlit("mcp_");
        assert("mcp_"@.len() == 4);
        assert("mcp_"@[0] == 'm' && "mcp_"@[1] == 'c' && "mcp_"@[2] == 'p' && "mcp_"@[3] == '_');
    }
    if cs.len() >= 4 && cs[0] == 'm' && cs[1] == 'c' && cs[2] == 'p' && cs[3] == '_' {
        assert(name@.subrange(0, 4) =~= "mcp_"@);
        let mut stripped: Vec<char> = Vec::new();
        let mut i: usize = 4;
        while i < cs.len()
            invariant
                4 <= i <= cs.len(),
                stripped@ == cs@.subrange(4, i as int),
            decreases cs.len() - i,
        {
            stripped.push(cs[i]);
            assert(stripped@ =~= cs@.subrange(4, i + 1));
            i = i + 1;
        }
        assert(stripped@ =~= name@.skip(4));
        ToolRoute::Prefixed(string_from_chars(&stripped))
    } else {
        assert(!has_mcp_prefix(name@)) by {
            if name@.len() >= 4 {
                assert(cs@[0] == name@.subrange(0, 4)[0]);
                assert(cs@[1] == name@.subrange(0, 4)[1]);
                assert(cs@[2] == name@.subrange(0, 4)[2]);
                assert(cs@[3] == name@.subrange(0, 4)[3]);
            }
        }
        ToolRoute::Unknown
    }
}

/// The structured failure payload fed back to the conversation when a
/// tool call cannot run: a failed call is converted at the dispatch
/// boundary, never thrown, so one bad call cannot derail the run.
pub fn tool_failure_payload(message: &str) -> (r: JsonValue)
    ensures
        r is Obj,
        r->Obj_0@.len() == 2,
        req_text(r, "error"@) && text_member(r, "error"@) == message@,
        (match json_get(r, "success"@) {
            Some(x) => x is Bool && !x->Bool_0,
            None => false,
        }),
{
    proof {
        reveal_strlit("error");
        reveal_strlit("success");
        assert("error"@.len() == 5 && "success"@.len() == 7);
    }
    let mut fields: Vec<(String, JsonValue)> = Vec::new();
    fields.push((String::from_str("error"), JsonValue::Text(message.to_owned())));
    fields.push((String::from_str("success"), JsonValue::Bool(false)));
    proof {
        crate::json::lemma_obj_lookup_first(fields@, 0, "error"@);
        crate::json::lemma_obj_lookup_first(fields@, 1, "success"@);
    }
    JsonValue::Obj(fields)
}

/// The message reported for an unknown tool name; it is surfaced to the
/// conversation as a tool-result error payload, never as a fatal failure.
pub open spec fn unknown_tool_text(name: Seq<char>) -> Seq<char> {
    "Unknown tool: "@ + name
}

/// Builds the recoverable unknown-tool error.
pub fn unknown_tool_error(name: &str) -> (r: CoreError)
    ensures
        r is ToolNotFound,
        error_text(r) == unknown_tool_text(name@),
{
    let mut msg: Vec<char> = Vec::new();
    push_str_chars(&mut msg, "Unknown tool: ");
    push_str_chars(&mut msg, name);
    CoreError::ToolNotFound(string_from_chars(&msg))
}

/// One conversation message; the sequence is append-only for the
/// lifetime of one orchestration run.
#[derive(Clone)]
pub struct Message {
    pub role: String,
    pub content: String,
    pub tool_call_id: Option<String>,
    pub tool_calls: Option<Vec<ToolCall>>,
}

/// A model-issued tool call.
#[derive(Clone)]
pub struct ToolCall {
    pub id: String,
    pub call_type: Option<String>,
    pub function: ToolCallFunction,
}

/// The function part of a model-issued tool call; the arguments are raw
/// JSON text.
#[derive(Clone)]
pub struct ToolCallFunction {
    pub name: String,
    pub arguments: String,
}

/// An outbound chat-completion request.  The sampling temperature is held
/// in tenths, so `7` reads as `0.7` on the wire.
pub struct ChatRequest {
    pub model: String,
    pub messages: Vec<Message>,
    pub tools: Option<Vec<ToolObject>>,
    pub tool_choice: Option<String>,
    pub temperature_tenths: u32,
    pub max_tokens: u32,
}

/// An inbound chat-completion response.
pub struct ChatResponse {
    pub choices: Vec<Choice>,
}

/// One choice of a chat-completion response.
pub struct Choice {
    pub message: ResponseMessage,
}

/// The message of one choice: final content, or tool calls, or both.
pub struct ResponseMessage {
    pub content: Option<String>,
    pub tool_calls: Option<Vec<ToolCall>>,
}

/// The wire text of the sampling temperature, one decimal digit.
pub open spec fn temp_text(tenths: u32) -> Seq<char> {
    dec_digits((tenths / 10) as nat) + seq!['.'] + dec_digits((tenths % 10) as nat)
}

/// How the JSON form of a tool call relates to the structure.
pub open spec fn tool_call_value_matches(cv: JsonValue, c: ToolCall) -> bool {
    &&& cv is Obj
    &&& text_member(cv, "id"@) == c.id@ && req_text(cv, "id"@)
    &&& (match c.call_type {
        Some(s) => req_text(cv, "type"@) && text_member(cv, "type"@) == s@,
        None => json_get(cv, "type"@) == Some(JsonValue::Null),
    })
    &&& (match json_get(cv, "function"@) {
        Some(f) => {
            &&& f is Obj
            &&& req_text(f, "name"@) && text_member(f, "name"@) == c.function.name@
            &&& req_text(f, "arguments"@) && text_member(f, "arguments"@) == c.function.arguments@
        },
        None => false,
    })
}

/// A member that is present and holds text.
pub open spec fn req_text(v: JsonValue, key: Seq<char>) -> bool {
    match json_get(v, key) {
        Some(x) => x is Text,
        None => false,
    }
}

/// How the JSON form of a conversation message relates to the structure:
/// the optional members are present exactly when the fields are.
pub open spec fn message_value_matches(mv: JsonValue, m: Message) -> bool {
    &&& mv is Obj
    &&& req_text(mv, "role"@) && text_member(mv, "role"@) == m.role@
    &&& req_text(mv, "content"@) && text_member(mv, "content"@) == m.content@
    &&& (match m.tool_call_id {
        Some(s) => req_text(mv, "tool_call_id"@) && text_member(mv, "tool_call_id"@) == s@,
        None => json_get(mv, "tool_call_id"@) is None,
    })
    &&& (match m.tool_calls {
        Some(cs) => (match json_get(mv, "tool_calls"@) {
            Some(a) => a is Arr && a->Arr_0@.len() == cs@.len() && (forall|i: int|
                0 <= i < cs@.len() ==> tool_call_value_matches(a->Arr_0@[i], cs@[i])),
            None => false,
        }),
        None => json_get(mv, "tool_calls"@) is None,
    })
}

/// How the JSON form of a tool definition relates to the structure.
pub open spec fn tool_object_value_matches(tv: JsonValue, t: ToolObject) -> bool {
    &&& tv is Obj
    &&& req_text(tv, "type"@) && text_member(tv, "type"@) == t.tool_type@
    &&& (match json_get(tv, "function"@) {
        Some(f) => {
            &&& f is Obj
            &&& req_text(f, "name"@) && text_member(f, "name"@) == t.function.name@
            &&& req_text(f, "description"@) && text_member(f, "description"@)
                == t.function.description@
            &&& json_get(f, "parameters"@) == Some(t.function.parameters)
        },
        None => false,
    })
}

/// How the JSON form of a whole chat request relates to the structure:
/// optional members are omitted exactly when the fields are `None`, the
/// temperature reads in tenths, and the token bound is carried verbatim.
pub open spec fn chat_value_matches(v: JsonValue, req: ChatRequest) -> bool {
    &&& v is Obj
    &&& req_text(v, "model"@) && text_member(v, "model"@) == req.model@
    &&& (match json_get(v, "messages"@) {
        Some(a) => a is Arr && a->Arr_0@.len() == req.messages@.len() && (forall|i: int|
            0 <= i < req.messages@.len() ==> message_value_matches(a->Arr_0@[i], req.messages@[i])),
        None => false,
    })
    &&& (match req.tools {
        Some(ts) => (match json_get(v, "tools"@) {
            Some(a) => a is Arr && a->Arr_0@.len() == ts@.len() && (forall|i: int|
                0 <= i < ts@.len() ==> tool_object_value_matches(a->Arr_0@[i], ts@[i])),
            None => false,
        }),
        None => json_get(v, "tools"@) is None,
    })
    &&& (match req.tool_choice {
        Some(s) => req_text(v, "tool_choice"@) && text_member(v, "tool_choice"@) == s@,
        None => json_get(v, "tool_choice"@) is None,
    })
    &&& (match json_get(v, "temperature"@) {
        Some(x) => x is Num && x->Num_0@ == temp_text(req.temperature_tenths),
        None => false,
    })
    &&& (match json_get(v, "max_tokens"@) {
        Some(x) => x is Int && x->Int_0 == req.max_tokens as i64,
        None => false,
    })
}

/// Builds the JSON form of one tool call.
fn tool_call_value(c: ToolCall) -> (cv: JsonValue)
    ensures
        tool_call_value_matches(cv, c),
{
    proof {
        reveal_strlit("name");
        reveal_strlit("arguments");
        reveal_strlit("id");
        reveal_strlit("type");
        reveal_strlit("function");
        assert("name"@.len() == 4 && "arguments"@.len() == 9);
        assert("id"@.len() == 2 && "type"@.len() == 4 && "function"@.len() == 8);
        assert("type"@[0] == 't' && "name"@[0] == 'n');
    }
    let mut func: Vec<(String, JsonValue)> = Vec::new();
    func.push((String::from_str("name"), JsonValue::Text(c.function.name)));
    func.push((String::from_str("arguments"), JsonValue::Text(c.function.arguments)));
    proof {
        crate::json::lemma_obj_lookup_first(func@, 0, "name"@);
        crate::json::lemma_obj_lookup_first(func@, 1, "arguments"@);
    }
    let fv = JsonValue::Obj(func);
    let type_v = match c.call_type {
        Some(s) => JsonValue::Text(s),
        None => JsonValue::Null,
    };
    let mut fields: Vec<(String, JsonValue)> = Vec::new();
    fields.push((String::from_str("id"), JsonValue::Text(c.id)));
    fields.push((String::from_str("type"), type_v));
    fields.push((String::from_str("function"), fv));
    proof {
        crate::json::lemma_obj_lookup_first(fields@, 0, "id"@);
        crate::json::lemma_obj_lookup_first(fields@, 1, "type"@);
        crate::json::lemma_obj_lookup_first(fields@, 2, "function"@);
    }
    JsonValue::Obj(fields)
}

/// Builds the JSON form of an array of tool calls.
#[verifier::loop_isolation(false)]
fn tool_calls_value(cs: Vec<ToolCall>) -> (r: Vec<JsonValue>)
    ensures
        r@.len() == cs@.len(),
        forall|i: int| 0 <= i < cs@.len() ==> tool_call_value_matches(r@[i], cs@[i]),
{
    let ghost orig = cs@;
    let mut rest = cs;
    let mut out: Vec<JsonValue> = Vec::new();
    let ghost i: int = 0;
    while rest.len() > 0
        invariant
            0 <= i <= orig.len(),
            rest@ == orig.skip(i),
            out@.len() == i,
            forall|j: int| 0 <= j < i ==> tool_call_value_matches(out@[j], orig[j]),
        decreases rest.len(),
    {
        proof {
            assert(rest@[0] == orig[i]);
        }
        let c = rest.remove(0);
        out.push(tool_call_value(c));
        proof {
            assert(rest@ =~= orig.skip(i + 1));
            i = i + 1;
        }
    }
    proof {
        assert(orig.skip(i).len() == 0);
        assert(i == orig.len());
    }
    out
}

/// Builds the JSON form of one conversation message: optional members
/// are emitted only when present.
fn message_value(m: Message) -> (mv: JsonValue)
    ensures
        message_value_matches(mv, m),
{
    proof {
        reveal_strlit("role");
        reveal_strlit("content");
        reveal_strlit("tool_call_id");
        reveal_strlit("tool_calls");
        assert("role"@.len() == 4 && "content"@.len() == 7 && "tool_call_id"@.len() == 12
            && "tool_calls"@.len() == 10);
    }
    let mut fields: Vec<(String, JsonValue)> = Vec::new();
    fields.push((String::from_str("role"), JsonValue::Text(m.role)));
    fields.push((String::from_str("content"), JsonValue::Text(m.content)));
    let ghost has_id = m.tool_call_id is Some;
    match m.tool_call_id {
        Some(s) => {
            fields.push((String::from_str("tool_call_id"), JsonValue::Text(s)));
        },
        None => {},
    }
    let ghost id_end = fields@;
    match m.tool_calls {
        Some(cs) => {
            let arr = tool_calls_value(cs);
            fields.push((String::from_str("tool_calls"), JsonValue::Arr(arr)));
        },
        None => {},
    }
    proof {
        crate::json::lemma_obj_lookup_first(fields@, 0, "role"@);
        crate::json::lemma_obj_lookup_first(fields@, 1, "content"@);
        if has_id {
            crate::json::lemma_obj_lookup_first(fields@, 2, "tool_call_id"@);
        } else {
            crate::json::lemma_obj_lookup_none(fields@, "tool_call_id"@);
        }
        if m.tool_calls is Some {
            crate::json::lemma_obj_lookup_first(fields@, fields@.len() - 1, "tool_calls"@);
        } else {
            crate::json::lemma_obj_lookup_none(fields@, "tool_calls"@);
        }
    }
    JsonValue::Obj(fields)
}

/// Builds the JSON form of one tool definition.
fn tool_object_value(t: ToolObject) -> (tv: JsonValue)
    ensures
        tool_object_value_matches(tv, t),
{
    proof {
        reveal_strlit("name");
        reveal_strlit("description");
        reveal_strlit("parameters");
        reveal_strlit("type");
        reveal_strlit("function");
        assert("name"@.len() == 4 && "description"@.len() == 11 && "parameters"@.len() == 10);
        assert("type"@.len() == 4 && "function"@.len() == 8);
        assert("type"@[0] == 't' && "name"@[0] == 'n');
    }
    let mut func: Vec<(String, JsonValue)> = Vec::new();
    func.push((String::from_str("name"), JsonValue::Text(t.function.name)));
    func.push((String::from_str("description"), JsonValue::Text(t.function.description)));
    func.push((String::from_str("parameters"), t.function.parameters));
    proof {
        crate::json::lemma_obj_lookup_first(func@, 0, "name"@);
        crate::json::lemma_obj_lookup_first(func@, 1, "description"@);
        crate::json::lemma_obj_lookup_first(func@, 2, "parameters"@);
    }
    let mut fields: Vec<(String, JsonValue)> = Vec::new();
    fields.push((String::from_str("type"), JsonValue::Text(t.tool_type)));
    fields.push((String::from_str("function"), JsonValue::Obj(func)));
    proof {
        crate::json::lemma_obj_lookup_first(fields@, 0, "type"@);
        crate::json::lemma_obj_lookup_first(fields@, 1, "function"@);
    }
    JsonValue::Obj(fields)
}

/// Builds the JSON form of an array of tool definitions.
#[verifier::loop_isolation(false)]
fn tool_objects_value(ts: Vec<ToolObject>) -> (r: Vec<JsonValue>)
    ensures
        r@.len() == ts@.len(),
        forall|i: int| 0 <= i < ts@.len() ==> tool_object_value_matches(r@[i], ts@[i]),
{
    let ghost orig = ts@;
    let mut rest = ts;
    let mut out: Vec<JsonValue> = Vec::new();
    let ghost i: int = 0;
    while rest.len() > 0
        invariant
            0 <= i <= orig.len(),
            rest@ == orig.skip(i),
            out@.len() == i,
            forall|j: int| 0 <= j < i ==> tool_object_value_matches(out@[j], orig[j]),
        decreases rest.len(),
    {
        proof {
            assert(rest@[0] == orig[i]);
        }
        let t = rest.remove(0);
        out.push(tool_object_value(t));
        proof {
            assert(rest@ =~= orig.skip(i + 1));
            i = i + 1;
        }
    }
    proof {
        assert(orig.skip(i).len() == 0);
        assert(i == orig.len());
    }
    out
}

/// Builds the JSON form of a whole chat-completion request, exactly as
/// [`chat_value_matches`] states; the caller renders it to one frame.
#[verifier::loop_isolation(false)]
pub fn chat_request_value(req: ChatRequest) -> (v: JsonValue)
    ensures
        chat_value_matches(v, req),
{
    proof {
        reveal_strlit("model");
        reveal_strlit("messages");
        reveal_strlit("tools");
        reveal_strlit("tool_choice");
        reveal_strlit("temperature");
        reveal_strlit("max_tokens");
        assert("model"@.len() == 5 && "messages"@.len() == 8 && "tools"@.len() == 5
            && "tool_choice"@.len() == 11 && "temperature"@.len() == 11 && "max_tokens"@.len()
            == 10);
        assert("model"@[0] == 'm' && "tools"@[0] == 't');
        assert("tool_choice"@[1] == 'o' && "temperature"@[1] == 'e');
    }
    let ghost req0 = req;
    let mut fields: Vec<(String, JsonValue)> = Vec::new();
    fields.push((String::from_str("model"), JsonValue::Text(req.model)));
    let ghost msgs0 = req.messages@;
    let mut msg_vals: Vec<JsonValue> = Vec::new();
    let mut msgs = req.messages;
    let ghost i: int = 0;
    while msgs.len() > 0
        invariant
            0 <= i <= msgs0.len(),
            msgs@ == msgs0.skip(i),
            msg_vals@.len() == i,
            forall|j: int| 0 <= j < i ==> message_value_matches(msg_vals@[j], msgs0[j]),
        decreases msgs.len(),
    {
        proof {
            assert(msgs@[0] == msgs0[i]);
        }
        let m = msgs.remove(0);
        msg_vals.push(message_value(m));
        proof {
            assert(msgs@ =~= msgs0.skip(i + 1));
            i = i + 1;
        }
    }
    proof {
        assert(msgs0.skip(i).len() == 0);
        assert(i == msgs0.len());
    }
    fields.push((String::from_str("messages"), JsonValue::Arr(msg_vals)));
    let ghost has_tools = req.tools is Some;
    match req.tools {
        Some(ts) => {
            let arr = tool_objects_value(ts);
            fields.push((String::from_str("tools"), JsonValue::Arr(arr)));
        },
        None => {},
    }
    let ghost has_choice = req.tool_choice is Some;
    match req.tool_choice {
        Some(s) => {
            fields.push((String::from_str("tool_choice"), JsonValue::Text(s)));
        },
        None => {},
    }
    let ghost temp_idx = fields@.len() as int;
    let tenths = req.temperature_tenths;
    let mut tc: Vec<char> = Vec::new();
    push_u64(&mut tc, (tenths / 10) as u64);
    tc.push('.');
    push_u64(&mut tc, (tenths % 10) as u64);
    assert(tc@ == temp_text(tenths));
    fields.push((String::from_str("temperature"), JsonValue::Num(string_from_chars(&tc))));
    fields.push((String::from_str("max_tokens"), JsonValue::Int(req.max_tokens as i64)));
    proof {
        crate::json::lemma_obj_lookup_first(fields@, 0, "model"@);
        crate::json::lemma_obj_lookup_first(fields@, 1, "messages"@);
        if has_tools {
            crate::json::lemma_obj_lookup_first(fields@, 2, "tools"@);
        } else {
            crate::json::lemma_obj_lookup_none(fields@, "tools"@);
        }
        if has_choice {
            crate::json::lemma_obj_lookup_first(
                fields@,
                if has_tools {
                    3
                } else {
                    2
                },
                "tool_choice"@,
            );
        } else {
            crate::json::lemma_obj_lookup_none(fields@, "tool_choice"@);
        }
        crate::json::lemma_obj_lookup_first(fields@, temp_idx, "temperature"@);
        crate::json::lemma_obj_lookup_first(fields@, temp_idx + 1, "max_tokens"@);
    }
    JsonValue::Obj(fields)
}

/// Whether a tool result carries the error flag.
pub open spec fn is_error_flag(result: JsonValue) -> bool {
    match json_get(result, "isError"@) {
        Some(x) => x is Bool && x->Bool_0,
        None => false,
    }
}

/// The content items of a tool result; empty when there are none.
pub open spec fn content_items(result: JsonValue) -> Seq<JsonValue> {
    match json_get(result, "content"@) {
        Some(a) => if a is Arr {
            a->Arr_0@
        } else {
            Seq::empty()
        },
        None => Seq::empty(),
    }
}

/// A media item reshaped into the flat `{data, mime_type, type}` form;
/// an absent payload or mime type is written as `null`.
pub open spec fn media_reshaped(out: JsonValue, item: JsonValue, kind: Seq<char>) -> bool {
    &&& out is Obj
    &&& out->Obj_0@.len() == 3
    &&& json_get(out, "data"@) == Some(
        match json_get(item, "data"@) {
            Some(x) => x,
            None => JsonValue::Null,
        },
    )
    &&& json_get(out, "mime_type"@) == Some(
        match json_get(item, "mimeType"@) {
            Some(x) => x,
            None => JsonValue::Null,
        },
    )
    &&& req_text(out, "type"@) && text_member(out, "type"@) == kind
}

/// A resource item reshaped into the flat `{resource, type}` form.
pub open spec fn resource_reshaped(out: JsonValue, item: JsonValue) -> bool {
    &&& out is Obj
    &&& out->Obj_0@.len() == 2
    &&& json_get(out, "resource"@) == Some(
        match json_get(item, "resource"@) {
            Some(x) => x,
            None => JsonValue::Null,
        },
    )
    &&& req_text(out, "type"@) && text_member(out, "type"@) == "resource"@
}

/// How one shaped content item relates to the wire item: a text item's
/// payload is parsed as JSON when it can be and wrapped as tagged text
/// when it cannot; image and audio items are re-keyed into the flat
/// `{data, mime_type, type}` form, a resource item into `{resource,
/// type}`; anything else passes through unchanged.
pub open spec fn shaped_item_matches(out: JsonValue, item: JsonValue) -> bool {
    if item is Obj && text_member(item, "type"@) == "text"@ && req_text(item, "type"@) && req_text(
        item,
        "text"@,
    ) {
        match json_of(text_member(item, "text"@)) {
            Some(p) => out == p,
            None => {
                &&& out is Obj
                &&& out->Obj_0@.len() == 2
                &&& req_text(out, "text"@) && text_member(out, "text"@) == text_member(
                    item,
                    "text"@,
                )
                &&& req_text(out, "type"@) && text_member(out, "type"@) == "text"@
            },
        }
    } else if req_text(item, "type"@) && text_member(item, "type"@) == "image"@ {
        media_reshaped(out, item, "image"@)
    } else if req_text(item, "type"@) && text_member(item, "type"@) == "audio"@ {
        media_reshaped(out, item, "audio"@)
    } else if req_text(item, "type"@) && text_member(item, "type"@) == "resource"@ {
        resource_reshaped(out, item)
    } else {
        out == item
    }
}

/// True when the item's `type` member holds exactly the given text.
fn type_is(item: &JsonValue, kind: &str) -> (r: bool)
    ensures
        r == (req_text(*item, "type"@) && text_member(*item, "type"@) == kind@),
{
    match crate::json::get_field(item, "type") {
        Some(tv) => match tv {
            JsonValue::Text(s) => str_eq(s.as_str(), kind),
            _ => false,
        },
        None => false,
    }
}

/// Re-keys one media item into the flat `{data, mime_type, type}` form.
fn reshape_media(item: JsonValue, kind: &str) -> (out: JsonValue)
    requires
        item is Obj,
    ensures
        media_reshaped(out, item, kind@),
{
    proof {
        reveal_strlit("data");
        reveal_strlit("mimeType");
        reveal_strlit("mime_type");
        reveal_strlit("type");
        assert("data"@.len() == 4 && "mimeType"@.len() == 8 && "mime_type"@.len() == 9
            && "type"@.len() == 4);
        assert("data"@[0] == 'd' && "type"@[0] == 't');
    }
    let mut fields = match item {
        JsonValue::Obj(f) => f,
        _ => Vec::new(),
    };
    let ghost f0 = fields@;
    let data_v = take_member(&mut fields, "data");
    let ghost f1 = fields@;
    let mime_v = take_member(&mut fields, "mimeType");
    proof {
        assert(obj_lookup(f1, "mimeType"@) == obj_lookup(f0, "mimeType"@));
        assert(data_v == json_get(item, "data"@));
        assert(mime_v == json_get(item, "mimeType"@));
    }
    let data = match data_v {
        Some(x) => x,
        None => JsonValue::Null,
    };
    let mime = match mime_v {
        Some(x) => x,
        None => JsonValue::Null,
    };
    let mut out_fields: Vec<(String, JsonValue)> = Vec::new();
    out_fields.push((String::from_str("data"), data));
    out_fields.push((String::from_str("mime_type"), mime));
    out_fields.push((String::from_str("type"), JsonValue::Text(kind.to_owned())));
    proof {
        crate::json::lemma_obj_lookup_first(out_fields@, 0, "data"@);
        crate::json::lemma_obj_lookup_first(out_fields@, 1, "mime_type"@);
        crate::json::lemma_obj_lookup_first(out_fields@, 2, "type"@);
    }
    JsonValue::Obj(out_fields)
}

/// Re-keys one resource item into the flat `{resource, type}` form.
fn reshape_resource(item: JsonValue) -> (out: JsonValue)
    requires
        item is Obj,
    ensures
        resource_reshaped(out, item),
{
    proof {
        reveal_strlit("resource");
        reveal_strlit("type");
        assert("resource"@.len() == 8 && "type"@.len() == 4);
    }
    let mut fields = match item {
        JsonValue::Obj(f) => f,
        _ => Vec::new(),
    };
    let res_v = take_member(&mut fields, "resource");
    proof {
        assert(res_v == json_get(item, "resource"@));
    }
    let res = match res_v {
        Some(x) => x,
        None => JsonValue::Null,
    };
    let mut out_fields: Vec<(String, JsonValue)> = Vec::new();
    out_fields.push((String::from_str("resource"), res));
    out_fields.push((String::from_str("type"), JsonValue::Text(String::from_str("resource"))));
    proof {
        crate::json::lemma_obj_lookup_first(out_fields@, 0, "resource"@);
        crate::json::lemma_obj_lookup_first(out_fields@, 1, "type"@);
    }
    JsonValue::Obj(out_fields)
}

/// Shapes one content item, exactly as [`shaped_item_matches`] states.
fn shape_item(item: JsonValue) -> (out: JsonValue)
    ensures
        shaped_item_matches(out, item),
{
    proof {
        reveal_strlit("text");
        reveal_strlit("type");
        reveal_strlit("image");
        reveal_strlit("audio");
        reveal_strlit("resource");
        assert("text"@.len() == 4 && "type"@.len() == 4 && "image"@.len() == 5 && "audio"@.len()
            == 5 && "resource"@.len() == 8);
        assert("text"@[2] == 'x' && "type"@[2] == 'p');
        assert("image"@[0] == 'i' && "audio"@[0] == 'a');
    }
    if type_is(&item, "text") {
        match crate::json::get_field(&item, "text") {
            Some(body) => match body {
                JsonValue::Text(s) => match parse_json(s.as_str()) {
                    Some(p) => p,
                    None => {
                        let mut fields: Vec<(String, JsonValue)> = Vec::new();
                        fields.push((String::from_str("text"), JsonValue::Text(s.clone())));
                        fields.push(
                            (String::from_str("type"), JsonValue::Text(String::from_str("text"))),
                        );
                        proof {
                            crate::json::lemma_obj_lookup_first(fields@, 0, "text"@);
                            crate::json::lemma_obj_lookup_first(fields@, 1, "type"@);
                        }
                        JsonValue::Obj(fields)
                    },
                },
                _ => item,
            },
            None => item,
        }
    } else if type_is(&item, "image") {
        assert(item is Obj);
        reshape_media(item, "image")
    } else if type_is(&item, "audio") {
        assert(item is Obj);
        reshape_media(item, "audio")
    } else if type_is(&item, "resource") {
        assert(item is Obj);
        reshape_resource(item)
    } else {
        item
    }
}

/// How a whole shaped tool result relates to the wire result: the shaped
/// content (a lone item unwrapped, several kept as an array), the tool's
/// name, the success flag, and an error text exactly when the result was
/// error-flagged.
pub open spec fn shaped_result_matches(
    out: JsonValue,
    tool_name: Seq<char>,
    result: JsonValue,
) -> bool {
    &&& out is Obj
    &&& (if content_items(result).len() == 0 {
        json_get(out, "content"@) is None
    } else {
        match json_get(out, "content"@) {
            Some(c) => if content_items(result).len() == 1 {
                shaped_item_matches(c, content_items(result)[0])
            } else {
                c is Arr && c->Arr_0@.len() == content_items(result).len() && (forall|i: int|
                    0 <= i < content_items(result).len() ==> shaped_item_matches(
                        c->Arr_0@[i],
                        content_items(result)[i],
                    ))
            },
            None => false,
        }
    })
    &&& req_text(out, "tool_name"@) && text_member(out, "tool_name"@) == tool_name
    &&& (match json_get(out, "success"@) {
        Some(x) => x is Bool && x->Bool_0 == !is_error_flag(result),
        None => false,
    })
    &&& (if is_error_flag(result) {
        req_text(out, "error"@) && text_member(out, "error"@)
            == "Tool execution reported an error"@
    } else {
        json_get(out, "error"@) is None
    })
}

/// Flattens one tool-call result into the payload fed back to the
/// conversation, exactly as [`shaped_result_matches`] states: content
/// first when there is any, then the tool name, the success flag, and an
/// error text only for an error-flagged result.
#[verifier::loop_isolation(false)]
#[verifier::rlimit(60)]
pub fn shape_tool_result(tool_name: &str, result: JsonValue) -> (out: JsonValue)
    ensures
        shaped_result_matches(out, tool_name@, result),
{
    proof {
        reveal_strlit("content");
        reveal_strlit("isError");
        reveal_strlit("tool_name");
        reveal_strlit("success");
        reveal_strlit("error");
        assert("content"@.len() == 7 && "isError"@.len() == 7 && "tool_name"@.len() == 9
            && "success"@.len() == 7 && "error"@.len() == 5);
        assert("content"@[0] == 'c' && "isError"@[0] == 'i' && "success"@[0] == 's');
    }
    let (content_v, error_flag): (Option<JsonValue>, bool) = match result {
        JsonValue::Obj(mut fields) => {
            let ghost f0 = fields@;
            let c = take_member(&mut fields, "content");
            let ghost f1 = fields@;
            let e = take_member(&mut fields, "isError");
            proof {
                assert(obj_lookup(f1, "isError"@) == obj_lookup(f0, "isError"@));
                assert(c == json_get(result, "content"@));
                assert(e == json_get(result, "isError"@));
            }
            let flag = match e {
                Some(JsonValue::Bool(b)) => b,
                _ => false,
            };
            (c, flag)
        },
        _ => (None, false),
    };
    let mut out_fields: Vec<(String, JsonValue)> = Vec::new();
    let ghost has_content = content_items(result).len() > 0;
    match content_v {
        Some(JsonValue::Arr(items)) => {
            if items.len() == 1 {
                let mut rest = items;
                let item = rest.remove(0);
                out_fields.push((String::from_str("content"), shape_item(item)));
            } else if items.len() > 1 {
                let ghost orig = items@;
                let mut rest = items;
                let mut shaped: Vec<JsonValue> = Vec::new();
                let ghost i: int = 0;
                while rest.len() > 0
                    invariant
                        0 <= i <= orig.len(),
                        rest@ == orig.skip(i),
                        shaped@.len() == i,
                        forall|j: int| 0 <= j < i ==> shaped_item_matches(shaped@[j], orig[j]),
                    decreases rest.len(),
                {
                    proof {
                        assert(rest@[0] == orig[i]);
                    }
                    let item = rest.remove(0);
                    shaped.push(shape_item(item));
                    proof {
                        assert(rest@ =~= orig.skip(i + 1));
                        i = i + 1;
                    }
                }
                proof {
                    assert(orig.skip(i).len() == 0);
                    assert(i == orig.len());
                }
                out_fields.push((String::from_str("content"), JsonValue::Arr(shaped)));
            }
        },
        _ => {},
    }
    let ghost content_idx_used = out_fields@.len() > 0;
    let ghost name_idx = out_fields@.len() as int;
    out_fields.push((String::from_str("tool_name"), JsonValue::Text(tool_name.to_owned())));
    out_fields.push((String::from_str("success"), JsonValue::Bool(!error_flag)));
    if error_flag {
        out_fields.push(
            (
                String::from_str("error"),
                JsonValue::Text(String::from_str("Tool execution reported an error")),
            ),
        );
    }
    proof {
        if content_idx_used {
            crate::json::lemma_obj_lookup_first(out_fields@, 0, "content"@);
        } else {
            crate::json::lemma_obj_lookup_none(out_fields@, "content"@);
        }
        crate::json::lemma_obj_lookup_first(out_fields@, name_idx, "tool_name"@);
        crate::json::lemma_obj_lookup_first(out_fields@, name_idx + 1, "success"@);
        if error_flag {
            crate::json::lemma_obj_lookup_first(out_fields@, name_idx + 2, "error"@);
        } else {
            crate::json::lemma_obj_lookup_none(out_fields@, "error"@);
        }
    }
    JsonValue::Obj(out_fields)
}

/// A member that is present and holds text (usable for argument
/// filtering).
pub open spec fn present_text(args: JsonValue, key: Seq<char>) -> bool {
    match json_get(args, key) {
        Some(x) => x is Text,
        None => false,
    }
}

/// How the filtered list-tasks arguments relate to the raw arguments:
/// exactly the textual filters among assignee, priority, status and tag
/// are kept, unchanged.
pub open spec fn list_args_matches(out: JsonValue, args: JsonValue) -> bool {
    &&& out is Obj
    &&& out->Obj_0@.len() == (if present_text(args, "assignee"@) {
        1int
    } else {
        0int
    }) + (if present_text(args, "priority"@) {
        1int
    } else {
        0int
    }) + (if present_text(args, "status"@) {
        1int
    } else {
        0int
    }) + (if present_text(args, "tag"@) {
        1int
    } else {
        0int
    })
    &&& (if present_text(args, "assignee"@) {
        req_text(out, "assignee"@) && text_member(out, "assignee"@) == text_member(args, "assignee"@)
    } else {
        json_get(out, "assignee"@) is None
    })
    &&& (if present_text(args, "priority"@) {
        req_text(out, "priority"@) && text_member(out, "priority"@) == text_member(args, "priority"@)
    } else {
        json_get(out, "priority"@) is None
    })
    &&& (if present_text(args, "status"@) {
        req_text(out, "status"@) && text_member(out, "status"@) == text_member(args, "status"@)
    } else {
        json_get(out, "status"@) is None
    })
    &&& (if present_text(args, "tag"@) {
        req_text(out, "tag"@) && text_member(out, "tag"@) == text_member(args, "tag"@)
    } else {
        json_get(out, "tag"@) is None
    })
}

/// The message reported when a task tool is missing its argument.
pub open spec fn missing_id_text() -> Seq<char> {
    "Missing 'id' argument for get_task"@
}

/// The message reported for a task tool nobody provides.
pub open spec fn unknown_task_tool_text(name: Seq<char>) -> Seq<char> {
    "Unknown task tool: "@ + name
}

/// Builds the protocol-call arguments of one built-in task tool:
/// `list_tasks` keeps exactly the textual filters, `get_task` demands a
/// textual id, `task_stats` takes nothing, and any other name is the
/// recoverable unknown-tool failure.
#[verifier::rlimit(60)]
pub fn task_tool_arguments(tool_name: &str, arguments: &JsonValue) -> (r: Result<
    JsonValue,
    CoreError,
>)
    ensures
        tool_name@ == "list_tasks"@ ==> r is Ok && list_args_matches(r->Ok_0, *arguments),
        tool_name@ == "get_task"@ ==> (r is Ok) == req_text(*arguments, "id"@) && (r is Ok
            ==> r->Ok_0 is Obj && r->Ok_0->Obj_0@.len() == 1 && req_text(r->Ok_0, "id"@)
            && text_member(r->Ok_0, "id"@) == text_member(*arguments, "id"@)) && (r is Err
            ==> r->Err_0 is ToolExecutionError && error_text(r->Err_0) == missing_id_text()),
        tool_name@ == "task_stats"@ ==> r is Ok && r->Ok_0 is Obj && r->Ok_0->Obj_0@.len() == 0,
        !is_builtin_task_tool(tool_name@) ==> r is Err && r->Err_0 is ToolNotFound && error_text(
            r->Err_0,
        ) == unknown_task_tool_text(tool_name@),
{
    proof {
        reveal_strlit("list_tasks");
        reveal_strlit("get_task");
        reveal_strlit("task_stats");
        assert("list_tasks"@.len() == 10 && "get_task"@.len() == 8 && "task_stats"@.len() == 10);
        assert("list_tasks"@[0] == 'l' && "task_stats"@[0] == 't');
    }
    if str_eq(tool_name, "list_tasks") {
        proof {
            reveal_strlit("assignee");
            reveal_strlit("priority");
            reveal_strlit("status");
            reveal_strlit("tag");
            assert("assignee"@.len() == 8 && "priority"@.len() == 8 && "status"@.len() == 6
                && "tag"@.len() == 3);
            assert("assignee"@[0] == 'a' && "priority"@[0] == 'p');
        }
        let mut fields: Vec<(String, JsonValue)> = Vec::new();
        let ghost a_present = present_text(*arguments, "assignee"@);
        match crate::json::get_field(arguments, "assignee") {
            Some(JsonValue::Text(s)) => {
                fields.push((String::from_str("assignee"), JsonValue::Text(s.clone())));
            },
            _ => {},
        }
        let ghost a_end = fields@;
        match crate::json::get_field(arguments, "priority") {
            Some(JsonValue::Text(s)) => {
                fields.push((String::from_str("priority"), JsonValue::Text(s.clone())));
            },
            _ => {},
        }
        let ghost p_end = fields@;
        match crate::json::get_field(arguments, "status") {
            Some(JsonValue::Text(s)) => {
                fields.push((String::from_str("status"), JsonValue::Text(s.clone())));
            },
            _ => {},
        }
        let ghost s_end = fields@;
        match crate::json::get_field(arguments, "tag") {
            Some(JsonValue::Text(s)) => {
                fields.push((String::from_str("tag"), JsonValue::Text(s.clone())));
            },
            _ => {},
        }
        proof {
            if present_text(*arguments, "assignee"@) {
                crate::json::lemma_obj_lookup_first(fields@, 0, "assignee"@);
            } else {
                crate::json::lemma_obj_lookup_none(fields@, "assignee"@);
            }
            if present_text(*arguments, "priority"@) {
                crate::json::lemma_obj_lookup_first(fields@, a_end.len() as int, "priority"@);
            } else {
                crate::json::lemma_obj_lookup_none(fields@, "priority"@);
            }
            if present_text(*arguments, "status"@) {
                crate::json::lemma_obj_lookup_first(fields@, p_end.len() as int, "status"@);
            } else {
                crate::json::lemma_obj_lookup_none(fields@, "status"@);
            }
            if present_text(*arguments, "tag"@) {
                crate::json::lemma_obj_lookup_first(fields@, s_end.len() as int, "tag"@);
            } else {
                crate::json::lemma_obj_lookup_none(fields@, "tag"@);
            }
        }
        Ok(JsonValue::Obj(fields))
    } else if str_eq(tool_name, "get_task") {
        proof {
            reveal_strlit("id");
        }
        match crate::json::get_field(arguments, "id") {
            Some(JsonValue::Text(s)) => {
                let mut fields: Vec<(String, JsonValue)> = Vec::new();
                fields.push((String::from_str("id"), JsonValue::Text(s.clone())));
                proof {
                    crate::json::lemma_obj_lookup_first(fields@, 0, "id"@);
                }
                Ok(JsonValue::Obj(fields))
            },
            _ => Err(
                CoreError::ToolExecutionError(
                    String::from_str("Missing 'id' argument for get_task"),
                ),
            ),
        }
    } else if str_eq(tool_name, "task_stats") {
        Ok(JsonValue::Obj(Vec::new()))
    } else {
        let mut msg: Vec<char> = Vec::new();
        push_str_chars(&mut msg, "Unknown task tool: ");
        push_str_chars(&mut msg, tool_name);
        Err(CoreError::ToolNotFound(string_from_chars(&msg)))
    }
}

/// The message reported when the generic invoke call names no server.
pub open spec fn missing_server_text() -> Seq<char> {
    "Missing 'server' argument"@
}

/// The message reported when the generic invoke call names no tool.
pub open spec fn missing_tool_text() -> Seq<char> {
    "Missing 'tool' argument"@
}

/// Splits the generic invoke arguments into the target server, the tool
/// name, and the forwarded arguments (an empty object when none were
/// given).
pub fn generic_invoke_parts(arguments: JsonValue) -> (r: Result<(String, String, JsonValue), CoreError>)
    ensures
        (r is Ok) == (req_text(arguments, "server"@) && req_text(arguments, "tool"@)),
        r is Ok ==> r->Ok_0.0@ == text_member(arguments, "server"@) && r->Ok_0.1@ == text_member(
            arguments,
            "tool"@,
        ) && (match json_get(arguments, "arguments"@) {
            Some(a) => r->Ok_0.2 == a,
            None => r->Ok_0.2 is Obj && r->Ok_0.2->Obj_0@.len() == 0,
        }),
        r is Err ==> r->Err_0 is ToolExecutionError && error_text(r->Err_0) == (if !req_text(
            arguments,
            "server"@,
        ) {
            missing_server_text()
        } else {
            missing_tool_text()
        }),
{
    proof {
        reveal_strlit("server");
        reveal_strlit("tool");
        reveal_strlit("arguments");
        assert("server"@.len() == 6 && "tool"@.len() == 4 && "arguments"@.len() == 9);
    }
    let mut fields = match arguments {
        JsonValue::Obj(f) => f,
        _ => {
            return Err(CoreError::ToolExecutionError(String::from_str("Missing 'server' argument")));
        },
    };
    let ghost f0 = fields@;
    let server_v = take_member(&mut fields, "server");
    let ghost f1 = fields@;
    let tool_v = take_member(&mut fields, "tool");
    let ghost f2 = fields@;
    let args_v = take_member(&mut fields, "arguments");
    proof {
        assert(obj_lookup(f1, "tool"@) == obj_lookup(f0, "tool"@));
        assert(obj_lookup(f2, "arguments"@) == obj_lookup(f1, "arguments"@));
        assert(obj_lookup(f1, "arguments"@) == obj_lookup(f0, "arguments"@));
        assert(server_v == json_get(arguments, "server"@));
        assert(tool_v == json_get(arguments, "tool"@));
        assert(args_v == json_get(arguments, "arguments"@));
    }
    let server = match server_v {
        Some(JsonValue::Text(s)) => s,
        _ => {
            return Err(CoreError::ToolExecutionError(String::from_str("Missing 'server' argument")));
        },
    };
    let tool = match tool_v {
        Some(JsonValue::Text(s)) => s,
        _ => {
            return Err(CoreError::ToolExecutionError(String::from_str("Missing 'tool' argument")));
        },
    };
    let args = match args_v {
        Some(a) => a,
        None => JsonValue::Obj(Vec::new()),
    };
    Ok((server, tool, args))
}

/// A JSON object that reads as a [`ToolCall`].
pub open spec fn tool_call_shape_ok(v: JsonValue) -> bool {
    &&& v is Obj
    &&& req_text(v, "id"@)
    &&& crate::mcp_client::opt_text_field(v, "type"@)
    &&& (match json_get(v, "function"@) {
        Some(f) => f is Obj && req_text(f, "name"@) && req_text(f, "arguments"@),
        None => false,
    })
}

/// How a parsed tool call relates to the object it was read from.
pub open spec fn tool_call_matches(c: ToolCall, v: JsonValue) -> bool {
    &&& c.id@ == text_member(v, "id"@)
    &&& crate::mcp_client::opt_field_matches(c.call_type, v, "type"@)
    &&& (match json_get(v, "function"@) {
        Some(f) => c.function.name@ == text_member(f, "name"@) && c.function.arguments@
            == text_member(f, "arguments"@),
        None => false,
    })
}

/// A JSON object that reads as a [`ResponseMessage`].
pub open spec fn response_message_shape_ok(v: JsonValue) -> bool {
    &&& v is Obj
    &&& crate::mcp_client::opt_text_field(v, "content"@)
    &&& (match opt_val(json_get(v, "tool_calls"@)) {
        None => true,
        Some(a) => a is Arr && (forall|i: int|
            0 <= i < a->Arr_0@.len() ==> tool_call_shape_ok(a->Arr_0@[i])),
    })
}

/// How a parsed response message relates to the object it was read from.
pub open spec fn response_message_matches(m: ResponseMessage, v: JsonValue) -> bool {
    &&& crate::mcp_client::opt_field_matches(m.content, v, "content"@)
    &&& (match opt_val(json_get(v, "tool_calls"@)) {
        None => m.tool_calls is None,
        Some(a) => m.tool_calls is Some && m.tool_calls->0@.len() == a->Arr_0@.len() && (forall|
            i: int,
        | 0 <= i < a->Arr_0@.len() ==> tool_call_matches(m.tool_calls->0@[i], a->Arr_0@[i])),
    })
}

/// A JSON object that reads as a [`Choice`].
pub open spec fn choice_shape_ok(v: JsonValue) -> bool {
    &&& v is Obj
    &&& (match json_get(v, "message"@) {
        Some(mv) => response_message_shape_ok(mv),
        None => false,
    })
}

/// How a parsed choice relates to the object it was read from.
pub open spec fn choice_matches(c: Choice, v: JsonValue) -> bool {
    match json_get(v, "message"@) {
        Some(mv) => response_message_matches(c.message, mv),
        None => false,
    }
}

/// A JSON value that reads as a whole [`ChatResponse`].
pub open spec fn chat_response_shape_ok(v: JsonValue) -> bool {
    &&& v is Obj
    &&& (match json_get(v, "choices"@) {
        Some(a) => a is Arr && (forall|i: int|
            0 <= i < a->Arr_0@.len() ==> choice_shape_ok(a->Arr_0@[i])),
        None => false,
    })
}

/// How a parsed chat response relates to the value it was read from.
pub open spec fn chat_response_matches(r: ChatResponse, v: JsonValue) -> bool {
    match json_get(v, "choices"@) {
        Some(a) => r.choices@.len() == a->Arr_0@.len() && (forall|i: int|
            0 <= i < a->Arr_0@.len() ==> choice_matches(r.choices@[i], a->Arr_0@[i])),
        None => false,
    }
}

/// The message reported when the endpoint's reply cannot be read.
pub open spec fn chat_parse_failure_text() -> Seq<char> {
    "Failed to parse DeepSeek API response"@
}

/// The fatal endpoint-parse error.
fn chat_parse_error() -> (r: CoreError)
    ensures
        r is EndpointError,
        error_text(r) == chat_parse_failure_text(),
{
    CoreError::EndpointError(String::from_str("Failed to parse DeepSeek API response"))
}

/// Reads one tool call out of a JSON object.
fn tool_call_from_json(v: &JsonValue) -> (r: Result<ToolCall, CoreError>)
    ensures
        (r is Ok) == tool_call_shape_ok(*v),
        r is Ok ==> tool_call_matches(r->Ok_0, *v),
        r is Err ==> r->Err_0 is EndpointError && error_text(r->Err_0)
            == chat_parse_failure_text(),
{
    if !is_object(v) {
        return Err(chat_parse_error());
    }
    let id = match crate::mcp_client::get_req_text(v, "id") {
        Ok(s) => s,
        Err(_) => {
            return Err(chat_parse_error());
        },
    };
    let call_type = match crate::mcp_client::get_opt_text(v, "type") {
        Ok(s) => s,
        Err(_) => {
            return Err(chat_parse_error());
        },
    };
    match crate::json::get_field(v, "function") {
        Some(f) => {
            if !is_object(f) {
                return Err(chat_parse_error());
            }
            let name = match crate::mcp_client::get_req_text(f, "name") {
                Ok(s) => s,
                Err(_) => {
                    return Err(chat_parse_error());
                },
            };
            let arguments = match crate::mcp_client::get_req_text(f, "arguments") {
                Ok(s) => s,
                Err(_) => {
                    return Err(chat_parse_error());
                },
            };
            Ok(ToolCall { id, call_type, function: ToolCallFunction { name, arguments } })
        },
        None => Err(chat_parse_error()),
    }
}

/// Reads one choice's message out of a JSON object.
#[verifier::loop_isolation(false)]
fn response_message_from_json(v: &JsonValue) -> (r: Result<ResponseMessage, CoreError>)
    ensures
        (r is Ok) == response_message_shape_ok(*v),
        r is Ok ==> response_message_matches(r->Ok_0, *v),
        r is Err ==> r->Err_0 is EndpointError && error_text(r->Err_0)
            == chat_parse_failure_text(),
{
    if !is_object(v) {
        return Err(chat_parse_error());
    }
    let content = match crate::mcp_client::get_opt_text(v, "content") {
        Ok(s) => s,
        Err(_) => {
            return Err(chat_parse_error());
        },
    };
    let tool_calls = match crate::json::get_field(v, "tool_calls") {
        None => None,
        Some(x) => match x {
            JsonValue::Null => None,
            JsonValue::Arr(elts) => {
                let mut out: Vec<ToolCall> = Vec::new();
                let mut i: usize = 0;
                while i < elts.len()
                    invariant
                        i <= elts.len(),
                        out@.len() == i,
                        forall|j: int|
                            0 <= j < i ==> tool_call_shape_ok(elts@[j]) && tool_call_matches(
                                out@[j],
                                elts@[j],
                            ),
                    decreases elts.len() - i,
                {
                    match tool_call_from_json(&elts[i]) {
                        Ok(c) => out.push(c),
                        Err(e) => {
                            return Err(e);
                        },
                    }
                    i = i + 1;
                }
                Some(out)
            },
            _ => {
                return Err(chat_parse_error());
            },
        },
    };
    Ok(ResponseMessage { content, tool_calls })
}

/// Reads a whole chat-completion response out of a parsed JSON value.
#[verifier::loop_isolation(false)]
pub fn chat_response_from_json(v: &JsonValue) -> (r: Result<ChatResponse, CoreError>)
    ensures
        (r is Ok) == chat_response_shape_ok(*v),
        r is Ok ==> chat_response_matches(r->Ok_0, *v),
        r is Err ==> r->Err_0 is EndpointError && error_text(r->Err_0)
            == chat_parse_failure_text(),
{
    if !is_object(v) {
        return Err(chat_parse_error());
    }
    match crate::json::get_field(v, "choices") {
        Some(x) => match x {
            JsonValue::Arr(elts) => {
                let mut out: Vec<Choice> = Vec::new();
                let mut i: usize = 0;
                while i < elts.len()
                    invariant
                        i <= elts.len(),
                        out@.len() == i,
                        forall|j: int|
                            0 <= j < i ==> choice_shape_ok(elts@[j]) && choice_matches(
                                out@[j],
                                elts@[j],
                            ),
                    decreases elts.len() - i,
                {
                    let cv = &elts[i];
                    if !is_object(cv) {
                        return Err(chat_parse_error());
                    }
                    match crate::json::get_field(cv, "message") {
                        Some(mv) => match response_message_from_json(mv) {
                            Ok(m) => out.push(Choice { message: m }),
                            Err(e) => {
                                return Err(e);
                            },
                        },
                        None => {
                            return Err(chat_parse_error());
                        },
                    }
                    i = i + 1;
                }
                Ok(ChatResponse { choices: out })
            },
            _ => Err(chat_parse_error()),
        },
        None => Err(chat_parse_error()),
    }
}

/// Reads a chat-completion response out of its body text.
pub fn chat_response_from_text(body: &str) -> (r: Result<ChatResponse, CoreError>)
    ensures
        (r is Ok) == (match json_of(body@) {
            Some(v) => chat_response_shape_ok(v),
            None => false,
        }),
        r is Ok ==> chat_response_matches(r->Ok_0, json_of(body@)->0),
        r is Err ==> r->Err_0 is EndpointError && error_text(r->Err_0)
            == chat_parse_failure_text(),
{
    match parse_json(body) {
        Some(v) => chat_response_from_json(&v),
        None => Err(chat_parse_error()),
    }
}

/// The arguments a tool call carries, read from its raw text: unparsable
/// arguments are treated as an empty object rather than erroring the
/// whole turn.
pub fn arguments_value(raw: &str) -> (r: JsonValue)
    ensures
        (match json_of(raw@) {
            Some(v) => r == v,
            None => r is Obj && r->Obj_0@.len() == 0,
        }),
{
    match parse_json(raw) {
        Some(v) => v,
        None => JsonValue::Obj(Vec::new()),
    }
}

} // verus!
