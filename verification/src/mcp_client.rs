//! The protocol client core: JSON-RPC framing, id correlation and the
//! initialize handshake, as a pure state machine.
//!
//! The child process and its pipes live outside the crate.  The caller asks
//! this module for the exact line to write, performs the write and the
//! read, and hands the line that came back to [`accept_response`], which
//! enforces the id echo before any result is released.

use vstd::prelude::*;

use crate::errors::{error_text, CoreError};
use crate::json::{
    bool_text, get_field, is_object, json_get, json_text, member_text, null_text, obj_lookup,
    opt_val, push_member_key, push_null, push_quoted, quoted, render_value, take_member,
    text_member, JsonValue,
};
use crate::text::{dec_digits, push_str_chars, string_from_chars, u64_to_string};

verus! {

/// The connection-establishment state of one protocol session.
#[derive(Clone, Copy, PartialEq, Eq, Structural)]
pub enum SessionState {
    Uninitialized,
    Initializing,
    Ready,
    Closed,
}

/// The serialized per-connection state: the id counter and the handshake
/// flag.  The owning caller holds the process and stream handles.
pub struct McpClient {
    pub next_id: u64,
    pub state: SessionState,
}

/// The client capability advertisement sent in the handshake.
pub struct RootsCapability {
    pub list_changed: bool,
}

/// The (empty) sampling capability advertisement.
pub struct SamplingCapability {}

/// Capability flags carried by the initialize request.
pub struct ClientCapabilities {
    pub roots: Option<RootsCapability>,
    pub sampling: Option<SamplingCapability>,
}

/// The client identity carried by the initialize request.
pub struct ClientInfo {
    pub name: String,
    pub version: String,
}

/// The initialize request payload.
pub struct InitializeRequest {
    pub protocol_version: String,
    pub capabilities: ClientCapabilities,
    pub client_info: ClientInfo,
}

/// The server identity reported by the handshake.
pub struct ServerInfo {
    pub name: String,
    pub version: String,
}

/// The server capability advertisement reported by the handshake.
pub struct ServerCapabilities {
    pub tools: Option<JsonValue>,
    pub resources: Option<JsonValue>,
    pub prompts: Option<JsonValue>,
}

/// The initialize response payload.
pub struct InitializeResponse {
    pub protocol_version: String,
    pub capabilities: ServerCapabilities,
    pub server_info: ServerInfo,
}

/// An outgoing JSON-RPC request.
pub struct JsonRpcRequest {
    pub jsonrpc: String,
    pub id: String,
    pub method: String,
    pub params: Option<JsonValue>,
}

/// The error object of a JSON-RPC response.
pub struct JsonRpcError {
    pub code: i32,
    pub message: String,
    pub data: Option<JsonValue>,
}

/// An incoming JSON-RPC response envelope.
pub struct JsonRpcResponse {
    pub jsonrpc: String,
    pub id: String,
    pub result: Option<JsonValue>,
    pub error: Option<JsonRpcError>,
}

/// The exact frame text of a request with the given id, method and
/// rendered parameters.
pub open spec fn request_text(id: Seq<char>, method: Seq<char>, params_text: Seq<char>) -> Seq<
    char,
> {
    seq!['{'] + member_text("jsonrpc"@, quoted("2.0"@)) + seq![','] + member_text(
        "id"@,
        quoted(id),
    ) + seq![','] + member_text("method"@, quoted(method)) + seq![','] + member_text(
        "params"@,
        params_text,
    ) + seq!['}']
}

/// The exact frame text of a one-way notification without parameters.
pub open spec fn notification_text(method: Seq<char>) -> Seq<char> {
    seq!['{'] + member_text("jsonrpc"@, quoted("2.0"@)) + seq![','] + member_text(
        "method"@,
        quoted(method),
    ) + seq!['}']
}

/// The rendered roots capability: `null` when absent.
pub open spec fn roots_text(r: Option<RootsCapability>) -> Seq<char> {
    match r {
        None => null_text(),
        Some(rc) => seq!['{'] + member_text("listChanged"@, bool_text(rc.list_changed))
            + seq!['}'],
    }
}

/// The rendered sampling capability: `null` when absent.
pub open spec fn sampling_text(s: Option<SamplingCapability>) -> Seq<char> {
    match s {
        None => null_text(),
        Some(_) => seq!['{', '}'],
    }
}

/// The rendered client capability object.
pub open spec fn capabilities_text(c: ClientCapabilities) -> Seq<char> {
    seq!['{'] + member_text("roots"@, roots_text(c.roots)) + seq![','] + member_text(
        "sampling"@,
        sampling_text(c.sampling),
    ) + seq!['}']
}

/// The rendered client identity object.
pub open spec fn client_info_text(ci: ClientInfo) -> Seq<char> {
    seq!['{'] + member_text("name"@, quoted(ci.name@)) + seq![','] + member_text(
        "version"@,
        quoted(ci.version@),
    ) + seq!['}']
}

/// The rendered initialize parameters.
pub open spec fn initialize_params_text(req: InitializeRequest) -> Seq<char> {
    seq!['{'] + member_text("protocolVersion"@, quoted(req.protocol_version@)) + seq![',']
        + member_text("capabilities"@, capabilities_text(req.capabilities)) + seq![',']
        + member_text("clientInfo"@, client_info_text(req.client_info)) + seq!['}']
}

/// The parameters this client always sends in its initialize request.
pub open spec fn default_initialize_params_text() -> Seq<char> {
    seq!['{'] + member_text("protocolVersion"@, quoted("2024-11-05"@)) + seq![','] + member_text(
        "capabilities"@,
        seq!['{'] + member_text("roots"@, null_text()) + seq![','] + member_text(
            "sampling"@,
            null_text(),
        ) + seq!['}'],
    ) + seq![','] + member_text(
        "clientInfo"@,
        seq!['{'] + member_text("name"@, quoted("mcp-tasks"@)) + seq![','] + member_text(
            "version"@,
            quoted("0.1.0"@),
        ) + seq!['}'],
    ) + seq!['}']
}

/// The parameter object of a tool invocation: the tool name and its
/// arguments value.
pub open spec fn call_tool_params_text(name: Seq<char>, args: JsonValue) -> Seq<char> {
    seq!['{'] + member_text("name"@, quoted(name)) + seq![','] + member_text(
        "arguments"@,
        json_text(args),
    ) + seq!['}']
}

/// The message reported when an operation is attempted before the
/// handshake has completed.
pub open spec fn not_initialized_text() -> Seq<char> {
    "MCP client is not initialized"@
}

/// The message reported when the handshake fails.
pub open spec fn handshake_failure_text(err: Option<JsonRpcError>) -> Seq<char> {
    match err {
        Some(e) => "MCP initialization failed: "@ + e.message@,
        None => "MCP initialization failed: no result or error"@,
    }
}

/// Renders a full request frame from already-rendered parameters.
fn render_request_line(id: &str, method: &str, params_text: &Vec<char>) -> (r: String)
    ensures
        r@ == request_text(id@, method@, params_text@),
{
    let mut out: Vec<char> = Vec::new();
    out.push('{');
    push_member_key(&mut out, "jsonrpc");
    push_quoted(&mut out, "2.0");
    out.push(',');
    push_member_key(&mut out, "id");
    push_quoted(&mut out, id);
    out.push(',');
    push_member_key(&mut out, "method");
    push_quoted(&mut out, method);
    out.push(',');
    push_member_key(&mut out, "params");
    crate::text::push_all(&mut out, params_text);
    out.push('}');
    assert(out@ =~= request_text(id@, method@, params_text@));
    string_from_chars(&out)
}

/// Renders an outgoing request structure into its exact frame text.
pub fn render_request(req: &JsonRpcRequest) -> (r: String)
    ensures
        r@ == request_text(
            req.id@,
            req.method@,
            match req.params {
                Some(p) => json_text(p),
                None => null_text(),
            },
        ),
{
    let mut params_text: Vec<char> = Vec::new();
    match &req.params {
        Some(p) => render_value(p, &mut params_text),
        None => push_null(&mut params_text),
    }
    render_request_line(req.id.as_str(), req.method.as_str(), &params_text)
}

/// Renders a one-way notification frame.
pub fn render_notification_line(method: &str) -> (r: String)
    ensures
        r@ == notification_text(method@),
{
    let mut out: Vec<char> = Vec::new();
    out.push('{');
    push_member_key(&mut out, "jsonrpc");
    push_quoted(&mut out, "2.0");
    out.push(',');
    push_member_key(&mut out, "method");
    push_quoted(&mut out, method);
    out.push('}');
    assert(out@ =~= notification_text(method@));
    string_from_chars(&out)
}

/// The exact frame text of a one-way notification that carries
/// parameters.
pub open spec fn notification_with_params_text(method: Seq<char>, params: JsonValue) -> Seq<
    char,
> {
    seq!['{'] + member_text("jsonrpc"@, quoted("2.0"@)) + seq![','] + member_text(
        "method"@,
        quoted(method),
    ) + seq![','] + member_text("params"@, json_text(params)) + seq!['}']
}

/// Renders a one-way notification, with or without parameters; no
/// response is ever expected for it.
pub fn render_notification(method: &str, params: Option<&JsonValue>) -> (r: String)
    ensures
        (match params {
            Some(p) => r@ == notification_with_params_text(method@, *p),
            None => r@ == notification_text(method@),
        }),
{
    match params {
        None => render_notification_line(method),
        Some(p) => {
            let mut out: Vec<char> = Vec::new();
            out.push('{');
            push_member_key(&mut out, "jsonrpc");
            push_quoted(&mut out, "2.0");
            out.push(',');
            push_member_key(&mut out, "method");
            push_quoted(&mut out, method);
            out.push(',');
            push_member_key(&mut out, "params");
            render_value(p, &mut out);
            out.push('}');
            assert(out@ =~= notification_with_params_text(method@, *p));
            string_from_chars(&out)
        },
    }
}

/// The initialize payload this client always sends: protocol revision,
/// empty capability set, and the client identity.
pub fn default_initialize_request() -> (r: InitializeRequest)
    ensures
        r.protocol_version@ == "2024-11-05"@,
        r.capabilities.roots is None,
        r.capabilities.sampling is None,
        r.client_info.name@ == "mcp-tasks"@,
        r.client_info.version@ == "0.1.0"@,
{
    InitializeRequest {
        protocol_version: String::from_str("2024-11-05"),
        capabilities: ClientCapabilities { roots: None, sampling: None },
        client_info: ClientInfo {
            name: String::from_str("mcp-tasks"),
            version: String::from_str("0.1.0"),
        },
    }
}

/// Renders the capability object of a handshake request.
fn render_capabilities(c: &ClientCapabilities) -> (r: Vec<char>)
    ensures
        r@ == capabilities_text(*c),
{
    let mut out: Vec<char> = Vec::new();
    out.push('{');
    push_member_key(&mut out, "roots");
    match &c.roots {
        None => push_null(&mut out),
        Some(rc) => {
            out.push('{');
            push_member_key(&mut out, "listChanged");
            crate::json::push_bool(&mut out, rc.list_changed);
            out.push('}');
        },
    }
    out.push(',');
    push_member_key(&mut out, "sampling");
    match &c.sampling {
        None => push_null(&mut out),
        Some(_) => {
            out.push('{');
            out.push('}');
        },
    }
    out.push('}');
    assert(out@ =~= capabilities_text(*c));
    out
}

/// Renders the client identity object of a handshake request.
fn render_client_info(ci: &ClientInfo) -> (r: Vec<char>)
    ensures
        r@ == client_info_text(*ci),
{
    let mut out: Vec<char> = Vec::new();
    out.push('{');
    push_member_key(&mut out, "name");
    push_quoted(&mut out, ci.name.as_str());
    out.push(',');
    push_member_key(&mut out, "version");
    push_quoted(&mut out, ci.version.as_str());
    out.push('}');
    assert(out@ =~= client_info_text(*ci));
    out
}

/// Renders the initialize parameters of a handshake request.
pub fn render_initialize_params(req: &InitializeRequest) -> (r: Vec<char>)
    ensures
        r@ == initialize_params_text(*req),
{
    let mut out: Vec<char> = Vec::new();
    out.push('{');
    push_member_key(&mut out, "protocolVersion");
    push_quoted(&mut out, req.protocol_version.as_str());
    out.push(',');
    push_member_key(&mut out, "capabilities");
    let caps = render_capabilities(&req.capabilities);
    crate::text::push_all(&mut out, &caps);
    out.push(',');
    push_member_key(&mut out, "clientInfo");
    let info = render_client_info(&req.client_info);
    crate::text::push_all(&mut out, &info);
    out.push('}');
    assert(out@ =~= initialize_params_text(*req));
    out
}

impl McpClient {
    /// A fresh, not yet initialized session: ids start at one.
    pub fn new() -> (r: McpClient)
        ensures
            r.next_id == 1,
            r.state is Uninitialized,
    {
        McpClient { next_id: 1, state: SessionState::Uninitialized }
    }

    /// Whether the handshake has completed and operations are permitted.
    pub fn is_initialized(&self) -> (r: bool)
        ensures
            r == (self.state is Ready),
    {
        self.state == SessionState::Ready
    }

    /// Hands out the next request id and advances the shared counter, so
    /// that no two requests are ever assigned the same id.
    pub fn get_next_id(&mut self) -> (r: String)
        requires
            old(self).next_id < u64::MAX,
        ensures
            r@ == dec_digits(old(self).next_id as nat),
            final(self).next_id == old(self).next_id + 1,
            final(self).state == old(self).state,
    {
        let id = u64_to_string(self.next_id);
        self.next_id = self.next_id + 1;
        id
    }

    /// Starts the handshake: moves to `Initializing` and returns the exact
    /// initialize request frame to send.
    pub fn begin_initialize(&mut self) -> (r: String)
        requires
            old(self).next_id < u64::MAX,
            !(old(self).state is Closed),
        ensures
            final(self).state is Initializing,
            final(self).next_id == old(self).next_id + 1,
            r@ == request_text(
                dec_digits(old(self).next_id as nat),
                "initialize"@,
                default_initialize_params_text(),
            ),
    {
        let id = self.get_next_id();
        self.state = SessionState::Initializing;
        let req = default_initialize_request();
        let params = render_initialize_params(&req);
        assert(initialize_params_text(req) == default_initialize_params_text());
        render_request_line(id.as_str(), "initialize", &params)
    }

    /// Finishes the handshake from the initialize response: on success the
    /// session becomes `Ready` and the exact `initialized` notification
    /// frame to send is returned; on failure the session is permanently
    /// unusable and a fatal handshake error is reported.
    pub fn finish_initialize(&mut self, resp: &JsonRpcResponse) -> (r: Result<String, CoreError>)
        requires
            old(self).state is Initializing,
        ensures
            (r is Ok) == (resp.result is Some),
            final(self).next_id == old(self).next_id,
            r is Ok ==> final(self).state is Ready && r->Ok_0@ == notification_text(
                "initialized"@,
            ),
            r is Err ==> final(self).state is Closed && r->Err_0 is HandshakeFailed && error_text(
                r->Err_0,
            ) == handshake_failure_text(resp.error),
    {
        match &resp.result {
            Some(_) => {
                self.state = SessionState::Ready;
                Ok(render_notification_line("initialized"))
            },
            None => {
                self.state = SessionState::Closed;
                let mut msg: Vec<char> = Vec::new();
                match &resp.error {
                    Some(e) => {
                        push_str_chars(&mut msg, "MCP initialization failed: ");
                        push_str_chars(&mut msg, e.message.as_str());
                    },
                    None => {
                        push_str_chars(&mut msg, "MCP initialization failed: no result or error");
                    },
                }
                Err(CoreError::HandshakeFailed(string_from_chars(&msg)))
            },
        }
    }

    /// Builds a tool invocation request: permitted only once the handshake
    /// has completed; returns the assigned id and the exact frame text.
    pub fn call_tool_request(&mut self, name: &str, arguments: &JsonValue) -> (r: Result<
        (String, String),
        CoreError,
    >)
        requires
            old(self).next_id < u64::MAX,
        ensures
            (r is Ok) == (old(self).state is Ready),
            r is Ok ==> final(self).state is Ready && final(self).next_id == old(self).next_id + 1
                && r->Ok_0.0@ == dec_digits(old(self).next_id as nat) && r->Ok_0.1@ == request_text(
                dec_digits(old(self).next_id as nat),
                "tools/call"@,
                call_tool_params_text(name@, *arguments),
            ),
            r is Err ==> *final(self) == *old(self) && r->Err_0 is ProtocolViolation && error_text(
                r->Err_0,
            ) == not_initialized_text(),
    {
        if !self.is_initialized() {
            return Err(
                CoreError::ProtocolViolation(String::from_str("MCP client is not initialized")),
            );
        }
        let id = self.get_next_id();
        let mut params: Vec<char> = Vec::new();
        params.push('{');
        push_member_key(&mut params, "name");
        push_quoted(&mut params, name);
        params.push(',');
        push_member_key(&mut params, "arguments");
        render_value(arguments, &mut params);
        params.push('}');
        assert(params@ =~= call_tool_params_text(name@, *arguments));
        let line = render_request_line(id.as_str(), "tools/call", &params);
        Ok((id, line))
    }

    /// Builds a list-tools request: permitted only once the handshake has
    /// completed; returns the assigned id and the exact frame text.
    pub fn list_tools_request(&mut self) -> (r: Result<(String, String), CoreError>)
        requires
            old(self).next_id < u64::MAX,
        ensures
            (r is Ok) == (old(self).state is Ready),
            r is Ok ==> final(self).state is Ready && final(self).next_id == old(self).next_id + 1
                && r->Ok_0.0@ == dec_digits(old(self).next_id as nat) && r->Ok_0.1@ == request_text(
                dec_digits(old(self).next_id as nat),
                "tools/list"@,
                seq!['{', '}'],
            ),
            r is Err ==> *final(self) == *old(self) && r->Err_0 is ProtocolViolation && error_text(
                r->Err_0,
            ) == not_initialized_text(),
    {
        if !self.is_initialized() {
            return Err(
                CoreError::ProtocolViolation(String::from_str("MCP client is not initialized")),
            );
        }
        let id = self.get_next_id();
        let mut params: Vec<char> = Vec::new();
        params.push('{');
        params.push('}');
        assert(params@ =~= seq!['{', '}']);
        let line = render_request_line(id.as_str(), "tools/list", &params);
        Ok((id, line))
    }

    /// Tears the session down; no further operation is permitted.
    pub fn close(&mut self)
        ensures
            final(self).state is Closed,
            final(self).next_id == old(self).next_id,
    {
        self.state = SessionState::Closed;
    }
}

/// A task snapshot received from the server, never mutated by the core.
pub struct Task {
    pub id: String,
    pub title: String,
    pub description: Option<String>,
    pub status: String,
    pub priority: Option<String>,
    pub due_date: Option<String>,
    pub created_at: String,
    pub updated_at: Option<String>,
    pub completed_at: Option<String>,
    pub tags: Option<Vec<String>>,
}

/// The structured shape of a task-list result.
pub struct TaskListResponse {
    pub tasks: Vec<Task>,
    pub total: u32,
    pub page: u32,
    pub page_size: u32,
}

/// A task-list query: every filter is optional.
pub struct TaskQuery {
    pub page: Option<u32>,
    pub page_size: Option<u32>,
    pub status: Option<String>,
    pub priority: Option<String>,
    pub tag: Option<String>,
}

/// A tool advertised by the server.
pub struct Tool {
    pub name: String,
    pub description: Option<String>,
    pub input_schema: Option<JsonValue>,
}

/// The structured shape of a list-tools result.
pub struct ToolsListResponse {
    pub tools: Vec<Tool>,
}

/// Case-folded statuses that mark a task finished.
pub open spec fn finished_status(s: Seq<char>) -> bool {
    ||| s == "completed"@
    ||| s == "done"@
    ||| s == "finished"@
    ||| s == "closed"@
    ||| s == "resolved"@
}

/// Case-folded statuses that mark a task unfinished.
pub open spec fn unfinished_status(s: Seq<char>) -> bool {
    ||| s == "pending"@
    ||| s == "in_progress"@
    ||| s == "todo"@
    ||| s == "incomplete"@
    ||| s == "new"@
    ||| s == "open"@
    ||| s == "active"@
}

/// The three-way classification policy: a known finished status wins, then
/// a known unfinished status, and any other status is classified by the
/// presence of a completion timestamp.
pub open spec fn task_unfinished(folded_status: Seq<char>, has_completed_at: bool) -> bool {
    if finished_status(folded_status) {
        false
    } else if unfinished_status(folded_status) {
        true
    } else {
        !has_completed_at
    }
}

impl McpClient {
    /// Classifies one task by its case-folded status, falling back to the
    /// completion timestamp for unknown statuses.
    pub fn is_task_unfinished(&self, task: &Task) -> (r: bool)
        ensures
            r == task_unfinished(crate::text::lower_of(task.status@), task.completed_at is Some),
    {
        let folded = crate::text::to_lower(task.status.as_str());
        let s = folded.as_str();
        if crate::text::str_eq(s, "completed") || crate::text::str_eq(s, "done")
            || crate::text::str_eq(s, "finished") || crate::text::str_eq(s, "closed")
            || crate::text::str_eq(s, "resolved") {
            false
        } else if crate::text::str_eq(s, "pending") || crate::text::str_eq(s, "in_progress")
            || crate::text::str_eq(s, "todo") || crate::text::str_eq(s, "incomplete")
            || crate::text::str_eq(s, "new") || crate::text::str_eq(s, "open")
            || crate::text::str_eq(s, "active") {
            true
        } else {
            task.completed_at.is_none()
        }
    }

    /// Keeps exactly the unfinished tasks, in their original order.
    #[verifier::loop_isolation(false)]
    pub fn get_unfinished_tasks(&self, tasks: Vec<Task>) -> (r: Vec<Task>)
        ensures
            r@ == tasks@.filter(
                |t: Task| task_unfinished(crate::text::lower_of(t.status@), t.completed_at is Some),
            ),
    {
        let ghost pred = |t: Task|
            task_unfinished(crate::text::lower_of(t.status@), t.completed_at is Some);
        let ghost orig = tasks@;
        let mut rest = tasks;
        let mut kept: Vec<Task> = Vec::new();
        let ghost i: int = 0;
        proof {
            assert(orig.take(0).filter(pred) =~= Seq::<Task>::empty());
        }
        while rest.len() > 0
            invariant
                0 <= i <= orig.len(),
                rest@ == orig.skip(i),
                kept@ == orig.take(i).filter(pred),
            decreases rest.len(),
        {
            proof {
                assert(rest@[0] == orig[i]);
                assert(orig.take(i + 1) =~= orig.take(i).push(orig[i]));
                orig.take(i).lemma_filter_push(orig[i], pred);
            }
            let t = rest.remove(0);
            let unfinished = self.is_task_unfinished(&t);
            if unfinished {
                kept.push(t);
            }
            proof {
                assert(rest@ =~= orig.skip(i + 1));
                i = i + 1;
            }
        }
        proof {
            assert(orig.skip(i).len() == 0);
            assert(i == orig.len());
            assert(orig.take(i) =~= orig);
        }
        kept
    }

    /// Keeps exactly the tasks whose case-folded status equals the
    /// case-folded query, in their original order.
    #[verifier::loop_isolation(false)]
    pub fn get_tasks_by_status(&self, tasks: Vec<Task>, status: &str) -> (r: Vec<Task>)
        ensures
            r@ == tasks@.filter(
                |t: Task| crate::text::lower_of(t.status@) == crate::text::lower_of(status@),
            ),
    {
        let ghost pred = |t: Task|
            crate::text::lower_of(t.status@) == crate::text::lower_of(status@);
        let wanted = crate::text::to_lower(status);
        let ghost orig = tasks@;
        let mut rest = tasks;
        let mut kept: Vec<Task> = Vec::new();
        let ghost i: int = 0;
        proof {
            assert(orig.take(0).filter(pred) =~= Seq::<Task>::empty());
        }
        while rest.len() > 0
            invariant
                0 <= i <= orig.len(),
                rest@ == orig.skip(i),
                kept@ == orig.take(i).filter(pred),
                wanted@ == crate::text::lower_of(status@),
            decreases rest.len(),
        {
            proof {
                assert(rest@[0] == orig[i]);
                assert(orig.take(i + 1) =~= orig.take(i).push(orig[i]));
                orig.take(i).lemma_filter_push(orig[i], pred);
            }
            let t = rest.remove(0);
            let folded = crate::text::to_lower(t.status.as_str());
            if crate::text::str_eq(folded.as_str(), wanted.as_str()) {
                kept.push(t);
            }
            proof {
                assert(rest@ =~= orig.skip(i + 1));
                i = i + 1;
            }
        }
        proof {
            assert(orig.skip(i).len() == 0);
            assert(i == orig.len());
            assert(orig.take(i) =~= orig);
        }
        kept
    }
}

/// A well-formed JSON-RPC error object: integral `code` within `i32`,
/// textual `message`.
pub open spec fn error_shape_ok(e: JsonValue) -> bool {
    &&& e is Obj
    &&& (match json_get(e, "code"@) {
        Some(c) => c is Int && -2147483648 <= c->Int_0 && c->Int_0 <= 2147483647,
        None => false,
    })
    &&& (match json_get(e, "message"@) {
        Some(m) => m is Text,
        None => false,
    })
}

/// A well-formed response envelope: an object with textual `jsonrpc` and
/// `id`, and a well-formed `error` member when one is present.
pub open spec fn envelope_ok(v: JsonValue) -> bool {
    &&& v is Obj
    &&& (match json_get(v, "jsonrpc"@) {
        Some(j) => j is Text,
        None => false,
    })
    &&& (match json_get(v, "id"@) {
        Some(j) => j is Text,
        None => false,
    })
    &&& (match opt_val(json_get(v, "error"@)) {
        None => true,
        Some(e) => error_shape_ok(e),
    })
}

/// How a parsed envelope structure relates to the JSON value it was read
/// from, member by member.
pub open spec fn envelope_matches(resp: JsonRpcResponse, v: JsonValue) -> bool {
    &&& resp.jsonrpc@ == text_member(v, "jsonrpc"@)
    &&& resp.id@ == text_member(v, "id"@)
    &&& resp.result == opt_val(json_get(v, "result"@))
    &&& (match opt_val(json_get(v, "error"@)) {
        None => resp.error is None,
        Some(e) => {
            &&& resp.error is Some
            &&& (resp.error->0.code as int) == (match json_get(e, "code"@) {
                Some(c) => c->Int_0 as int,
                None => 0,
            })
            &&& resp.error->0.message@ == text_member(e, "message"@)
            &&& resp.error->0.data == opt_val(json_get(e, "data"@))
        },
    })
}

/// The error reported for a frame that is not a well-formed envelope.
fn malformed_envelope_error() -> (r: CoreError)
    ensures
        r is ProtocolViolation,
{
    CoreError::ProtocolViolation(String::from_str("malformed JSON-RPC response envelope"))
}

/// Reads a JSON-RPC error object out of a JSON value.
fn error_from_json(e: JsonValue) -> (r: Result<JsonRpcError, CoreError>)
    ensures
        (r is Ok) == error_shape_ok(e),
        r is Ok ==> (r->Ok_0.code as int) == (match json_get(e, "code"@) {
            Some(c) => c->Int_0 as int,
            None => 0,
        }) && r->Ok_0.message@ == text_member(e, "message"@) && r->Ok_0.data == opt_val(
            json_get(e, "data"@),
        ),
        r is Err ==> r->Err_0 is ProtocolViolation,
{
    let mut fields = match e {
        JsonValue::Obj(f) => f,
        _ => {
            return Err(malformed_envelope_error());
        },
    };
    proof {
        reveal_strlit("code");
        reveal_strlit("message");
        reveal_strlit("data");
        assert("code"@.len() == 4 && "message"@.len() == 7 && "data"@.len() == 4);
        assert("code"@[0] == 'c' && "data"@[0] == 'd');
        assert("message"@ != "code"@);
        assert("data"@ != "code"@);
        assert("data"@ != "message"@);
    }
    let ghost f0 = fields@;
    let code_v = crate::json::take_member(&mut fields, "code");
    let ghost f1 = fields@;
    let msg_v = crate::json::take_member(&mut fields, "message");
    let ghost f2 = fields@;
    let data_v = crate::json::take_member(&mut fields, "data");
    proof {
        assert(obj_lookup(f1, "message"@) == obj_lookup(f0, "message"@));
        assert(obj_lookup(f2, "data"@) == obj_lookup(f1, "data"@));
        assert(obj_lookup(f1, "data"@) == obj_lookup(f0, "data"@));
        assert(code_v == json_get(e, "code"@));
        assert(msg_v == json_get(e, "message"@));
        assert(data_v == json_get(e, "data"@));
    }
    let code64: i64 = match code_v {
        Some(JsonValue::Int(i)) => i,
        _ => {
            return Err(malformed_envelope_error());
        },
    };
    if code64 < -2147483648 || code64 > 2147483647 {
        return Err(malformed_envelope_error());
    }
    let message = match msg_v {
        Some(JsonValue::Text(s)) => s,
        _ => {
            return Err(malformed_envelope_error());
        },
    };
    let data = match data_v {
        None => None,
        Some(JsonValue::Null) => None,
        Some(x) => Some(x),
    };
    Ok(JsonRpcError { code: code64 as i32, message, data })
}

/// Reads a response envelope out of a parsed JSON value: absent and
/// `null` members are "nothing", exactly as [`envelope_matches`] states.
pub fn response_from_json(v: JsonValue) -> (r: Result<JsonRpcResponse, CoreError>)
    ensures
        (r is Ok) == envelope_ok(v),
        r is Ok ==> envelope_matches(r->Ok_0, v),
        r is Err ==> r->Err_0 is ProtocolViolation,
{
    let mut fields = match v {
        JsonValue::Obj(f) => f,
        _ => {
            return Err(malformed_envelope_error());
        },
    };
    proof {
        reveal_strlit("jsonrpc");
        reveal_strlit("id");
        reveal_strlit("result");
        reveal_strlit("error");
        assert("jsonrpc"@.len() == 7 && "id"@.len() == 2 && "result"@.len() == 6 && "error"@.len()
            == 5);
        assert("id"@ != "jsonrpc"@);
        assert("result"@ != "jsonrpc"@ && "result"@ != "id"@);
        assert("error"@ != "jsonrpc"@ && "error"@ != "id"@ && "error"@ != "result"@);
    }
    let ghost f0 = fields@;
    let jr_v = crate::json::take_member(&mut fields, "jsonrpc");
    let ghost f1 = fields@;
    let id_v = crate::json::take_member(&mut fields, "id");
    let ghost f2 = fields@;
    let result_v = crate::json::take_member(&mut fields, "result");
    let ghost f3 = fields@;
    let error_v = crate::json::take_member(&mut fields, "error");
    proof {
        assert(obj_lookup(f1, "id"@) == obj_lookup(f0, "id"@));
        assert(obj_lookup(f2, "result"@) == obj_lookup(f1, "result"@));
        assert(obj_lookup(f1, "result"@) == obj_lookup(f0, "result"@));
        assert(obj_lookup(f3, "error"@) == obj_lookup(f2, "error"@));
        assert(obj_lookup(f2, "error"@) == obj_lookup(f1, "error"@));
        assert(obj_lookup(f1, "error"@) == obj_lookup(f0, "error"@));
        assert(jr_v == json_get(v, "jsonrpc"@));
        assert(id_v == json_get(v, "id"@));
        assert(result_v == json_get(v, "result"@));
        assert(error_v == json_get(v, "error"@));
    }
    let jsonrpc = match jr_v {
        Some(JsonValue::Text(s)) => s,
        _ => {
            return Err(malformed_envelope_error());
        },
    };
    let id = match id_v {
        Some(JsonValue::Text(s)) => s,
        _ => {
            return Err(malformed_envelope_error());
        },
    };
    let result = match result_v {
        None => None,
        Some(JsonValue::Null) => None,
        Some(x) => Some(x),
    };
    let error = match error_v {
        None => None,
        Some(JsonValue::Null) => None,
        Some(e) => match error_from_json(e) {
            Ok(parsed) => Some(parsed),
            Err(err) => {
                return Err(err);
            },
        },
    };
    Ok(JsonRpcResponse { jsonrpc, id, result, error })
}

/// Whether a response line is accepted for the id assigned at send time.
pub open spec fn response_accepted(line: Seq<char>, expected: Seq<char>) -> bool {
    match crate::json::json_of(line) {
        Some(v) => envelope_ok(v) && text_member(v, "id"@) == expected,
        None => false,
    }
}

/// The message of a parse failure, carrying the offending text.
pub open spec fn parse_failure_text(line: Seq<char>) -> Seq<char> {
    "Failed to parse JSON-RPC response: "@ + line
}

/// The message of an id mismatch, a fatal protocol violation.
pub open spec fn id_mismatch_text(expected: Seq<char>, got: Seq<char>) -> Seq<char> {
    "Response ID mismatch: expected "@ + expected + ", got "@ + got
}

/// Checks one response line against the id assigned at send time: a
/// malformed line is a parse failure carrying the offending text, and an
/// envelope whose id is not the expected one is rejected before any result
/// is released.
pub fn accept_response(line: &str, expected_id: &str) -> (r: Result<JsonRpcResponse, CoreError>)
    ensures
        (r is Ok) == response_accepted(line@, expected_id@),
        r is Ok ==> r->Ok_0.id@ == expected_id@ && envelope_matches(
            r->Ok_0,
            crate::json::json_of(line@)->0,
        ),
        r is Err ==> r->Err_0 is ProtocolViolation && error_text(r->Err_0) == (match crate::json::json_of(
            line@,
        ) {
            None => parse_failure_text(line@),
            Some(v) => if !envelope_ok(v) {
                parse_failure_text(line@)
            } else {
                id_mismatch_text(expected_id@, text_member(v, "id"@))
            },
        }),
{
    match crate::json::parse_json(line) {
        None => {
            let mut msg: Vec<char> = Vec::new();
            push_str_chars(&mut msg, "Failed to parse JSON-RPC response: ");
            push_str_chars(&mut msg, line);
            Err(CoreError::ProtocolViolation(string_from_chars(&msg)))
        },
        Some(v) => match response_from_json(v) {
            Err(_) => {
                let mut msg: Vec<char> = Vec::new();
                push_str_chars(&mut msg, "Failed to parse JSON-RPC response: ");
                push_str_chars(&mut msg, line);
                Err(CoreError::ProtocolViolation(string_from_chars(&msg)))
            },
            Ok(resp) => {
                if crate::text::str_eq(resp.id.as_str(), expected_id) {
                    Ok(resp)
                } else {
                    let mut msg: Vec<char> = Vec::new();
                    push_str_chars(&mut msg, "Response ID mismatch: expected ");
                    push_str_chars(&mut msg, expected_id);
                    push_str_chars(&mut msg, ", got ");
                    push_str_chars(&mut msg, resp.id.as_str());
                    Err(CoreError::ProtocolViolation(string_from_chars(&msg)))
                }
            },
        },
    }
}

/// Law: a response is accepted only when the id it echoes equals the id
/// assigned at send time; any other line is rejected.
pub proof fn lemma_accepted_response_echoes_id(line: Seq<char>, expected: Seq<char>)
    requires
        response_accepted(line, expected),
    ensures
        crate::json::json_of(line) is Some,
        text_member(crate::json::json_of(line)->0, "id"@) == expected,
{
}

/// A required member that must hold text.
pub open spec fn req_text_field(v: JsonValue, key: Seq<char>) -> bool {
    match json_get(v, key) {
        Some(x) => x is Text,
        None => false,
    }
}

/// An optional member: absent or `null` or text.
pub open spec fn opt_text_field(v: JsonValue, key: Seq<char>) -> bool {
    match opt_val(json_get(v, key)) {
        None => true,
        Some(x) => x is Text,
    }
}

/// How an optional string field relates to the member it was read from.
pub open spec fn opt_field_matches(f: Option<String>, v: JsonValue, key: Seq<char>) -> bool {
    match opt_val(json_get(v, key)) {
        None => f is None,
        Some(x) => f is Some && f->0@ == x->Text_0@,
    }
}

/// The `tags` member: absent, `null`, or an array of text.
pub open spec fn tags_field_ok(v: JsonValue) -> bool {
    match opt_val(json_get(v, "tags"@)) {
        None => true,
        Some(a) => a is Arr && (forall|i: int|
            0 <= i < a->Arr_0@.len() ==> a->Arr_0@[i] is Text),
    }
}

/// A JSON object that reads as a [`Task`].
pub open spec fn task_shape_ok(v: JsonValue) -> bool {
    &&& v is Obj
    &&& req_text_field(v, "id"@)
    &&& req_text_field(v, "title"@)
    &&& req_text_field(v, "status"@)
    &&& req_text_field(v, "created_at"@)
    &&& opt_text_field(v, "description"@)
    &&& opt_text_field(v, "priority"@)
    &&& opt_text_field(v, "due_date"@)
    &&& opt_text_field(v, "updated_at"@)
    &&& opt_text_field(v, "completed_at"@)
    &&& tags_field_ok(v)
}

/// How a parsed task relates, field by field, to the object it was read
/// from.
pub open spec fn task_matches(t: Task, v: JsonValue) -> bool {
    &&& t.id@ == text_member(v, "id"@)
    &&& t.title@ == text_member(v, "title"@)
    &&& t.status@ == text_member(v, "status"@)
    &&& t.created_at@ == text_member(v, "created_at"@)
    &&& opt_field_matches(t.description, v, "description"@)
    &&& opt_field_matches(t.priority, v, "priority"@)
    &&& opt_field_matches(t.due_date, v, "due_date"@)
    &&& opt_field_matches(t.updated_at, v, "updated_at"@)
    &&& opt_field_matches(t.completed_at, v, "completed_at"@)
    &&& (match opt_val(json_get(v, "tags"@)) {
        None => t.tags is None,
        Some(a) => t.tags is Some && t.tags->0@.len() == a->Arr_0@.len() && (forall|i: int|
            0 <= i < a->Arr_0@.len() ==> t.tags->0@[i]@ == a->Arr_0@[i]->Text_0@),
    })
}

/// Reads a required text member, copying its characters.
pub(crate) fn get_req_text(v: &JsonValue, key: &str) -> (r: Result<String, CoreError>)
    ensures
        (r is Ok) == req_text_field(*v, key@),
        r is Ok ==> r->Ok_0@ == text_member(*v, key@),
        r is Err ==> r->Err_0 is ProtocolViolation,
{
    match get_field(v, key) {
        Some(x) => match x {
            JsonValue::Text(s) => Ok(s.clone()),
            _ => Err(malformed_envelope_error()),
        },
        None => Err(malformed_envelope_error()),
    }
}

/// Reads an optional text member, copying its characters when present.
pub(crate) fn get_opt_text(v: &JsonValue, key: &str) -> (r: Result<Option<String>, CoreError>)
    ensures
        (r is Ok) == opt_text_field(*v, key@),
        r is Ok ==> opt_field_matches(r->Ok_0, *v, key@),
        r is Err ==> r->Err_0 is ProtocolViolation,
{
    match get_field(v, key) {
        None => Ok(None),
        Some(x) => match x {
            JsonValue::Null => Ok(None),
            JsonValue::Text(s) => Ok(Some(s.clone())),
            _ => Err(malformed_envelope_error()),
        },
    }
}

/// Reads the optional `tags` member as a vector of strings.
#[verifier::loop_isolation(false)]
fn get_tags(v: &JsonValue) -> (r: Result<Option<Vec<String>>, CoreError>)
    ensures
        (r is Ok) == tags_field_ok(*v),
        r is Ok ==> (match opt_val(json_get(*v, "tags"@)) {
            None => r->Ok_0 is None,
            Some(a) => r->Ok_0 is Some && r->Ok_0->0@.len() == a->Arr_0@.len() && (forall|i: int|
                0 <= i < a->Arr_0@.len() ==> r->Ok_0->0@[i]@ == a->Arr_0@[i]->Text_0@),
        }),
        r is Err ==> r->Err_0 is ProtocolViolation,
{
    match get_field(v, "tags") {
        None => Ok(None),
        Some(x) => match x {
            JsonValue::Null => Ok(None),
            JsonValue::Arr(elts) => {
                let mut out: Vec<String> = Vec::new();
                let mut i: usize = 0;
                while i < elts.len()
                    invariant
                        i <= elts.len(),
                        out@.len() == i,
                        forall|j: int|
                            0 <= j < i ==> elts@[j] is Text && out@[j]@ == elts@[j]->Text_0@,
                    decreases elts.len() - i,
                {
                    match &elts[i] {
                        JsonValue::Text(s) => out.push(s.clone()),
                        _ => {
                            return Err(malformed_envelope_error());
                        },
                    }
                    i = i + 1;
                }
                Ok(Some(out))
            },
            _ => Err(malformed_envelope_error()),
        },
    }
}

/// Reads one task out of a JSON object, exactly as [`task_matches`]
/// states.
pub fn task_from_json(v: &JsonValue) -> (r: Result<Task, CoreError>)
    ensures
        (r is Ok) == task_shape_ok(*v),
        r is Ok ==> task_matches(r->Ok_0, *v),
        r is Err ==> r->Err_0 is ProtocolViolation,
{
    if !is_object(v) {
        return Err(malformed_envelope_error());
    }
    let id = match get_req_text(v, "id") {
        Ok(s) => s,
        Err(e) => {
            return Err(e);
        },
    };
    let title = match get_req_text(v, "title") {
        Ok(s) => s,
        Err(e) => {
            return Err(e);
        },
    };
    let status = match get_req_text(v, "status") {
        Ok(s) => s,
        Err(e) => {
            return Err(e);
        },
    };
    let created_at = match get_req_text(v, "created_at") {
        Ok(s) => s,
        Err(e) => {
            return Err(e);
        },
    };
    let description = match get_opt_text(v, "description") {
        Ok(s) => s,
        Err(e) => {
            return Err(e);
        },
    };
    let priority = match get_opt_text(v, "priority") {
        Ok(s) => s,
        Err(e) => {
            return Err(e);
        },
    };
    let due_date = match get_opt_text(v, "due_date") {
        Ok(s) => s,
        Err(e) => {
            return Err(e);
        },
    };
    let updated_at = match get_opt_text(v, "updated_at") {
        Ok(s) => s,
        Err(e) => {
            return Err(e);
        },
    };
    let completed_at = match get_opt_text(v, "completed_at") {
        Ok(s) => s,
        Err(e) => {
            return Err(e);
        },
    };
    let tags = match get_tags(v) {
        Ok(t) => t,
        Err(e) => {
            return Err(e);
        },
    };
    Ok(
        Task {
            id,
            title,
            description,
            status,
            priority,
            due_date,
            created_at,
            updated_at,
            completed_at,
            tags,
        },
    )
}

/// Every element reads as a task.
pub open spec fn tasks_all_ok(vs: Seq<JsonValue>) -> bool {
    forall|i: int| 0 <= i < vs.len() ==> task_shape_ok(vs[i])
}

/// The parsed tasks relate element by element to the array they were read
/// from.
pub open spec fn tasks_match(ts: Seq<Task>, vs: Seq<JsonValue>) -> bool {
    &&& ts.len() == vs.len()
    &&& (forall|i: int| 0 <= i < vs.len() ==> task_matches(ts[i], vs[i]))
}

/// Reads an array of tasks.
#[verifier::loop_isolation(false)]
fn tasks_from_array(elts: &Vec<JsonValue>) -> (r: Result<Vec<Task>, CoreError>)
    ensures
        (r is Ok) == tasks_all_ok(elts@),
        r is Ok ==> tasks_match(r->Ok_0@, elts@),
        r is Err ==> r->Err_0 is ProtocolViolation,
{
    let mut out: Vec<Task> = Vec::new();
    let mut i: usize = 0;
    while i < elts.len()
        invariant
            i <= elts.len(),
            out@.len() == i,
            forall|j: int| 0 <= j < i ==> task_shape_ok(elts@[j]) && task_matches(out@[j], elts@[j]),
        decreases elts.len() - i,
    {
        match task_from_json(&elts[i]) {
            Ok(t) => out.push(t),
            Err(e) => {
                return Err(e);
            },
        }
        i = i + 1;
    }
    Ok(out)
}

/// A member holding an integer within `u32`.
pub open spec fn u32_member_ok(v: JsonValue, key: Seq<char>) -> bool {
    match json_get(v, key) {
        Some(c) => c is Int && 0 <= c->Int_0 <= 4294967295,
        None => false,
    }
}

/// The integer carried by such a member.
pub open spec fn u32_member_val(v: JsonValue, key: Seq<char>) -> int
    recommends
        u32_member_ok(v, key),
{
    match json_get(v, key) {
        Some(c) => c->Int_0 as int,
        None => 0,
    }
}

/// Reads a member holding an integer within `u32`.
fn get_u32(v: &JsonValue, key: &str) -> (r: Result<u32, CoreError>)
    ensures
        (r is Ok) == u32_member_ok(*v, key@),
        r is Ok ==> (r->Ok_0 as int) == u32_member_val(*v, key@),
        r is Err ==> r->Err_0 is ProtocolViolation,
{
    match get_field(v, key) {
        Some(x) => match x {
            JsonValue::Int(i) => {
                let n: i64 = *i;
                if 0 <= n && n <= 4294967295 {
                    Ok(n as u32)
                } else {
                    Err(malformed_envelope_error())
                }
            },
            _ => Err(malformed_envelope_error()),
        },
        None => Err(malformed_envelope_error()),
    }
}

/// A structured task-list result: a `tasks` array plus paging counters.
pub open spec fn structured_tasks_ok(v: JsonValue) -> bool {
    &&& v is Obj
    &&& (match json_get(v, "tasks"@) {
        Some(a) => a is Arr && tasks_all_ok(a->Arr_0@),
        None => false,
    })
    &&& u32_member_ok(v, "total"@)
    &&& u32_member_ok(v, "page"@)
    &&& u32_member_ok(v, "page_size"@)
}

/// A bare-array task-list result.
pub open spec fn bare_tasks_ok(v: JsonValue) -> bool {
    v is Arr && tasks_all_ok(v->Arr_0@)
}

/// The array the tasks are read from, for either accepted shape.
pub open spec fn tasks_payload(v: JsonValue) -> Seq<JsonValue>
    recommends
        structured_tasks_ok(v) || bare_tasks_ok(v),
{
    if v is Obj {
        match json_get(v, "tasks"@) {
            Some(a) => a->Arr_0@,
            None => Seq::empty(),
        }
    } else {
        v->Arr_0@
    }
}

/// The message reported when neither task-list shape matches.
pub open spec fn tasks_parse_failure_text() -> Seq<char> {
    "Failed to parse tasks response from MCP server"@
}

/// Reads a task-list result, accepting the structured shape first and the
/// bare-array shape second — a deliberate compatibility fallback, in that
/// fixed order.
pub fn tasks_from_result(result: &JsonValue) -> (r: Result<Vec<Task>, CoreError>)
    ensures
        (r is Ok) == (structured_tasks_ok(*result) || bare_tasks_ok(*result)),
        r is Ok ==> tasks_match(r->Ok_0@, tasks_payload(*result)),
        r is Err ==> r->Err_0 is ProtocolViolation && error_text(r->Err_0)
            == tasks_parse_failure_text(),
{
    let parse_err = CoreError::ProtocolViolation(
        String::from_str("Failed to parse tasks response from MCP server"),
    );
    match result {
        JsonValue::Obj(_) => {
            let tasks_ok = match get_field(result, "tasks") {
                Some(a) => match a {
                    JsonValue::Arr(elts) => match tasks_from_array(elts) {
                        Ok(ts) => Some(ts),
                        Err(_) => None,
                    },
                    _ => None,
                },
                None => None,
            };
            match tasks_ok {
                Some(ts) => {
                    let total = get_u32(result, "total");
                    let page = get_u32(result, "page");
                    let page_size = get_u32(result, "page_size");
                    if total.is_ok() && page.is_ok() && page_size.is_ok() {
                        Ok(ts)
                    } else {
                        Err(parse_err)
                    }
                },
                None => Err(parse_err),
            }
        },
        JsonValue::Arr(elts) => match tasks_from_array(elts) {
            Ok(ts) => Ok(ts),
            Err(_) => Err(parse_err),
        },
        _ => Err(parse_err),
    }
}

/// Law: the shared counter assigns a different id text to every request —
/// distinct counter values always render to distinct ids.
pub proof fn lemma_request_ids_unique(a: u64, b: u64)
    requires
        a != b,
    ensures
        dec_digits(a as nat) != dec_digits(b as nat),
{
    crate::text::lemma_dec_digits_injective(a as nat, b as nat);
}

/// Reads a task-list result into the structured response shape: a
/// structured result carries its own paging counters; a bare array is
/// wrapped with counters derived from its length and the query.
pub fn task_list_from_result(result: &JsonValue, query: &TaskQuery) -> (r: Result<
    TaskListResponse,
    CoreError,
>)
    ensures
        (r is Ok) == (structured_tasks_ok(*result) || bare_tasks_ok(*result)),
        r is Ok ==> tasks_match(r->Ok_0.tasks@, tasks_payload(*result)),
        r is Ok && structured_tasks_ok(*result) ==> (r->Ok_0.total as int) == u32_member_val(
            *result,
            "total"@,
        ) && (r->Ok_0.page as int) == u32_member_val(*result, "page"@) && (r->Ok_0.page_size
            as int) == u32_member_val(*result, "page_size"@),
        r is Ok && !structured_tasks_ok(*result) ==> (tasks_payload(*result).len()
            <= u32::MAX ==> r->Ok_0.total as nat == tasks_payload(*result).len()) && (
        r->Ok_0.page as int) == (match query.page {
            Some(p) => p as int,
            None => 1,
        }) && (match query.page_size {
            Some(p) => (r->Ok_0.page_size as int) == p as int,
            None => tasks_payload(*result).len() <= u32::MAX ==> r->Ok_0.page_size as nat
                == tasks_payload(*result).len(),
        }),
        r is Err ==> r->Err_0 is ProtocolViolation && error_text(r->Err_0)
            == tasks_parse_failure_text(),
{
    let parse_err = CoreError::ProtocolViolation(
        String::from_str("Failed to parse tasks response from MCP server"),
    );
    match result {
        JsonValue::Obj(_) => {
            let tasks_ok = match get_field(result, "tasks") {
                Some(a) => match a {
                    JsonValue::Arr(elts) => match tasks_from_array(elts) {
                        Ok(ts) => Some(ts),
                        Err(_) => None,
                    },
                    _ => None,
                },
                None => None,
            };
            match tasks_ok {
                Some(ts) => {
                    let total = get_u32(result, "total");
                    let page = get_u32(result, "page");
                    let page_size = get_u32(result, "page_size");
                    match (total, page, page_size) {
                        (Ok(total), Ok(page), Ok(page_size)) => Ok(
                            TaskListResponse { tasks: ts, total, page, page_size },
                        ),
                        _ => Err(parse_err),
                    }
                },
                None => Err(parse_err),
            }
        },
        JsonValue::Arr(elts) => match tasks_from_array(elts) {
            Ok(ts) => {
                let total: u32 = #[verifier::truncate] (ts.len() as u32);
                let page: u32 = match query.page {
                    Some(p) => p,
                    None => 1,
                };
                let page_size: u32 = match query.page_size {
                    Some(p) => p,
                    None => total,
                };
                Ok(TaskListResponse { tasks: ts, total, page, page_size })
            },
            Err(_) => Err(parse_err),
        },
        _ => Err(parse_err),
    }
}

/// The message reported when a task fetch returned no result.
pub open spec fn tasks_error_text(err: Option<JsonRpcError>) -> Seq<char> {
    match err {
        Some(e) => "Failed to get tasks: "@ + e.message@,
        None => "No result from get_tasks"@,
    }
}

/// Reads the task list out of a whole response: a missing result is the
/// server-reported failure, and a present result must match one of the two
/// accepted shapes.
pub fn tasks_from_response(resp: &JsonRpcResponse) -> (r: Result<Vec<Task>, CoreError>)
    ensures
        (r is Ok) == (resp.result is Some && (structured_tasks_ok(resp.result->0) || bare_tasks_ok(
            resp.result->0,
        ))),
        r is Ok ==> tasks_match(r->Ok_0@, tasks_payload(resp.result->0)),
        resp.result is None ==> r is Err && r->Err_0 is ToolExecutionError && error_text(r->Err_0)
            == tasks_error_text(resp.error),
        r is Err ==> !(r->Err_0 is TransportIo),
{
    match &resp.result {
        Some(result) => tasks_from_result(result),
        None => {
            let mut msg: Vec<char> = Vec::new();
            match &resp.error {
                Some(e) => {
                    push_str_chars(&mut msg, "Failed to get tasks: ");
                    push_str_chars(&mut msg, e.message.as_str());
                },
                None => {
                    push_str_chars(&mut msg, "No result from get_tasks");
                },
            }
            Err(CoreError::ToolExecutionError(string_from_chars(&msg)))
        },
    }
}

/// A JSON object that reads as a [`Tool`]: a textual `name`, an optional
/// textual `description`, and any `inputSchema` value.
pub open spec fn tool_shape_ok(v: JsonValue) -> bool {
    &&& v is Obj
    &&& req_text_field(v, "name"@)
    &&& opt_text_field(v, "description"@)
}

/// How a parsed tool relates to the object it was read from.
pub open spec fn tool_matches(t: Tool, v: JsonValue) -> bool {
    &&& t.name@ == text_member(v, "name"@)
    &&& opt_field_matches(t.description, v, "description"@)
    &&& t.input_schema == opt_val(json_get(v, "inputSchema"@))
}

/// Reads one tool descriptor, moving its schema value out.
pub fn tool_from_json(v: JsonValue) -> (r: Result<Tool, CoreError>)
    ensures
        (r is Ok) == tool_shape_ok(v),
        r is Ok ==> tool_matches(r->Ok_0, v),
        r is Err ==> r->Err_0 is ProtocolViolation,
{
    let mut fields = match v {
        JsonValue::Obj(f) => f,
        _ => {
            return Err(malformed_envelope_error());
        },
    };
    proof {
        reveal_strlit("name");
        reveal_strlit("description");
        reveal_strlit("inputSchema");
        assert("name"@.len() == 4 && "description"@.len() == 11 && "inputSchema"@.len() == 11);
        assert("description"@[0] == 'd' && "inputSchema"@[0] == 'i');
        assert("description"@ != "name"@);
        assert("inputSchema"@ != "name"@ && "inputSchema"@ != "description"@);
    }
    let ghost f0 = fields@;
    let name_v = take_member(&mut fields, "name");
    let ghost f1 = fields@;
    let desc_v = take_member(&mut fields, "description");
    let ghost f2 = fields@;
    let schema_v = take_member(&mut fields, "inputSchema");
    proof {
        assert(obj_lookup(f1, "description"@) == obj_lookup(f0, "description"@));
        assert(obj_lookup(f2, "inputSchema"@) == obj_lookup(f1, "inputSchema"@));
        assert(obj_lookup(f1, "inputSchema"@) == obj_lookup(f0, "inputSchema"@));
        assert(name_v == json_get(v, "name"@));
        assert(desc_v == json_get(v, "description"@));
        assert(schema_v == json_get(v, "inputSchema"@));
    }
    let name = match name_v {
        Some(JsonValue::Text(s)) => s,
        _ => {
            return Err(malformed_envelope_error());
        },
    };
    let description = match desc_v {
        None => None,
        Some(JsonValue::Null) => None,
        Some(JsonValue::Text(s)) => Some(s),
        _ => {
            return Err(malformed_envelope_error());
        },
    };
    let input_schema = match schema_v {
        None => None,
        Some(JsonValue::Null) => None,
        Some(x) => Some(x),
    };
    Ok(Tool { name, description, input_schema })
}

/// Every element reads as a tool descriptor.
pub open spec fn tools_all_ok(vs: Seq<JsonValue>) -> bool {
    forall|i: int| 0 <= i < vs.len() ==> tool_shape_ok(vs[i])
}

/// The parsed tools relate element by element to the array they were read
/// from.
pub open spec fn tools_match(ts: Seq<Tool>, vs: Seq<JsonValue>) -> bool {
    &&& ts.len() == vs.len()
    &&& (forall|i: int| 0 <= i < vs.len() ==> tool_matches(ts[i], vs[i]))
}

/// Reads an array of tool descriptors, moving each out of the array.
#[verifier::loop_isolation(false)]
fn tools_from_array(elts: Vec<JsonValue>) -> (r: Result<Vec<Tool>, CoreError>)
    ensures
        (r is Ok) == tools_all_ok(elts@),
        r is Ok ==> tools_match(r->Ok_0@, elts@),
        r is Err ==> r->Err_0 is ProtocolViolation,
{
    let ghost orig = elts@;
    let mut rest = elts;
    let mut out: Vec<Tool> = Vec::new();
    let ghost i: int = 0;
    while rest.len() > 0
        invariant
            0 <= i <= orig.len(),
            rest@ == orig.skip(i),
            out@.len() == i,
            forall|j: int| 0 <= j < i ==> tool_shape_ok(orig[j]) && tool_matches(out@[j], orig[j]),
        decreases rest.len(),
    {
        proof {
            assert(rest@[0] == orig[i]);
        }
        let v = rest.remove(0);
        match tool_from_json(v) {
            Ok(t) => out.push(t),
            Err(e) => {
                return Err(e);
            },
        }
        proof {
            assert(rest@ =~= orig.skip(i + 1));
            i = i + 1;
        }
    }
    proof {
        assert(orig.skip(i).len() == 0);
        assert(i == orig.len());
    }
    Ok(out)
}

/// A structured list-tools result: an object holding a `tools` array.
pub open spec fn structured_tools_ok(v: JsonValue) -> bool {
    &&& v is Obj
    &&& (match json_get(v, "tools"@) {
        Some(a) => a is Arr && tools_all_ok(a->Arr_0@),
        None => false,
    })
}

/// A bare-array list-tools result.
pub open spec fn bare_tools_ok(v: JsonValue) -> bool {
    v is Arr && tools_all_ok(v->Arr_0@)
}

/// The array the tools are read from, for either accepted shape.
pub open spec fn tools_payload(v: JsonValue) -> Seq<JsonValue>
    recommends
        structured_tools_ok(v) || bare_tools_ok(v),
{
    if v is Obj {
        match json_get(v, "tools"@) {
            Some(a) => a->Arr_0@,
            None => Seq::empty(),
        }
    } else {
        v->Arr_0@
    }
}

/// The message reported when neither list-tools shape matches.
pub open spec fn tools_parse_failure_text() -> Seq<char> {
    "Failed to parse tools response from MCP server"@
}

/// Reads a list-tools result, accepting the structured shape first and
/// the bare-array shape second, in that fixed order.
pub fn tools_from_result(result: JsonValue) -> (r: Result<Vec<Tool>, CoreError>)
    ensures
        (r is Ok) == (structured_tools_ok(result) || bare_tools_ok(result)),
        r is Ok ==> tools_match(r->Ok_0@, tools_payload(result)),
        r is Err ==> r->Err_0 is ProtocolViolation && error_text(r->Err_0)
            == tools_parse_failure_text(),
{
    let parse_err = CoreError::ProtocolViolation(
        String::from_str("Failed to parse tools response from MCP server"),
    );
    match result {
        JsonValue::Obj(mut fields) => {
            let tools_v = take_member(&mut fields, "tools");
            proof {
                assert(tools_v == json_get(result, "tools"@));
            }
            match tools_v {
                Some(JsonValue::Arr(elts)) => match tools_from_array(elts) {
                    Ok(ts) => Ok(ts),
                    Err(_) => Err(parse_err),
                },
                _ => Err(parse_err),
            }
        },
        JsonValue::Arr(elts) => match tools_from_array(elts) {
            Ok(ts) => Ok(ts),
            Err(_) => Err(parse_err),
        },
        _ => Err(parse_err),
    }
}

/// The message reported when a list-tools call returned no result.
pub open spec fn tools_error_text(err: Option<JsonRpcError>) -> Seq<char> {
    match err {
        Some(e) => "Failed to get tools list: "@ + e.message@,
        None => "No result from tools/list"@,
    }
}

/// Reads the tool list out of a whole response: a missing result is the
/// server-reported failure, and a present result must match one of the
/// two accepted shapes.
pub fn tools_from_response(resp: JsonRpcResponse) -> (r: Result<Vec<Tool>, CoreError>)
    ensures
        (r is Ok) == (resp.result is Some && (structured_tools_ok(resp.result->0) || bare_tools_ok(
            resp.result->0,
        ))),
        r is Ok ==> tools_match(r->Ok_0@, tools_payload(resp.result->0)),
        resp.result is None ==> r is Err && r->Err_0 is ToolExecutionError && error_text(r->Err_0)
            == tools_error_text(resp.error),
        r is Err ==> !(r->Err_0 is TransportIo),
{
    match resp.result {
        Some(result) => tools_from_result(result),
        None => {
            let mut msg: Vec<char> = Vec::new();
            match &resp.error {
                Some(e) => {
                    push_str_chars(&mut msg, "Failed to get tools list: ");
                    push_str_chars(&mut msg, e.message.as_str());
                },
                None => {
                    push_str_chars(&mut msg, "No result from tools/list");
                },
            }
            Err(CoreError::ToolExecutionError(string_from_chars(&msg)))
        },
    }
}

/// True when a line read from the server holds no visible text, the
/// condition under which the stderr diagnostic read is attempted.
pub fn response_line_is_empty(line: &str) -> (r: bool)
    ensures
        r == (crate::text::trim_of(line@).len() == 0),
{
    let t = crate::text::trimmed(line);
    t.as_str().is_empty()
}

/// The empty-read message when the server's stderr held visible text.
pub open spec fn empty_with_stderr_text(stderr_line: Seq<char>) -> Seq<char> {
    "Empty response from MCP server. Server error: "@ + crate::text::trim_of(stderr_line)
}

/// The empty-read message when no diagnostic text was available.
pub open spec fn empty_response_text() -> Seq<char> {
    "Empty response from MCP server"@
}

/// The fatal error after an empty read from the server's stdout: when the
/// bounded stderr read produced visible text, the message carries it;
/// otherwise a generic empty-response error is reported.  A caller that
/// could not read stderr at all passes an empty string.
pub fn empty_response_failure(stderr_line: &str) -> (r: CoreError)
    ensures
        r is TransportIo,
        crate::text::trim_of(stderr_line@).len() > 0 ==> error_text(r) == empty_with_stderr_text(
            stderr_line@,
        ),
        crate::text::trim_of(stderr_line@).len() == 0 ==> error_text(r) == empty_response_text(),
{
    let t = crate::text::trimmed(stderr_line);
    if !t.as_str().is_empty() {
        let mut msg: Vec<char> = Vec::new();
        push_str_chars(&mut msg, "Empty response from MCP server. Server error: ");
        push_str_chars(&mut msg, t.as_str());
        CoreError::TransportIo(string_from_chars(&msg))
    } else {
        CoreError::TransportIo(String::from_str("Empty response from MCP server"))
    }
}

} // verus!
