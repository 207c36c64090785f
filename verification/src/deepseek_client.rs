//! The conversation orchestrator: a bounded multi-turn exchange with a
//! chat-completion endpoint, as a pure state machine.
//!
//! The caller owns the HTTP connection.  It seeds a [`ChatLoop`], sends the
//! message history to the endpoint while [`ChatLoop::can_request`] allows,
//! hands each reply to [`ChatLoop::on_endpoint_response`], executes the
//! tool calls the step demands, and records each result.  The loop state
//! carries the proof that no run ever exceeds the round-trip cap and that
//! the tool-call counter is exactly the sum over the executed rounds.

use vstd::prelude::*;

use crate::errors::{error_text, CoreError};
use crate::json::JsonValue;
use crate::mcp_client::Task;
use crate::table_formatter::joined_prefix;
use crate::text::{
    chars_of, dec_digits, char_repeat, push_repeat, push_str_chars, push_u64, replace_all,
    replaced, str_eq, string_from_chars,
};
use crate::tooling::{ChatRequest, ChatResponse, Message, ToolCall, ToolCallFunction, ToolObject};

verus! {

/// The hard cap on endpoint round-trips in one orchestration run.
pub const MAX_TOOL_ITERATIONS: u32 = 5;

/// The sum of a sequence of counts.
pub open spec fn seq_sum(s: Seq<nat>) -> nat
    decreases s.len(),
{
    if s.len() == 0 {
        0
    } else {
        seq_sum(s.drop_last()) + s.last()
    }
}

/// The fixed role guidance seeding every run.
pub open spec fn system_prompt_text() -> Seq<char> {
    "You are an AI assistant that can analyze tasks and manage todo lists. You have access to various tools to help you provide detailed, accurate information. Use tools when they can help provide better answers."@
}

/// The message of the fatal error for an endpoint reply without choices.
pub open spec fn no_choices_text() -> Seq<char> {
    "No response choices returned from DeepSeek API"@
}

/// The fallback answer returned when every round carried tool calls.
pub open spec fn iteration_limit_text() -> Seq<char> {
    "Analysis completed with maximum tool call iterations reached."@
}

/// A reply's content, read as empty when absent.
pub open spec fn content_or_empty(c: Option<String>) -> Seq<char> {
    match c {
        Some(s) => s@,
        None => Seq::empty(),
    }
}

/// The number of tool calls carried by a reply's first choice.
pub open spec fn round_calls(resp: ChatResponse) -> nat {
    if resp.choices@.len() == 0 {
        0
    } else {
        match resp.choices@[0].message.tool_calls {
            Some(cs) => cs@.len(),
            None => 0,
        }
    }
}

/// A recorded tool call normalized for the transcript: same id, name and
/// arguments, and the call type pinned to `function`.
pub open spec fn normalized_call(n: ToolCall, c: ToolCall) -> bool {
    &&& n.id@ == c.id@
    &&& n.call_type is Some
    &&& n.call_type->0@ == "function"@
    &&& n.function.name@ == c.function.name@
    &&& n.function.arguments@ == c.function.arguments@
}

/// The assistant message appended for one endpoint reply.
pub open spec fn assistant_msg_matches(
    m: Message,
    content: Seq<char>,
    calls: Option<Seq<ToolCall>>,
) -> bool {
    &&& m.role@ == "assistant"@
    &&& m.content@ == content
    &&& m.tool_call_id is None
    &&& (match calls {
        None => m.tool_calls is None,
        Some(cs) => m.tool_calls is Some && m.tool_calls->0@.len() == cs.len() && (forall|i: int|
            0 <= i < cs.len() ==> normalized_call(m.tool_calls->0@[i], cs[i])),
    })
}

/// What the caller must do next with an endpoint reply.
pub enum ChatStep {
    /// Execute these tool calls in order, recording each result, then send
    /// the grown history again.
    RunTools(Vec<ToolCall>),
    /// The reply carried no tool calls: this is the final answer.
    Done(String),
}

/// One orchestration run: the append-only transcript, the round-trip
/// counter, and the running tool-call total with its per-round history.
pub struct ChatLoop {
    pub messages: Vec<Message>,
    pub iterations_done: u32,
    pub tool_calls_made: u64,
    pub rounds: Ghost<Seq<nat>>,
}

impl ChatLoop {
    /// The loop invariant: the round-trip counter never passes the cap,
    /// and the tool-call total is exactly the sum over the executed
    /// rounds.
    pub open spec fn wf(self) -> bool {
        &&& self.iterations_done <= MAX_TOOL_ITERATIONS
        &&& self.tool_calls_made as nat == seq_sum(self.rounds@)
        &&& self.rounds@.len() <= self.iterations_done
    }

    /// Seeds a run: one system message of role guidance, one user message.
    pub fn start(user_message: &str) -> (r: ChatLoop)
        ensures
            r.wf(),
            r.iterations_done == 0,
            r.tool_calls_made == 0,
            r.rounds@ == Seq::<nat>::empty(),
            r.messages@.len() == 2,
            r.messages@[0].role@ == "system"@,
            r.messages@[0].content@ == system_prompt_text(),
            r.messages@[0].tool_call_id is None,
            r.messages@[0].tool_calls is None,
            r.messages@[1].role@ == "user"@,
            r.messages@[1].content@ == user_message@,
            r.messages@[1].tool_call_id is None,
            r.messages@[1].tool_calls is None,
    {
        let mut messages: Vec<Message> = Vec::new();
        messages.push(
            Message {
                role: String::from_str("system"),
                content: String::from_str(
                    "You are an AI assistant that can analyze tasks and manage todo lists. You have access to various tools to help you provide detailed, accurate information. Use tools when they can help provide better answers.",
                ),
                tool_call_id: None,
                tool_calls: None,
            },
        );
        messages.push(
            Message {
                role: String::from_str("user"),
                content: user_message.to_owned(),
                tool_call_id: None,
                tool_calls: None,
            },
        );
        let r = ChatLoop {
            messages,
            iterations_done: 0,
            tool_calls_made: 0,
            rounds: Ghost(Seq::empty()),
        };
        proof {
            assert(seq_sum(r.rounds@) == 0);
        }
        r
    }

    /// Whether another endpoint round-trip is permitted.
    pub fn can_request(&self) -> (r: bool)
        ensures
            r == (self.iterations_done < MAX_TOOL_ITERATIONS),
    {
        self.iterations_done < MAX_TOOL_ITERATIONS
    }

    /// Consumes one endpoint reply: a reply without choices is the fatal
    /// endpoint error and changes nothing; a first choice with tool calls
    /// is recorded as an assistant message and handed back for execution;
    /// a first choice without tool calls ends the run with its content.
    pub fn on_endpoint_response(&mut self, resp: ChatResponse) -> (r: Result<ChatStep, CoreError>)
        requires
            old(self).wf(),
            old(self).iterations_done < MAX_TOOL_ITERATIONS,
            old(self).tool_calls_made as nat + round_calls(resp) <= u64::MAX as nat,
        ensures
            final(self).wf(),
            (r is Err) == (resp.choices@.len() == 0),
            r is Err ==> *final(self) == *old(self) && r->Err_0 is EndpointError && error_text(
                r->Err_0,
            ) == no_choices_text(),
            r is Ok ==> final(self).messages@.len() == old(self).messages@.len() + 1 && (forall|
                i: int,
            |
                0 <= i < old(self).messages@.len() ==> final(self).messages@[i]
                    == old(self).messages@[i]),
            r is Ok ==> (match resp.choices@[0].message.tool_calls {
                Some(cs) => {
                    &&& r->Ok_0 is RunTools
                    &&& r->Ok_0->RunTools_0@ == cs@
                    &&& final(self).iterations_done == old(self).iterations_done + 1
                    &&& final(self).tool_calls_made as nat == old(self).tool_calls_made as nat
                        + cs@.len()
                    &&& final(self).rounds@ == old(self).rounds@.push(cs@.len() as nat)
                    &&& assistant_msg_matches(
                        final(self).messages@.last(),
                        content_or_empty(resp.choices@[0].message.content),
                        Some(cs@),
                    )
                },
                None => {
                    &&& r->Ok_0 is Done
                    &&& r->Ok_0->Done_0@ == content_or_empty(resp.choices@[0].message.content)
                    &&& final(self).iterations_done == old(self).iterations_done + 1
                    &&& final(self).tool_calls_made == old(self).tool_calls_made
                    &&& final(self).rounds@ == old(self).rounds@
                    &&& assistant_msg_matches(
                        final(self).messages@.last(),
                        content_or_empty(resp.choices@[0].message.content),
                        None,
                    )
                },
            }),
    {
        let mut choices = resp.choices;
        if choices.len() == 0 {
            return Err(
                CoreError::EndpointError(
                    String::from_str("No response choices returned from DeepSeek API"),
                ),
            );
        }
        let first = choices.remove(0);
        let msg = first.message;
        let content = match msg.content {
            Some(c) => c,
            None => String::new(),
        };
        match msg.tool_calls {
            Some(cs) => {
                let mut normalized: Vec<ToolCall> = Vec::new();
                let mut i: usize = 0;
                while i < cs.len()
                    invariant
                        i <= cs.len(),
                        normalized@.len() == i,
                        forall|j: int| 0 <= j < i ==> normalized_call(normalized@[j], cs@[j]),
                    decreases cs.len() - i,
                {
                    normalized.push(
                        ToolCall {
                            id: cs[i].id.clone(),
                            call_type: Some(String::from_str("function")),
                            function: ToolCallFunction {
                                name: cs[i].function.name.clone(),
                                arguments: cs[i].function.arguments.clone(),
                            },
                        },
                    );
                    i = i + 1;
                }
                self.messages.push(
                    Message {
                        role: String::from_str("assistant"),
                        content,
                        tool_call_id: None,
                        tool_calls: Some(normalized),
                    },
                );
                self.iterations_done = self.iterations_done + 1;
                self.tool_calls_made = self.tool_calls_made + (cs.len() as u64);
                proof {
                    let pushed = self.rounds@.push(cs@.len() as nat);
                    assert(pushed.drop_last() =~= self.rounds@);
                    assert(seq_sum(pushed) == seq_sum(self.rounds@) + cs@.len());
                }
                self.rounds = Ghost(self.rounds@.push(cs@.len() as nat));
                Ok(ChatStep::RunTools(cs))
            },
            None => {
                let answer = content.clone();
                self.messages.push(
                    Message {
                        role: String::from_str("assistant"),
                        content,
                        tool_call_id: None,
                        tool_calls: None,
                    },
                );
                self.iterations_done = self.iterations_done + 1;
                Ok(ChatStep::Done(answer))
            },
        }
    }

    /// Records one executed tool call's result as a tool-role message
    /// carrying the originating call id.
    pub fn record_tool_result(&mut self, call_id: &str, payload: &str)
        requires
            old(self).wf(),
        ensures
            final(self).wf(),
            final(self).iterations_done == old(self).iterations_done,
            final(self).tool_calls_made == old(self).tool_calls_made,
            final(self).rounds@ == old(self).rounds@,
            final(self).messages@.len() == old(self).messages@.len() + 1,
            forall|i: int|
                0 <= i < old(self).messages@.len() ==> final(self).messages@[i] == old(
                    self,
                ).messages@[i],
            final(self).messages@.last().role@ == "tool"@,
            final(self).messages@.last().content@ == payload@,
            final(self).messages@.last().tool_call_id is Some,
            final(self).messages@.last().tool_call_id->0@ == call_id@,
            final(self).messages@.last().tool_calls is None,
    {
        self.messages.push(
            Message {
                role: String::from_str("tool"),
                content: payload.to_owned(),
                tool_call_id: Some(call_id.to_owned()),
                tool_calls: None,
            },
        );
    }

    /// The fixed fallback answer for a run that used all its round-trips:
    /// exhaustion is a soft limit, not an error.
    pub fn exhausted_message(&self) -> (r: String)
        ensures
            r@ == iteration_limit_text(),
    {
        String::from_str("Analysis completed with maximum tool call iterations reached.")
    }
}

/// The fixed model name used for analysis.
pub fn deepseek_model() -> (r: String)
    ensures
        r@ == "deepseek-chat"@,
{
    String::from_str("deepseek-chat")
}

/// The request the orchestrator sends each round: the full history and
/// catalog, automatic tool selection, a sampling temperature of seven
/// tenths, and the fixed token bound.
pub fn default_chat_request(model: String, messages: Vec<Message>, tools: Vec<ToolObject>) -> (r:
    ChatRequest)
    ensures
        r.model == model,
        r.messages == messages,
        r.tools is Some && r.tools->0 == tools,
        r.tool_choice is Some && r.tool_choice->0@ == "auto"@,
        r.temperature_tenths == 7,
        r.max_tokens == 4000,
{
    ChatRequest {
        model,
        messages,
        tools: Some(tools),
        tool_choice: Some(String::from_str("auto")),
        temperature_tenths: 7,
        max_tokens: 4000,
    }
}

/// One optional labelled line, absent with its value.
pub open spec fn opt_line(label: Seq<char>, v: Option<String>, term: Seq<char>) -> Seq<char> {
    match v {
        Some(s) => label + s@ + term,
        None => Seq::empty(),
    }
}

/// One optional tags line; a present-but-empty tag list is printed or
/// skipped depending on the block style.
pub open spec fn tags_line(label: Seq<char>, tags: Option<Vec<String>>, skip_empty: bool) -> Seq<
    char,
> {
    match tags {
        Some(ts) => if !skip_empty || ts@.len() > 0 {
            label + joined_prefix(ts@, ts@.len() as int) + "\n"@
        } else {
            Seq::empty()
        },
        None => Seq::empty(),
    }
}

/// Writes one optional labelled line.
fn push_opt_line(out: &mut Vec<char>, label: &str, v: &Option<String>, term: &str)
    ensures
        final(out)@ == old(out)@ + opt_line(label@, *v, term@),
{
    match v {
        Some(s) => {
            push_str_chars(out, label);
            push_str_chars(out, s.as_str());
            push_str_chars(out, term);
            assert(final(out)@ =~= old(out)@ + opt_line(label@, *v, term@));
        },
        None => {
            assert(final(out)@ =~= old(out)@ + opt_line(label@, *v, term@));
        },
    }
}

/// Writes one optional tags line.
fn push_tags_line(out: &mut Vec<char>, label: &str, tags: &Option<Vec<String>>, skip_empty: bool)
    ensures
        final(out)@ == old(out)@ + tags_line(label@, *tags, skip_empty),
{
    match tags {
        Some(ts) => {
            if !skip_empty || ts.len() > 0 {
                push_str_chars(out, label);
                crate::table_formatter::push_joined(out, ts);
                push_str_chars(out, "\n");
                assert(final(out)@ =~= old(out)@ + tags_line(label@, *tags, skip_empty));
            } else {
                assert(final(out)@ =~= old(out)@ + tags_line(label@, *tags, skip_empty));
            }
        },
        None => {
            assert(final(out)@ =~= old(out)@ + tags_line(label@, *tags, skip_empty));
        },
    }
}

/// One task's block in the plain analysis prompt.
pub open spec fn analysis_block_text(idx: nat, t: Task) -> Seq<char> {
    "Task "@ + dec_digits(idx + 1) + ": "@ + t.title@ + "\n"@ + opt_line(
        "  Description: "@,
        t.description,
        "\n"@,
    ) + "  Status: "@ + t.status@ + "\n"@ + opt_line("  Priority: "@, t.priority, "\n"@) + opt_line(
        "  Due Date: "@,
        t.due_date,
        "\n"@,
    ) + tags_line("  Tags: "@, t.tags, false) + "  Created: "@ + t.created_at@ + "\n\n"@
}

/// The first `i` blocks of the plain analysis prompt.
pub open spec fn analysis_blocks_prefix(ts: Seq<Task>, i: int) -> Seq<char>
    decreases i,
{
    if i <= 0 {
        Seq::empty()
    } else {
        analysis_blocks_prefix(ts, i - 1) + analysis_block_text((i - 1) as nat, ts[i - 1])
    }
}

/// The whole task listing handed to the model for analysis.
pub open spec fn tasks_analysis_text(ts: Seq<Task>) -> Seq<char> {
    analysis_blocks_prefix(ts, ts.len() as int)
}

/// Writes one task's block of the plain analysis listing.
fn push_analysis_block(out: &mut Vec<char>, idx: usize, t: &Task)
    requires
        idx < usize::MAX,
    ensures
        final(out)@ == old(out)@ + analysis_block_text(idx as nat, *t),
{
    push_str_chars(out, "Task ");
    push_u64(out, (idx as u64) + 1);
    push_str_chars(out, ": ");
    push_str_chars(out, t.title.as_str());
    push_str_chars(out, "\n");
    push_opt_line(out, "  Description: ", &t.description, "\n");
    push_str_chars(out, "  Status: ");
    push_str_chars(out, t.status.as_str());
    push_str_chars(out, "\n");
    push_opt_line(out, "  Priority: ", &t.priority, "\n");
    push_opt_line(out, "  Due Date: ", &t.due_date, "\n");
    push_tags_line(out, "  Tags: ", &t.tags, false);
    push_str_chars(out, "  Created: ");
    push_str_chars(out, t.created_at.as_str());
    push_str_chars(out, "\n\n");
    assert(final(out)@ =~= old(out)@ + analysis_block_text(idx as nat, *t));
}

/// Renders every task into the listing handed to the model, exactly as
/// [`tasks_analysis_text`] states.
#[verifier::loop_isolation(false)]
pub fn format_tasks_for_analysis(tasks: &Vec<Task>) -> (r: String)
    ensures
        r@ == tasks_analysis_text(tasks@),
{
    let mut out: Vec<char> = Vec::new();
    let mut i: usize = 0;
    while i < tasks.len()
        invariant
            i <= tasks@.len(),
            out@ == analysis_blocks_prefix(tasks@, i as int),
        decreases tasks@.len() - i,
    {
        push_analysis_block(&mut out, i, &tasks[i]);
        i = i + 1;
    }
    string_from_chars(&out)
}

/// The exact prompt of a plain (tool-free) analysis run.
pub open spec fn analysis_prompt_text(summary: Seq<char>, count: nat) -> Seq<char> {
    "Please analyze the following "@ + dec_digits(count)
        + " pending tasks and provide:\n\n1. **Priority Assessment**: Identify high-priority tasks based on due dates, dependencies, and business impact\n2. **Complexity Analysis**: Categorize tasks by estimated complexity (simple, moderate, complex)\n3. **Dependency Mapping**: Identify any potential task dependencies or conflicts\n4. **Actionable Recommendations**: Suggest an optimal execution order and resource allocation\n5. **Risk Assessment**: Highlight any tasks that might be at risk of delays or conflicts\n\nHere are the pending tasks:\n\n"@
        + summary
        + "\n\nPlease provide a structured analysis that will help prioritize and organize the work effectively."@
}

/// Builds the plain analysis prompt around a rendered task listing.
pub fn create_analysis_prompt(task_summary: &str, task_count: usize) -> (r: String)
    ensures
        r@ == analysis_prompt_text(task_summary@, task_count as nat),
{
    let mut out: Vec<char> = Vec::new();
    push_str_chars(&mut out, "Please analyze the following ");
    push_u64(&mut out, task_count as u64);
    push_str_chars(
        &mut out,
        " pending tasks and provide:\n\n1. **Priority Assessment**: Identify high-priority tasks based on due dates, dependencies, and business impact\n2. **Complexity Analysis**: Categorize tasks by estimated complexity (simple, moderate, complex)\n3. **Dependency Mapping**: Identify any potential task dependencies or conflicts\n4. **Actionable Recommendations**: Suggest an optimal execution order and resource allocation\n5. **Risk Assessment**: Highlight any tasks that might be at risk of delays or conflicts\n\nHere are the pending tasks:\n\n",
    );
    push_str_chars(&mut out, task_summary);
    push_str_chars(
        &mut out,
        "\n\nPlease provide a structured analysis that will help prioritize and organize the work effectively.",
    );
    string_from_chars(&out)
}

/// The exact prompt of a tool-enabled analysis run.
pub open spec fn tools_prompt_text(summary: Seq<char>, count: nat) -> Seq<char> {
    "Please analyze these "@ + dec_digits(count)
        + " tasks. You have access to MCP tools to get more detailed information about tasks, create task breakdowns, or perform analysis. Feel free to use any available tools to provide a comprehensive analysis.\n\nHere are the initial tasks for reference:\n\n"@
        + summary
        + "\n\nProvide insights about priorities, dependencies, complexity, and actionable recommendations. You can use the available tools to get more data or perform specific analysis operations."@
}

/// Builds the tool-enabled analysis prompt around a rendered task listing.
pub fn create_tools_analysis_prompt(task_summary: &str, task_count: usize) -> (r: String)
    ensures
        r@ == tools_prompt_text(task_summary@, task_count as nat),
{
    let mut out: Vec<char> = Vec::new();
    push_str_chars(&mut out, "Please analyze these ");
    push_u64(&mut out, task_count as u64);
    push_str_chars(
        &mut out,
        " tasks. You have access to MCP tools to get more detailed information about tasks, create task breakdowns, or perform analysis. Feel free to use any available tools to provide a comprehensive analysis.\n\nHere are the initial tasks for reference:\n\n",
    );
    push_str_chars(&mut out, task_summary);
    push_str_chars(
        &mut out,
        "\n\nProvide insights about priorities, dependencies, complexity, and actionable recommendations. You can use the available tools to get more data or perform specific analysis operations.",
    );
    string_from_chars(&out)
}

/// Metadata about one analysis run.  The duration is held in tenths of a
/// second, so no floating point is carried.
pub struct AnalysisMetadata {
    pub tools_enabled: bool,
    pub tool_calls_count: Option<u64>,
    pub analysis_duration_tenths: Option<u64>,
}

/// A finished analysis: the rendered generation time, the model, the
/// analyzed tasks, the analysis text and the run's metadata.
pub struct AnalysisReport {
    pub timestamp: String,
    pub model: String,
    pub task_count: u64,
    pub tasks: Vec<Task>,
    pub analysis: String,
    pub metadata: AnalysisMetadata,
}

/// The rendered duration: one decimal and a unit, or a placeholder.
pub open spec fn duration_text(d: Option<u64>) -> Seq<char> {
    match d {
        Some(t) => dec_digits((t / 10) as nat) + seq!['.'] + dec_digits((t % 10) as nat)
            + seq!['s'],
        None => "N/A"@,
    }
}

/// The rendered tool-call count, or a placeholder.
pub open spec fn count_text(c: Option<u64>) -> Seq<char> {
    match c {
        Some(n) => dec_digits(n as nat),
        None => "N/A"@,
    }
}

/// A yes/no flag's rendering.
pub open spec fn yes_no_text(b: bool) -> Seq<char> {
    if b {
        "Yes"@
    } else {
        "No"@
    }
}

/// Writes the rendered duration.
fn push_duration(out: &mut Vec<char>, d: &Option<u64>)
    ensures
        final(out)@ == old(out)@ + duration_text(*d),
{
    match d {
        Some(t) => {
            push_u64(out, *t / 10);
            out.push('.');
            push_u64(out, *t % 10);
            out.push('s');
        },
        None => {
            push_str_chars(out, "N/A");
        },
    }
}

/// Writes the rendered tool-call count.
fn push_count(out: &mut Vec<char>, c: &Option<u64>)
    ensures
        final(out)@ == old(out)@ + count_text(*c),
{
    match c {
        Some(n) => push_u64(out, *n),
        None => push_str_chars(out, "N/A"),
    }
}

/// One task's block in the Markdown summary.
pub open spec fn md_block_text(idx: nat, t: Task) -> Seq<char> {
    "### "@ + dec_digits(idx + 1) + ". "@ + t.title@ + "\n\n"@ + opt_line(
        "**Description:** "@,
        t.description,
        "\n\n"@,
    ) + "**Status:** "@ + t.status@ + "\n"@ + opt_line("**Priority:** "@, t.priority, "\n"@)
        + opt_line("**Due Date:** "@, t.due_date, "\n"@) + tags_line("**Tags:** "@, t.tags, true)
        + "**Created:** "@ + t.created_at@ + "\n\n"@ + "---\n\n"@
}

/// The first `i` blocks of the Markdown summary.
pub open spec fn md_blocks_prefix(ts: Seq<Task>, i: int) -> Seq<char>
    decreases i,
{
    if i <= 0 {
        Seq::empty()
    } else {
        md_blocks_prefix(ts, i - 1) + md_block_text((i - 1) as nat, ts[i - 1])
    }
}

/// Writes one task's Markdown block.
fn push_md_block(out: &mut Vec<char>, idx: usize, t: &Task)
    requires
        idx < usize::MAX,
    ensures
        final(out)@ == old(out)@ + md_block_text(idx as nat, *t),
{
    push_str_chars(out, "### ");
    push_u64(out, (idx as u64) + 1);
    push_str_chars(out, ". ");
    push_str_chars(out, t.title.as_str());
    push_str_chars(out, "\n\n");
    push_opt_line(out, "**Description:** ", &t.description, "\n\n");
    push_str_chars(out, "**Status:** ");
    push_str_chars(out, t.status.as_str());
    push_str_chars(out, "\n");
    push_opt_line(out, "**Priority:** ", &t.priority, "\n");
    push_opt_line(out, "**Due Date:** ", &t.due_date, "\n");
    push_tags_line(out, "**Tags:** ", &t.tags, true);
    push_str_chars(out, "**Created:** ");
    push_str_chars(out, t.created_at.as_str());
    push_str_chars(out, "\n\n");
    push_str_chars(out, "---\n\n");
    assert(final(out)@ =~= old(out)@ + md_block_text(idx as nat, *t));
}

/// Renders the Markdown summary of all tasks.
#[verifier::loop_isolation(false)]
pub fn format_tasks_summary(tasks: &Vec<Task>) -> (r: String)
    ensures
        r@ == md_blocks_prefix(tasks@, tasks@.len() as int),
{
    let mut out: Vec<char> = Vec::new();
    let mut i: usize = 0;
    while i < tasks.len()
        invariant
            i <= tasks@.len(),
            out@ == md_blocks_prefix(tasks@, i as int),
        decreases tasks@.len() - i,
    {
        push_md_block(&mut out, i, &tasks[i]);
        i = i + 1;
    }
    string_from_chars(&out)
}

/// One task's block in the plain-text summary.
pub open spec fn plain_block_text(idx: nat, t: Task) -> Seq<char> {
    dec_digits(idx + 1) + ". "@ + t.title@ + "\n"@ + opt_line(
        "   Description: "@,
        t.description,
        "\n"@,
    ) + "   Status: "@ + t.status@ + "\n"@ + opt_line("   Priority: "@, t.priority, "\n"@)
        + opt_line("   Due Date: "@, t.due_date, "\n"@) + tags_line("   Tags: "@, t.tags, true)
        + "   Created: "@ + t.created_at@ + "\n\n"@
}

/// The first `i` blocks of the plain-text summary.
pub open spec fn plain_blocks_prefix(ts: Seq<Task>, i: int) -> Seq<char>
    decreases i,
{
    if i <= 0 {
        Seq::empty()
    } else {
        plain_blocks_prefix(ts, i - 1) + plain_block_text((i - 1) as nat, ts[i - 1])
    }
}

/// Writes one task's plain-text block.
fn push_plain_block(out: &mut Vec<char>, idx: usize, t: &Task)
    requires
        idx < usize::MAX,
    ensures
        final(out)@ == old(out)@ + plain_block_text(idx as nat, *t),
{
    push_u64(out, (idx as u64) + 1);
    push_str_chars(out, ". ");
    push_str_chars(out, t.title.as_str());
    push_str_chars(out, "\n");
    push_opt_line(out, "   Description: ", &t.description, "\n");
    push_str_chars(out, "   Status: ");
    push_str_chars(out, t.status.as_str());
    push_str_chars(out, "\n");
    push_opt_line(out, "   Priority: ", &t.priority, "\n");
    push_opt_line(out, "   Due Date: ", &t.due_date, "\n");
    push_tags_line(out, "   Tags: ", &t.tags, true);
    push_str_chars(out, "   Created: ");
    push_str_chars(out, t.created_at.as_str());
    push_str_chars(out, "\n\n");
    assert(final(out)@ =~= old(out)@ + plain_block_text(idx as nat, *t));
}

/// Renders the plain-text summary of all tasks.
#[verifier::loop_isolation(false)]
pub fn format_tasks_summary_text(tasks: &Vec<Task>) -> (r: String)
    ensures
        r@ == plain_blocks_prefix(tasks@, tasks@.len() as int),
{
    let mut out: Vec<char> = Vec::new();
    let mut i: usize = 0;
    while i < tasks.len()
        invariant
            i <= tasks@.len(),
            out@ == plain_blocks_prefix(tasks@, i as int),
        decreases tasks@.len() - i,
    {
        push_plain_block(&mut out, i, &tasks[i]);
        i = i + 1;
    }
    string_from_chars(&out)
}

/// Markdown markers removed, heading and emphasis first, the horizontal
/// rule widened last.
pub open spec fn stripped_markdown(s: Seq<char>) -> Seq<char> {
    let s1 = replaced(s, "### "@, ""@);
    let s2 = replaced(s1, "## "@, ""@);
    let s3 = replaced(s2, "# "@, ""@);
    let s4 = replaced(s3, "**"@, ""@);
    let s5 = replaced(s4, "*"@, ""@);
    let s6 = replaced(s5, "`"@, ""@);
    let s7 = replaced(s6, "|"@, ""@);
    replaced(s7, "---"@, char_repeat('-', 47))
}

/// Strips Markdown formatting for plain-text output, exactly as
/// [`stripped_markdown`] states.
pub fn strip_markdown(markdown: &str) -> (r: String)
    ensures
        r@ == stripped_markdown(markdown@),
{
    let mut dashes: Vec<char> = Vec::new();
    push_repeat(&mut dashes, '-', 47);
    let rule = string_from_chars(&dashes);
    let s1 = replace_all(markdown, "### ", "");
    let s2 = replace_all(s1.as_str(), "## ", "");
    let s3 = replace_all(s2.as_str(), "# ", "");
    let s4 = replace_all(s3.as_str(), "**", "");
    let s5 = replace_all(s4.as_str(), "*", "");
    let s6 = replace_all(s5.as_str(), "`", "");
    let s7 = replace_all(s6.as_str(), "|", "");
    replace_all(s7.as_str(), "---", rule.as_str())
}

/// The exact Markdown rendering of a report.
pub open spec fn markdown_report_text(r: AnalysisReport) -> Seq<char> {
    "# Task Analysis Report\n\n**Generated:** "@ + r.timestamp@ + "  \n**Model:** "@ + r.model@
        + "  \n**Tasks Analyzed:** "@ + dec_digits(r.task_count as nat)
        + "  \n**Analysis Duration:** "@ + duration_text(r.metadata.analysis_duration_tenths)
        + "  \n**Tool Calls:** "@ + count_text(r.metadata.tool_calls_count)
        + "  \n\n---\n\n## 📋 Tasks Summary\n\n"@ + md_blocks_prefix(r.tasks@, r.tasks@.len() as int)
        + "\n\n---\n\n## 🤖 AI Analysis\n\n"@ + r.analysis@
        + "\n\n---\n\n## 📊 Report Metadata\n\n- **Tools Enabled:** "@ + yes_no_text(
        r.metadata.tools_enabled,
    ) + "\n- **Generation Time:** "@ + r.timestamp@ + "\n- **Processing Duration:** "@
        + duration_text(r.metadata.analysis_duration_tenths) + "\n- **MCP Tool Interactions:** "@
        + count_text(r.metadata.tool_calls_count)
        + "\n\n---\n\n*This report was generated automatically by DeepSeek MCP Tasks analyzer.*\n"@
}

/// Renders a report as email-friendly Markdown, exactly as
/// [`markdown_report_text`] states.
pub fn format_report_as_markdown(report: &AnalysisReport) -> (r: String)
    ensures
        r@ == markdown_report_text(*report),
{
    let mut out: Vec<char> = Vec::new();
    push_str_chars(&mut out, "# Task Analysis Report\n\n**Generated:** ");
    push_str_chars(&mut out, report.timestamp.as_str());
    push_str_chars(&mut out, "  \n**Model:** ");
    push_str_chars(&mut out, report.model.as_str());
    push_str_chars(&mut out, "  \n**Tasks Analyzed:** ");
    push_u64(&mut out, report.task_count);
    push_str_chars(&mut out, "  \n**Analysis Duration:** ");
    push_duration(&mut out, &report.metadata.analysis_duration_tenths);
    push_str_chars(&mut out, "  \n**Tool Calls:** ");
    push_count(&mut out, &report.metadata.tool_calls_count);
    push_str_chars(&mut out, "  \n\n---\n\n## 📋 Tasks Summary\n\n");
    let summary = format_tasks_summary(&report.tasks);
    push_str_chars(&mut out, summary.as_str());
    push_str_chars(&mut out, "\n\n---\n\n## 🤖 AI Analysis\n\n");
    push_str_chars(&mut out, report.analysis.as_str());
    push_str_chars(&mut out, "\n\n---\n\n## 📊 Report Metadata\n\n- **Tools Enabled:** ");
    if report.metadata.tools_enabled {
        push_str_chars(&mut out, "Yes");
    } else {
        push_str_chars(&mut out, "No");
    }
    push_str_chars(&mut out, "\n- **Generation Time:** ");
    push_str_chars(&mut out, report.timestamp.as_str());
    push_str_chars(&mut out, "\n- **Processing Duration:** ");
    push_duration(&mut out, &report.metadata.analysis_duration_tenths);
    push_str_chars(&mut out, "\n- **MCP Tool Interactions:** ");
    push_count(&mut out, &report.metadata.tool_calls_count);
    push_str_chars(
        &mut out,
        "\n\n---\n\n*This report was generated automatically by DeepSeek MCP Tasks analyzer.*\n",
    );
    assert(out@ =~= markdown_report_text(*report));
    string_from_chars(&out)
}

/// The exact plain-text rendering of a report: the analysis body has its
/// Markdown markers stripped.
pub open spec fn plain_report_text(r: AnalysisReport) -> Seq<char> {
    char_repeat('=', 47) + "\n            TASK ANALYSIS REPORT\n"@ + char_repeat('=', 47)
        + "\n\nGenerated: "@ + r.timestamp@ + "\nModel: "@ + r.model@ + "\nTasks Analyzed: "@
        + dec_digits(r.task_count as nat) + "\nAnalysis Duration: "@ + duration_text(
        r.metadata.analysis_duration_tenths,
    ) + "\nTool Calls: "@ + count_text(r.metadata.tool_calls_count) + "\n\n"@ + char_repeat('=', 47)
        + "\n                TASKS SUMMARY\n"@ + char_repeat('=', 47) + "\n\n"@
        + plain_blocks_prefix(r.tasks@, r.tasks@.len() as int) + "\n\n"@ + char_repeat('=', 47)
        + "\n               AI ANALYSIS\n"@ + char_repeat('=', 47) + "\n\n"@ + stripped_markdown(
        r.analysis@,
    ) + "\n\n"@ + char_repeat('=', 47) + "\n              REPORT METADATA\n"@ + char_repeat('=', 47)
        + "\n\nTools Enabled: "@ + yes_no_text(r.metadata.tools_enabled) + "\nGeneration Time: "@
        + r.timestamp@ + "\nProcessing Duration: "@ + duration_text(
        r.metadata.analysis_duration_tenths,
    ) + "\nMCP Tool Interactions: "@ + count_text(r.metadata.tool_calls_count) + "\n\n"@
        + char_repeat('=', 47)
        + "\n\nThis report was generated automatically by DeepSeek MCP Tasks analyzer.\n"@
}

/// Renders a report as plain text, exactly as [`plain_report_text`]
/// states.
#[verifier::rlimit(60)]
pub fn format_report_as_text(report: &AnalysisReport) -> (r: String)
    ensures
        r@ == plain_report_text(*report),
{
    let mut out: Vec<char> = Vec::new();
    push_repeat(&mut out, '=', 47);
    push_str_chars(&mut out, "\n            TASK ANALYSIS REPORT\n");
    push_repeat(&mut out, '=', 47);
    push_str_chars(&mut out, "\n\nGenerated: ");
    push_str_chars(&mut out, report.timestamp.as_str());
    push_str_chars(&mut out, "\nModel: ");
    push_str_chars(&mut out, report.model.as_str());
    push_str_chars(&mut out, "\nTasks Analyzed: ");
    push_u64(&mut out, report.task_count);
    push_str_chars(&mut out, "\nAnalysis Duration: ");
    push_duration(&mut out, &report.metadata.analysis_duration_tenths);
    push_str_chars(&mut out, "\nTool Calls: ");
    push_count(&mut out, &report.metadata.tool_calls_count);
    push_str_chars(&mut out, "\n\n");
    push_repeat(&mut out, '=', 47);
    push_str_chars(&mut out, "\n                TASKS SUMMARY\n");
    push_repeat(&mut out, '=', 47);
    push_str_chars(&mut out, "\n\n");
    let summary = format_tasks_summary_text(&report.tasks);
    push_str_chars(&mut out, summary.as_str());
    push_str_chars(&mut out, "\n\n");
    push_repeat(&mut out, '=', 47);
    push_str_chars(&mut out, "\n               AI ANALYSIS\n");
    push_repeat(&mut out, '=', 47);
    push_str_chars(&mut out, "\n\n");
    let stripped = strip_markdown(report.analysis.as_str());
    push_str_chars(&mut out, stripped.as_str());
    push_str_chars(&mut out, "\n\n");
    push_repeat(&mut out, '=', 47);
    push_str_chars(&mut out, "\n              REPORT METADATA\n");
    push_repeat(&mut out, '=', 47);
    push_str_chars(&mut out, "\n\nTools Enabled: ");
    if report.metadata.tools_enabled {
        push_str_chars(&mut out, "Yes");
    } else {
        push_str_chars(&mut out, "No");
    }
    push_str_chars(&mut out, "\nGeneration Time: ");
    push_str_chars(&mut out, report.timestamp.as_str());
    push_str_chars(&mut out, "\nProcessing Duration: ");
    push_duration(&mut out, &report.metadata.analysis_duration_tenths);
    push_str_chars(&mut out, "\nMCP Tool Interactions: ");
    push_count(&mut out, &report.metadata.tool_calls_count);
    push_str_chars(&mut out, "\n\n");
    push_repeat(&mut out, '=', 47);
    push_str_chars(
        &mut out,
        "\n\nThis report was generated automatically by DeepSeek MCP Tasks analyzer.\n",
    );
    assert(out@ =~= plain_report_text(*report));
    string_from_chars(&out)
}

/// The format a report is saved in.
#[derive(Clone, Copy, PartialEq, Eq, Structural, Debug)]
pub enum OutputFormat {
    Json,
    Markdown,
    PlainText,
}

/// The extension of a path: the characters after the last dot of its last
/// segment, none when that segment has no dot or only a leading one.
pub open spec fn ext_of(s: Seq<char>) -> Option<Seq<char>>
    decreases s.len(),
{
    if s.len() == 0 {
        None
    } else if s.last() == '/' {
        None
    } else if s.last() == '.' {
        if s.len() >= 2 && s[s.len() - 2] != '/' {
            Some(Seq::empty())
        } else {
            None
        }
    } else {
        match ext_of(s.drop_last()) {
            Some(e) => Some(e.push(s.last())),
            None => None,
        }
    }
}

/// The format chosen for an extension: unknown and missing extensions
/// fall back to Markdown for email convenience.
pub open spec fn format_of(s: Seq<char>) -> OutputFormat {
    match ext_of(s) {
        Some(e) => if e == "json"@ {
            OutputFormat::Json
        } else if e == "md"@ || e == "markdown"@ {
            OutputFormat::Markdown
        } else if e == "txt"@ || e == "text"@ {
            OutputFormat::PlainText
        } else {
            OutputFormat::Markdown
        },
        None => OutputFormat::Markdown,
    }
}

impl OutputFormat {
    /// Determines the output format from a path's extension, exactly as
    /// [`format_of`] states.
    #[verifier::loop_isolation(false)]
    pub fn from_path(file_path: &str) -> (r: OutputFormat)
        ensures
            r == format_of(file_path@),
    {
        let cs = chars_of(file_path);
        let mut j: usize = cs.len();
        let mut ext: Option<String> = None;
        proof {
            assert(cs@.skip(cs@.len() as int) =~= Seq::<char>::empty());
            assert(cs@.take(cs@.len() as int) =~= cs@);
            if ext_of(cs@) is Some {
                assert(ext_of(cs@)->0 + cs@.skip(cs@.len() as int) =~= ext_of(cs@)->0);
            }
        }
        loop
            invariant
                0 <= j <= cs@.len(),
                ext is None,
                forall|k: int| j <= k < cs@.len() ==> cs@[k] != '.' && cs@[k] != '/',
                ext_of(cs@) == (match ext_of(cs@.take(j as int)) {
                    Some(e) => Some(e + cs@.skip(j as int)),
                    None => None::<Seq<char>>,
                }),
            decreases j,
        {
            if j == 0 {
                break ;
            }
            let c = cs[j - 1];
            if c == '/' {
                break ;
            }
            if c == '.' {
                if j >= 2 && cs[j - 2] != '/' {
                    let mut suffix: Vec<char> = Vec::new();
                    let mut k: usize = j;
                    while k < cs.len()
                        invariant
                            j <= k <= cs@.len(),
                            suffix@ == cs@.subrange(j as int, k as int),
                        decreases cs@.len() - k,
                    {
                        suffix.push(cs[k]);
                        assert(suffix@ =~= cs@.subrange(j as int, k + 1));
                        k = k + 1;
                    }
                    proof {
                        assert(cs@.take(j as int).last() == '.');
                        assert(ext_of(cs@.take(j as int)) == Some(Seq::<char>::empty()));
                        assert(Seq::<char>::empty() + cs@.skip(j as int) =~= cs@.skip(j as int));
                        assert(cs@.subrange(j as int, cs@.len() as int) =~= cs@.skip(j as int));
                    }
                    ext = Some(string_from_chars(&suffix));
                } else {
                    proof {
                        assert(cs@.take(j as int).last() == '.');
                        if j >= 2 {
                            assert(cs@.take(j as int)[j - 2] == '/');
                        }
                        assert(ext_of(cs@.take(j as int)) is None);
                    }
                }
                break ;
            }
            proof {
                let p = cs@.take(j as int);
                assert(p.last() == cs@[j - 1]);
                assert(p.drop_last() =~= cs@.take(j as int - 1));
                if ext_of(cs@.take(j as int - 1)) is Some {
                    assert(ext_of(cs@.take(j as int - 1))->0.push(cs@[j - 1]) + cs@.skip(j as int)
                        =~= ext_of(cs@.take(j as int - 1))->0 + cs@.skip(j as int - 1));
                }
            }
            j = j - 1;
        }
        proof {
            if j == 0 {
                assert(cs@.take(0) =~= Seq::<char>::empty());
            }
            if j > 0 && cs@[j - 1] == '/' {
                assert(cs@.take(j as int).last() == '/');
            }
        }
        match ext {
            Some(e) => {
                let s = e.as_str();
                if str_eq(s, "json") {
                    OutputFormat::Json
                } else if str_eq(s, "md") || str_eq(s, "markdown") {
                    OutputFormat::Markdown
                } else if str_eq(s, "txt") || str_eq(s, "text") {
                    OutputFormat::PlainText
                } else {
                    OutputFormat::Markdown
                }
            },
            None => OutputFormat::Markdown,
        }
    }
}

/// How a JSON member mirrors an optional string field: absent strings are
/// written as `null`.
pub open spec fn opt_text_value_matches(m: Option<JsonValue>, f: Option<String>) -> bool {
    match f {
        Some(s) => m is Some && m->0 is Text && m->0->Text_0@ == s@,
        None => m == Some(JsonValue::Null),
    }
}

/// How the JSON form of a task mirrors the task, member by member, in
/// declaration order.
pub open spec fn task_value_matches(tv: JsonValue, t: Task) -> bool {
    &&& tv is Obj
    &&& tv->Obj_0@.len() == 10
    &&& (match crate::json::json_get(tv, "id"@) {
        Some(x) => x is Text && x->Text_0@ == t.id@,
        None => false,
    })
    &&& (match crate::json::json_get(tv, "title"@) {
        Some(x) => x is Text && x->Text_0@ == t.title@,
        None => false,
    })
    &&& opt_text_value_matches(crate::json::json_get(tv, "description"@), t.description)
    &&& (match crate::json::json_get(tv, "status"@) {
        Some(x) => x is Text && x->Text_0@ == t.status@,
        None => false,
    })
    &&& opt_text_value_matches(crate::json::json_get(tv, "priority"@), t.priority)
    &&& opt_text_value_matches(crate::json::json_get(tv, "due_date"@), t.due_date)
    &&& (match crate::json::json_get(tv, "created_at"@) {
        Some(x) => x is Text && x->Text_0@ == t.created_at@,
        None => false,
    })
    &&& opt_text_value_matches(crate::json::json_get(tv, "updated_at"@), t.updated_at)
    &&& opt_text_value_matches(crate::json::json_get(tv, "completed_at"@), t.completed_at)
    &&& (match t.tags {
        Some(ts) => (match crate::json::json_get(tv, "tags"@) {
            Some(a) => a is Arr && a->Arr_0@.len() == ts@.len() && (forall|i: int|
                0 <= i < ts@.len() ==> a->Arr_0@[i] is Text && a->Arr_0@[i]->Text_0@ == ts@[i]@),
            None => false,
        }),
        None => crate::json::json_get(tv, "tags"@) == Some(JsonValue::Null),
    })
}

/// An optional string as a JSON value: `null` when absent.
fn opt_text_value(f: &Option<String>) -> (r: JsonValue)
    ensures
        opt_text_value_matches(Some(r), *f),
{
    match f {
        Some(s) => JsonValue::Text(s.clone()),
        None => JsonValue::Null,
    }
}

/// Builds the JSON form of one task, exactly as [`task_value_matches`]
/// states.
#[verifier::rlimit(60)]
pub fn task_value(t: &Task) -> (tv: JsonValue)
    ensures
        task_value_matches(tv, *t),
{
    proof {
        reveal_strlit("id");
        reveal_strlit("title");
        reveal_strlit("description");
        reveal_strlit("status");
        reveal_strlit("priority");
        reveal_strlit("due_date");
        reveal_strlit("created_at");
        reveal_strlit("updated_at");
        reveal_strlit("completed_at");
        reveal_strlit("tags");
        assert("id"@.len() == 2 && "title"@.len() == 5 && "description"@.len() == 11
            && "status"@.len() == 6 && "priority"@.len() == 8 && "due_date"@.len() == 8
            && "created_at"@.len() == 10 && "updated_at"@.len() == 10 && "completed_at"@.len()
            == 12 && "tags"@.len() == 4);
        assert("priority"@[0] == 'p' && "due_date"@[0] == 'd');
        assert("created_at"@[0] == 'c' && "updated_at"@[0] == 'u');
    }
    let tags_v: JsonValue = match &t.tags {
        Some(ts) => {
            let mut arr: Vec<JsonValue> = Vec::new();
            let mut i: usize = 0;
            while i < ts.len()
                invariant
                    i <= ts@.len(),
                    arr@.len() == i,
                    forall|j: int|
                        0 <= j < i ==> arr@[j] is Text && arr@[j]->Text_0@ == ts@[j]@,
                decreases ts@.len() - i,
            {
                arr.push(JsonValue::Text(ts[i].clone()));
                i = i + 1;
            }
            JsonValue::Arr(arr)
        },
        None => JsonValue::Null,
    };
    let mut fields: Vec<(String, JsonValue)> = Vec::new();
    fields.push((String::from_str("id"), JsonValue::Text(t.id.clone())));
    fields.push((String::from_str("title"), JsonValue::Text(t.title.clone())));
    fields.push((String::from_str("description"), opt_text_value(&t.description)));
    fields.push((String::from_str("status"), JsonValue::Text(t.status.clone())));
    fields.push((String::from_str("priority"), opt_text_value(&t.priority)));
    fields.push((String::from_str("due_date"), opt_text_value(&t.due_date)));
    fields.push((String::from_str("created_at"), JsonValue::Text(t.created_at.clone())));
    fields.push((String::from_str("updated_at"), opt_text_value(&t.updated_at)));
    fields.push((String::from_str("completed_at"), opt_text_value(&t.completed_at)));
    fields.push((String::from_str("tags"), tags_v));
    proof {
        crate::json::lemma_obj_lookup_first(fields@, 0, "id"@);
        crate::json::lemma_obj_lookup_first(fields@, 1, "title"@);
        crate::json::lemma_obj_lookup_first(fields@, 2, "description"@);
        crate::json::lemma_obj_lookup_first(fields@, 3, "status"@);
        crate::json::lemma_obj_lookup_first(fields@, 4, "priority"@);
        crate::json::lemma_obj_lookup_first(fields@, 5, "due_date"@);
        crate::json::lemma_obj_lookup_first(fields@, 6, "created_at"@);
        crate::json::lemma_obj_lookup_first(fields@, 7, "updated_at"@);
        crate::json::lemma_obj_lookup_first(fields@, 8, "completed_at"@);
        crate::json::lemma_obj_lookup_first(fields@, 9, "tags"@);
    }
    JsonValue::Obj(fields)
}

/// The duration as a JSON number literal in tenths.
pub open spec fn tenths_num_text(t: u64) -> Seq<char> {
    dec_digits((t / 10) as nat) + seq!['.'] + dec_digits((t % 10) as nat)
}

/// How the JSON form of the run metadata mirrors it.
pub open spec fn metadata_value_matches(mv: JsonValue, m: AnalysisMetadata) -> bool {
    &&& mv is Obj
    &&& mv->Obj_0@.len() == 3
    &&& (match crate::json::json_get(mv, "tools_enabled"@) {
        Some(x) => x is Bool && x->Bool_0 == m.tools_enabled,
        None => false,
    })
    &&& (match m.tool_calls_count {
        Some(n) => (match crate::json::json_get(mv, "tool_calls_count"@) {
            Some(x) => x is Int && x->Int_0 == n as i64,
            None => false,
        }),
        None => crate::json::json_get(mv, "tool_calls_count"@) == Some(JsonValue::Null),
    })
    &&& (match m.analysis_duration_tenths {
        Some(t) => (match crate::json::json_get(mv, "analysis_duration_seconds"@) {
            Some(x) => x is Num && x->Num_0@ == tenths_num_text(t),
            None => false,
        }),
        None => crate::json::json_get(mv, "analysis_duration_seconds"@) == Some(JsonValue::Null),
    })
}

/// How the JSON form of a whole report mirrors it.
pub open spec fn report_value_matches(v: JsonValue, r: AnalysisReport) -> bool {
    &&& v is Obj
    &&& v->Obj_0@.len() == 6
    &&& (match crate::json::json_get(v, "timestamp"@) {
        Some(x) => x is Text && x->Text_0@ == r.timestamp@,
        None => false,
    })
    &&& (match crate::json::json_get(v, "model"@) {
        Some(x) => x is Text && x->Text_0@ == r.model@,
        None => false,
    })
    &&& (match crate::json::json_get(v, "task_count"@) {
        Some(x) => x is Int && x->Int_0 == r.task_count as i64,
        None => false,
    })
    &&& (match crate::json::json_get(v, "tasks"@) {
        Some(a) => a is Arr && a->Arr_0@.len() == r.tasks@.len() && (forall|i: int|
            0 <= i < r.tasks@.len() ==> task_value_matches(a->Arr_0@[i], r.tasks@[i])),
        None => false,
    })
    &&& (match crate::json::json_get(v, "analysis"@) {
        Some(x) => x is Text && x->Text_0@ == r.analysis@,
        None => false,
    })
    &&& (match crate::json::json_get(v, "metadata"@) {
        Some(m) => metadata_value_matches(m, r.metadata),
        None => false,
    })
}

/// Builds the JSON form of a whole report, exactly as
/// [`report_value_matches`] states; the caller renders it to text when the
/// JSON output format is chosen.
#[verifier::loop_isolation(false)]
pub fn report_to_json(r: &AnalysisReport) -> (v: JsonValue)
    requires
        r.task_count <= i64::MAX,
        (match r.metadata.tool_calls_count {
            Some(n) => n <= i64::MAX,
            None => true,
        }),
    ensures
        report_value_matches(v, *r),
{
    proof {
        reveal_strlit("timestamp");
        reveal_strlit("model");
        reveal_strlit("task_count");
        reveal_strlit("tasks");
        reveal_strlit("analysis");
        reveal_strlit("metadata");
        reveal_strlit("tools_enabled");
        reveal_strlit("tool_calls_count");
        reveal_strlit("analysis_duration_seconds");
        assert("timestamp"@.len() == 9 && "model"@.len() == 5 && "task_count"@.len() == 10
            && "tasks"@.len() == 5 && "analysis"@.len() == 8 && "metadata"@.len() == 8);
        assert("model"@[0] == 'm' && "tasks"@[0] == 't');
        assert("analysis"@[0] == 'a' && "metadata"@[0] == 'm');
        assert("tools_enabled"@.len() == 13 && "tool_calls_count"@.len() == 16
            && "analysis_duration_seconds"@.len() == 25);
    }
    let mut tasks_arr: Vec<JsonValue> = Vec::new();
    let mut i: usize = 0;
    while i < r.tasks.len()
        invariant
            i <= r.tasks@.len(),
            tasks_arr@.len() == i,
            forall|j: int| 0 <= j < i ==> task_value_matches(tasks_arr@[j], r.tasks@[j]),
        decreases r.tasks@.len() - i,
    {
        tasks_arr.push(task_value(&r.tasks[i]));
        i = i + 1;
    }
    let calls_v: JsonValue = match &r.metadata.tool_calls_count {
        Some(n) => JsonValue::Int(*n as i64),
        None => JsonValue::Null,
    };
    let dur_v: JsonValue = match &r.metadata.analysis_duration_tenths {
        Some(t) => {
            let mut num: Vec<char> = Vec::new();
            push_u64(&mut num, *t / 10);
            num.push('.');
            push_u64(&mut num, *t % 10);
            assert(num@ =~= tenths_num_text(*t));
            JsonValue::Num(string_from_chars(&num))
        },
        None => JsonValue::Null,
    };
    let mut meta: Vec<(String, JsonValue)> = Vec::new();
    meta.push((String::from_str("tools_enabled"), JsonValue::Bool(r.metadata.tools_enabled)));
    meta.push((String::from_str("tool_calls_count"), calls_v));
    meta.push((String::from_str("analysis_duration_seconds"), dur_v));
    proof {
        crate::json::lemma_obj_lookup_first(meta@, 0, "tools_enabled"@);
        crate::json::lemma_obj_lookup_first(meta@, 1, "tool_calls_count"@);
        crate::json::lemma_obj_lookup_first(meta@, 2, "analysis_duration_seconds"@);
    }
    let mut fields: Vec<(String, JsonValue)> = Vec::new();
    fields.push((String::from_str("timestamp"), JsonValue::Text(r.timestamp.clone())));
    fields.push((String::from_str("model"), JsonValue::Text(r.model.clone())));
    fields.push((String::from_str("task_count"), JsonValue::Int(r.task_count as i64)));
    fields.push((String::from_str("tasks"), JsonValue::Arr(tasks_arr)));
    fields.push((String::from_str("analysis"), JsonValue::Text(r.analysis.clone())));
    fields.push((String::from_str("metadata"), JsonValue::Obj(meta)));
    proof {
        crate::json::lemma_obj_lookup_first(fields@, 0, "timestamp"@);
        crate::json::lemma_obj_lookup_first(fields@, 1, "model"@);
        crate::json::lemma_obj_lookup_first(fields@, 2, "task_count"@);
        crate::json::lemma_obj_lookup_first(fields@, 3, "tasks"@);
        crate::json::lemma_obj_lookup_first(fields@, 4, "analysis"@);
        crate::json::lemma_obj_lookup_first(fields@, 5, "metadata"@);
    }
    JsonValue::Obj(fields)
}

/// Law: an orchestration run never exceeds the round-trip cap — five
/// rounds even when every reply carries tool calls — and its tool-call
/// counter equals the sum of the tool calls across all executed rounds.
pub proof fn lemma_bounded_run(l: ChatLoop)
    requires
        l.wf(),
    ensures
        l.iterations_done <= 5,
        l.tool_calls_made as nat == seq_sum(l.rounds@),
        l.rounds@.len() <= 5,
{
}

} // verus!
