//! Table rows, task statistics and the small text formatters behind them.
//!
//! The table renderer itself is presentation and lives with the caller;
//! the row conversion, the counting, the date handling and the exact
//! summary texts are verified here.

use vstd::prelude::*;

use crate::mcp_client::Task;
use crate::text::{
    chars_of, dec_digits, char_repeat, lower_of, push_all, push_repeat, push_str_chars, push_u64,
    str_eq, string_from_chars, to_lower,
};

verus! {

/// An RFC 3339 timestamp's seconds since the epoch, a function of the
/// text alone; `None` when the text is not a valid RFC 3339 date-time.
pub uninterp spec fn rfc3339_ts(s: Seq<char>) -> Option<i64>;

/// Relies on `chrono::DateTime::parse_from_rfc3339` and
/// `DateTime::timestamp`: parses an RFC 3339 date-time and reads its epoch
/// seconds; the outcome depends on the text alone and is named
/// [`rfc3339_ts`].
#[verifier::external_body]
pub fn parse_rfc3339(s: &str) -> (r: Option<i64>)
    ensures
        r == rfc3339_ts(s@),
{
    match chrono::DateTime::parse_from_rfc3339(s) {
        Ok(d) => Some(d.timestamp()),
        Err(_) => None,
    }
}

/// What parsing a date-time with the layout `%Y-%m-%d %H:%M:%S` yields, a
/// function of the text alone.
pub uninterp spec fn plain_datetime_ts(s: Seq<char>) -> Option<i64>;

/// Relies on `chrono::DateTime::parse_from_str` with the layout
/// `%Y-%m-%d %H:%M:%S`; the outcome depends on the text alone and is
/// named [`plain_datetime_ts`].
#[verifier::external_body]
pub fn parse_plain_datetime(s: &str) -> (r: Option<i64>)
    ensures
        r == plain_datetime_ts(s@),
{
    match chrono::DateTime::parse_from_str(s, "%Y-%m-%d %H:%M:%S") {
        Ok(d) => Some(d.timestamp()),
        Err(_) => None,
    }
}

/// The `%Y-%m-%d` rendering of an epoch timestamp, a function of the
/// timestamp alone; empty for a timestamp out of the calendar's range.
pub uninterp spec fn ymd_text_of(ts: i64) -> Seq<char>;

/// Relies on `chrono::DateTime::from_timestamp` and the `%Y-%m-%d`
/// formatter; the outcome depends on the timestamp alone and is named
/// [`ymd_text_of`].
#[verifier::external_body]
pub fn format_ymd(ts: i64) -> (r: String)
    ensures
        r@ == ymd_text_of(ts),
{
    match chrono::DateTime::from_timestamp(ts, 0) {
        Some(d) => d.format("%Y-%m-%d").to_string(),
        None => String::new(),
    }
}

/// Relies on `chrono::Utc::now`: the current epoch seconds.  Nothing is
/// promised of the value; callers state what holds for every outcome.
#[verifier::external_body]
pub fn now_timestamp() -> i64 {
    chrono::Utc::now().timestamp()
}

/// A text cut to `max` characters, the last three of the cut replaced by
/// an ellipsis.
pub open spec fn truncated_text(s: Seq<char>, max: nat) -> Seq<char> {
    if s.len() <= max {
        s
    } else {
        s.subrange(0, (if max >= 3 {
            max - 3
        } else {
            0
        }) as int) + seq!['.', '.', '.']
    }
}

/// Cuts a string to `max` characters, exactly as [`truncated_text`]
/// states.
pub fn truncate_string(s: &str, max_len: usize) -> (r: String)
    ensures
        r@ == truncated_text(s@, max_len as nat),
{
    let cs = chars_of(s);
    if cs.len() <= max_len {
        s.to_owned()
    } else {
        let keep: usize = if max_len >= 3 {
            max_len - 3
        } else {
            0
        };
        let mut out: Vec<char> = Vec::new();
        let mut i: usize = 0;
        while i < keep
            invariant
                i <= keep,
                keep <= cs@.len(),
                cs@ == s@,
                out@ == s@.subrange(0, i as int),
            decreases keep - i,
        {
            out.push(cs[i]);
            assert(out@ =~= s@.subrange(0, i + 1));
            i = i + 1;
        }
        out.push('.');
        out.push('.');
        out.push('.');
        assert(out@ =~= truncated_text(s@, max_len as nat));
        string_from_chars(&out)
    }
}

/// The comma-joined first `i` tags.
pub open spec fn joined_prefix(ts: Seq<String>, i: int) -> Seq<char>
    decreases i,
{
    if i <= 0 {
        Seq::empty()
    } else if i == 1 {
        ts[0]@
    } else {
        joined_prefix(ts, i - 1) + seq![',', ' '] + ts[i - 1]@
    }
}

/// The tag column: the comma-joined tags cut to thirty characters, or a
/// placeholder when there are none.
pub open spec fn tags_text(tags: Option<Vec<String>>) -> Seq<char> {
    match tags {
        Some(ts) => if ts@.len() == 0 {
            "N/A"@
        } else {
            truncated_text(joined_prefix(ts@, ts@.len() as int), 30)
        },
        None => "N/A"@,
    }
}

/// Appends the tags joined by a comma and a space.
#[verifier::loop_isolation(false)]
pub fn push_joined(out: &mut Vec<char>, ts: &Vec<String>)
    ensures
        final(out)@ == old(out)@ + joined_prefix(ts@, ts@.len() as int),
{
    let mut i: usize = 0;
    proof {
        assert(out@ =~= old(out)@ + joined_prefix(ts@, 0));
    }
    while i < ts.len()
        invariant
            i <= ts@.len(),
            out@ == old(out)@ + joined_prefix(ts@, i as int),
        decreases ts.len() - i,
    {
        if i > 0 {
            out.push(',');
            out.push(' ');
        }
        push_str_chars(out, ts[i].as_str());
        assert(out@ =~= old(out)@ + joined_prefix(ts@, i as int + 1));
        i = i + 1;
    }
}

/// Joins tags with a comma and a space, then cuts to thirty characters,
/// exactly as [`tags_text`] states.
pub fn format_tags(tags: Option<&Vec<String>>) -> (r: String)
    ensures
        (match tags {
            Some(ts) => r@ == tags_text(Some(*ts)),
            None => r@ == tags_text(None),
        }),
{
    match tags {
        Some(ts) => {
            if ts.len() == 0 {
                return String::from_str("N/A");
            }
            let mut out: Vec<char> = Vec::new();
            push_joined(&mut out, ts);
            let joined = string_from_chars(&out);
            truncate_string(joined.as_str(), 30)
        },
        None => String::from_str("N/A"),
    }
}

/// The date column: the `%Y-%m-%d` rendering of the first layout that
/// parses, the raw text cut to ten characters when neither does, or a
/// placeholder when there is no date.
pub open spec fn date_text(date: Option<String>) -> Seq<char> {
    match date {
        Some(d) => match rfc3339_ts(d@) {
            Some(ts) => ymd_text_of(ts),
            None => match plain_datetime_ts(d@) {
                Some(ts) => ymd_text_of(ts),
                None => truncated_text(d@, 10),
            },
        },
        None => "N/A"@,
    }
}

/// Formats one optional date, exactly as [`date_text`] states.
pub fn format_date_string(date_str: Option<&String>) -> (r: String)
    ensures
        (match date_str {
            Some(d) => r@ == date_text(Some(*d)),
            None => r@ == date_text(None),
        }),
{
    match date_str {
        Some(d) => match parse_rfc3339(d.as_str()) {
            Some(ts) => format_ymd(ts),
            None => match parse_plain_datetime(d.as_str()) {
                Some(ts) => format_ymd(ts),
                None => truncate_string(d.as_str(), 10),
            },
        },
        None => String::from_str("N/A"),
    }
}

/// One row of the task table, every column already rendered.
pub struct TaskTableRow {
    pub id: String,
    pub title: String,
    pub status: String,
    pub priority: String,
    pub due_date: String,
    pub created_at: String,
    pub tags: String,
}

impl TaskTableRow {
    /// Renders one task into its row: id and title cut to the column
    /// widths, missing priority shown as a placeholder, dates through the
    /// date formatter, tags joined and cut.
    pub fn from(task: Task) -> (r: TaskTableRow)
        ensures
            r.id@ == truncated_text(task.id@, 8),
            r.title@ == truncated_text(task.title@, 40),
            r.status@ == task.status@,
            (match task.priority {
                Some(p) => r.priority@ == p@,
                None => r.priority@ == "N/A"@,
            }),
            r.due_date@ == date_text(task.due_date),
            r.created_at@ == date_text(Some(task.created_at)),
            r.tags@ == tags_text(task.tags),
    {
        let id = truncate_string(task.id.as_str(), 8);
        let title = truncate_string(task.title.as_str(), 40);
        let priority = match task.priority {
            Some(p) => p,
            None => String::from_str("N/A"),
        };
        let due_date = format_date_string(task.due_date.as_ref());
        let created_at = format_date_string(Some(&task.created_at));
        let tags = format_tags(task.tags.as_ref());
        TaskTableRow { id, title, status: task.status, priority, due_date, created_at, tags }
    }
}

/// The completion rate in tenths of a percent, rounded to nearest.
pub open spec fn completion_permille(total: nat, unfinished: nat) -> nat
    recommends
        unfinished <= total,
{
    if total == 0 {
        0
    } else {
        (((total - unfinished) * 1000 + (total as int) / 2) / (total as int)) as nat
    }
}

/// The exact text of the task summary block.
pub open spec fn summary_text(total: nat, unfinished: nat) -> Seq<char> {
    "\n📊 Task Summary\n"@ + char_repeat('=', 40) + "\nTotal Tasks: "@ + dec_digits(total)
        + "\nUnfinished Tasks: "@ + dec_digits(unfinished) + "\nCompletion Rate: "@ + dec_digits(
        completion_permille(total, unfinished) / 10,
    ) + seq!['.'] + dec_digits(completion_permille(total, unfinished) % 10) + "%\n"@
}

/// The namespace of the table formatters.
pub struct TaskTableFormatter;

impl TaskTableFormatter {
    /// Renders the summary block: totals and the completion rate with one
    /// decimal, exactly as [`summary_text`] states.
    pub fn format_summary_statistics(tasks: &Vec<Task>, total_tasks: usize) -> (r: String)
        requires
            tasks@.len() <= total_tasks,
        ensures
            r@ == summary_text(total_tasks as nat, tasks@.len()),
    {
        let unfinished: usize = tasks.len();
        let permille: u64 = if total_tasks == 0 {
            0
        } else {
            let t: u128 = total_tasks as u128;
            let u: u128 = unfinished as u128;
            let x: u128 = (t - u) * 1000 + t / 2;
            proof {
                assert(x <= 1001 * t) by (nonlinear_arith)
                    requires
                        u <= t,
                        1 <= t,
                        x == (t - u) * 1000 + t / 2,
                ;
                vstd::arithmetic::div_mod::lemma_div_is_ordered(
                    x as int,
                    1001 * (t as int),
                    t as int,
                );
                vstd::arithmetic::div_mod::lemma_div_multiples_vanish(1001, t as int);
            }
            (x / t) as u64
        };
        assert(permille as nat == completion_permille(total_tasks as nat, tasks@.len()));
        let mut out: Vec<char> = Vec::new();
        push_str_chars(&mut out, "\n📊 Task Summary\n");
        push_repeat(&mut out, '=', 40);
        push_str_chars(&mut out, "\nTotal Tasks: ");
        push_u64(&mut out, total_tasks as u64);
        push_str_chars(&mut out, "\nUnfinished Tasks: ");
        push_u64(&mut out, unfinished as u64);
        push_str_chars(&mut out, "\nCompletion Rate: ");
        push_u64(&mut out, permille / 10);
        out.push('.');
        push_u64(&mut out, permille % 10);
        push_str_chars(&mut out, "%\n");
        assert(out@ =~= summary_text(total_tasks as nat, tasks@.len()));
        string_from_chars(&out)
    }
}

/// A task's case-folded priority, empty-input fold when unset.
pub open spec fn folded_priority(p: Option<String>) -> Seq<char> {
    match p {
        Some(s) => lower_of(s@),
        None => lower_of(Seq::<char>::empty()),
    }
}

/// Priorities counted as high.
pub open spec fn is_high_priority(p: Option<String>) -> bool {
    ||| folded_priority(p) == "high"@
    ||| folded_priority(p) == "urgent"@
    ||| folded_priority(p) == "critical"@
}

/// Priorities counted as medium.
pub open spec fn is_medium_priority(p: Option<String>) -> bool {
    ||| folded_priority(p) == "medium"@
    ||| folded_priority(p) == "normal"@
}

/// Priorities counted as low.
pub open spec fn is_low_priority(p: Option<String>) -> bool {
    folded_priority(p) == "low"@
}

/// Priorities counted as unset: everything the other buckets miss.
pub open spec fn is_unset_priority(p: Option<String>) -> bool {
    !is_high_priority(p) && !is_medium_priority(p) && !is_low_priority(p)
}

/// One optional line of the breakdown: nothing when the count is zero.
pub open spec fn breakdown_line(label: Seq<char>, n: nat) -> Seq<char> {
    if n > 0 {
        label + dec_digits(n) + seq!['\n']
    } else {
        Seq::empty()
    }
}

/// The exact text of the priority-breakdown block over a task list.
pub open spec fn breakdown_text(tasks: Seq<Task>) -> Seq<char> {
    "\n⚡ Priority Breakdown\n"@ + char_repeat('=', 30) + seq!['\n'] + breakdown_line(
        "🔴 High Priority: "@,
        tasks.filter(|t: Task| is_high_priority(t.priority)).len(),
    ) + breakdown_line(
        "🟡 Medium Priority: "@,
        tasks.filter(|t: Task| is_medium_priority(t.priority)).len(),
    ) + breakdown_line("🟢 Low Priority: "@, tasks.filter(|t: Task| is_low_priority(t.priority)).len())
        + breakdown_line(
        "⚪ No Priority Set: "@,
        tasks.filter(|t: Task| is_unset_priority(t.priority)).len(),
    )
}

/// Classifies one priority by its case-folded text.
fn classify_priority(p: &Option<String>) -> (r: (bool, bool, bool))
    ensures
        (match *p {
            Some(_) => true,
            None => true,
        }),
        r.0 == is_high_priority(*p),
        r.1 == is_medium_priority(*p),
        r.2 == is_low_priority(*p),
{
    let folded = match p {
        Some(s) => to_lower(s.as_str()),
        None => to_lower(""),
    };
    proof {
        reveal_strlit("");
        assert(""@ =~= Seq::<char>::empty());
    }
    let f = folded.as_str();
    let high = str_eq(f, "high") || str_eq(f, "urgent") || str_eq(f, "critical");
    let medium = str_eq(f, "medium") || str_eq(f, "normal");
    let low = str_eq(f, "low");
    (high, medium, low)
}

impl TaskTableFormatter {
    /// Renders the priority breakdown: one line per non-empty bucket, in
    /// the fixed high, medium, low, unset order, exactly as
    /// [`breakdown_text`] states.
    #[verifier::loop_isolation(false)]
    #[verifier::rlimit(100)]
    pub fn format_priority_breakdown(tasks: &Vec<Task>) -> (r: String)
        ensures
            r@ == breakdown_text(tasks@),
    {
        let ghost high_pred = |t: Task| is_high_priority(t.priority);
        let ghost medium_pred = |t: Task| is_medium_priority(t.priority);
        let ghost low_pred = |t: Task| is_low_priority(t.priority);
        let ghost unset_pred = |t: Task| is_unset_priority(t.priority);
        let mut high: usize = 0;
        let mut medium: usize = 0;
        let mut low: usize = 0;
        let mut unset: usize = 0;
        let mut i: usize = 0;
        proof {
            assert(tasks@.take(0) =~= Seq::<Task>::empty());
            reveal_strlit("high");
            reveal_strlit("urgent");
            reveal_strlit("critical");
            reveal_strlit("medium");
            reveal_strlit("normal");
            reveal_strlit("low");
            assert("high"@.len() == 4 && "urgent"@.len() == 6 && "critical"@.len() == 8
                && "medium"@.len() == 6 && "normal"@.len() == 6 && "low"@.len() == 3);
            assert("urgent"@[0] == 'u' && "medium"@[0] == 'm' && "normal"@[0] == 'n');
        }
        while i < tasks.len()
            invariant
                i <= tasks@.len(),
                high as nat == tasks@.take(i as int).filter(high_pred).len(),
                medium as nat == tasks@.take(i as int).filter(medium_pred).len(),
                low as nat == tasks@.take(i as int).filter(low_pred).len(),
                unset as nat == tasks@.take(i as int).filter(unset_pred).len(),
            decreases tasks@.len() - i,
        {
            proof {
                assert(tasks@.take(i + 1) =~= tasks@.take(i as int).push(tasks@[i as int]));
                tasks@.take(i as int).lemma_filter_push(tasks@[i as int], high_pred);
                tasks@.take(i as int).lemma_filter_push(tasks@[i as int], medium_pred);
                tasks@.take(i as int).lemma_filter_push(tasks@[i as int], low_pred);
                tasks@.take(i as int).lemma_filter_push(tasks@[i as int], unset_pred);
                tasks@.take(i as int).lemma_filter_len(high_pred);
                tasks@.take(i as int).lemma_filter_len(medium_pred);
                tasks@.take(i as int).lemma_filter_len(low_pred);
                tasks@.take(i as int).lemma_filter_len(unset_pred);
                assert(tasks@.take(i as int).len() == i);
            }
            let (h, m, l) = classify_priority(&tasks[i].priority);
            if h {
                high = high + 1;
            } else if m {
                medium = medium + 1;
            } else if l {
                low = low + 1;
            } else {
                unset = unset + 1;
            }
            i = i + 1;
        }
        proof {
            assert(tasks@.take(tasks@.len() as int) =~= tasks@);
        }
        let mut out: Vec<char> = Vec::new();
        push_str_chars(&mut out, "\n⚡ Priority Breakdown\n");
        push_repeat(&mut out, '=', 30);
        out.push('\n');
        if high > 0 {
            push_str_chars(&mut out, "🔴 High Priority: ");
            push_u64(&mut out, high as u64);
            out.push('\n');
        }
        if medium > 0 {
            push_str_chars(&mut out, "🟡 Medium Priority: ");
            push_u64(&mut out, medium as u64);
            out.push('\n');
        }
        if low > 0 {
            push_str_chars(&mut out, "🟢 Low Priority: ");
            push_u64(&mut out, low as u64);
            out.push('\n');
        }
        if unset > 0 {
            push_str_chars(&mut out, "⚪ No Priority Set: ");
            push_u64(&mut out, unset as u64);
            out.push('\n');
        }
        assert(out@ =~= breakdown_text(tasks@));
        string_from_chars(&out)
    }
}

/// Whether a task counts as overdue against a given current time: its due
/// date parses as RFC 3339 and lies strictly in the past.
pub open spec fn overdue_pred(t: Task, now_ts: i64) -> bool {
    match t.due_date {
        Some(d) => match rfc3339_ts(d@) {
            Some(ts) => ts < now_ts,
            None => false,
        },
        None => false,
    }
}

/// Keeps exactly the overdue tasks, in their original order.
#[verifier::loop_isolation(false)]
pub fn overdue_tasks(tasks: Vec<Task>, now_ts: i64) -> (r: Vec<Task>)
    ensures
        r@ == tasks@.filter(|t: Task| overdue_pred(t, now_ts)),
{
    let ghost pred = |t: Task| overdue_pred(t, now_ts);
    let ghost orig = tasks@;
    let mut rest = tasks;
    let mut kept: Vec<Task> = Vec::new();
    let ghost i: int = 0;
    proof {
        assert(orig.take(0).filter(pred) =~= Seq::<Task>::empty());
    }
    while rest.len() > 0
        invariant
            0 <= i <= orig.len(),
            rest@ == orig.skip(i),
            kept@ == orig.take(i).filter(pred),
        decreases rest.len(),
    {
        proof {
            assert(rest@[0] == orig[i]);
            assert(orig.take(i + 1) =~= orig.take(i).push(orig[i]));
            orig.take(i).lemma_filter_push(orig[i], pred);
        }
        let t = rest.remove(0);
        let keep = match &t.due_date {
            Some(d) => match parse_rfc3339(d.as_str()) {
                Some(ts) => ts < now_ts,
                None => false,
            },
            None => false,
        };
        if keep {
            kept.push(t);
        }
        proof {
            assert(rest@ =~= orig.skip(i + 1));
            i = i + 1;
        }
    }
    proof {
        assert(orig.skip(i).len() == 0);
        assert(i == orig.len());
        assert(orig.take(i) =~= orig);
    }
    kept
}

} // verus!
