use mcp_tasks::config::Config;
use mcp_tasks::deepseek_client::{
    create_analysis_prompt, create_tools_analysis_prompt, format_report_as_markdown,
    format_report_as_text, format_tasks_for_analysis, format_tasks_summary,
    format_tasks_summary_text, report_to_json, strip_markdown, AnalysisMetadata, AnalysisReport,
    OutputFormat,
};
use mcp_tasks::json::{parse_json, render_to_string};
use mcp_tasks::mcp_client::Task;
use mcp_tasks::table_formatter::{
    format_date_string, format_tags, overdue_tasks, parse_rfc3339, truncate_string, TaskTableRow,
    TaskTableFormatter,
};

fn sample_task() -> Task {
    Task {
        id: "abcdefghij".to_string(),
        title: "Fix the door".to_string(),
        description: Some("the front one".to_string()),
        status: "open".to_string(),
        priority: Some("High".to_string()),
        due_date: Some("2024-02-01T12:00:00Z".to_string()),
        created_at: "2024-01-15T10:00:00Z".to_string(),
        updated_at: None,
        completed_at: None,
        tags: Some(vec!["home".to_string(), "urgent".to_string()]),
    }
}

#[test]
fn default_config_fails_validation_on_empty_key() {
    let c = Config::default();
    match c.validate() {
        Err(msg) => assert_eq!(msg, "DeepSeek API key cannot be empty"),
        Ok(()) => panic!("an empty key must be rejected"),
    }
    let ok = Config { deepseek_api_key: "k".to_string(), ..Config::default() };
    assert!(ok.validate().is_ok());
}

#[test]
fn truncation_counts_characters() {
    assert_eq!(truncate_string("short", 8), "short");
    assert_eq!(truncate_string("abcdefghij", 8), "abcde...");
    assert_eq!(truncate_string("abcd", 2), "...");
}

#[test]
fn tags_join_and_truncate() {
    assert_eq!(format_tags(None), "N/A");
    assert_eq!(format_tags(Some(&Vec::new())), "N/A");
    let tags = vec!["a".to_string(), "b".to_string()];
    assert_eq!(format_tags(Some(&tags)), "a, b");
    let long = vec!["aaaaaaaaaaaaaaa".to_string(), "bbbbbbbbbbbbbbb".to_string()];
    assert_eq!(format_tags(Some(&long)), "aaaaaaaaaaaaaaa, bbbbbbbbbb...");
}

#[test]
fn dates_render_or_fall_back() {
    let good = "2024-01-15T10:00:00Z".to_string();
    assert_eq!(format_date_string(Some(&good)), "2024-01-15");
    let bad = "sometime next week".to_string();
    assert_eq!(format_date_string(Some(&bad)), "sometim...");
    assert_eq!(format_date_string(None), "N/A");
}

#[test]
fn table_row_renders_every_column() {
    let row = TaskTableRow::from(sample_task());
    assert_eq!(row.id, "abcde...");
    assert_eq!(row.title, "Fix the door");
    assert_eq!(row.status, "open");
    assert_eq!(row.priority, "High");
    assert_eq!(row.due_date, "2024-02-01");
    assert_eq!(row.created_at, "2024-01-15");
    assert_eq!(row.tags, "home, urgent");
}

#[test]
fn summary_statistics_render_one_decimal() {
    let unfinished = vec![sample_task()];
    let text = TaskTableFormatter::format_summary_statistics(&unfinished, 4);
    assert_eq!(
        text,
        format!(
            "\n📊 Task Summary\n{}\nTotal Tasks: 4\nUnfinished Tasks: 1\nCompletion Rate: 75.0%\n",
            "=".repeat(40)
        )
    );
    let empty: Vec<Task> = Vec::new();
    let zero = TaskTableFormatter::format_summary_statistics(&empty, 0);
    assert!(zero.contains("Completion Rate: 0.0%"));
}

#[test]
fn priority_breakdown_shows_only_nonempty_buckets() {
    let mut urgent = sample_task();
    urgent.priority = Some("URGENT".to_string());
    let mut none = sample_task();
    none.priority = None;
    let text = TaskTableFormatter::format_priority_breakdown(&vec![urgent, none]);
    assert_eq!(
        text,
        format!(
            "\n⚡ Priority Breakdown\n{}\n🔴 High Priority: 1\n⚪ No Priority Set: 1\n",
            "=".repeat(30)
        )
    );
}

#[test]
fn overdue_filter_compares_timestamps() {
    let now = parse_rfc3339("2024-03-01T00:00:00Z").unwrap();
    let mut late = sample_task();
    late.due_date = Some("2024-02-01T12:00:00Z".to_string());
    let mut future = sample_task();
    future.due_date = Some("2099-01-01T00:00:00Z".to_string());
    let mut dateless = sample_task();
    dateless.due_date = None;
    let kept = overdue_tasks(vec![late, future, dateless], now);
    assert_eq!(kept.len(), 1);
    assert_eq!(kept[0].due_date.as_deref(), Some("2024-02-01T12:00:00Z"));
}

#[test]
fn output_format_follows_the_extension() {
    assert_eq!(OutputFormat::from_path("report.json"), OutputFormat::Json);
    assert_eq!(OutputFormat::from_path("report.md"), OutputFormat::Markdown);
    assert_eq!(OutputFormat::from_path("report.markdown"), OutputFormat::Markdown);
    assert_eq!(OutputFormat::from_path("report.txt"), OutputFormat::PlainText);
    assert_eq!(OutputFormat::from_path("report.text"), OutputFormat::PlainText);
    assert_eq!(OutputFormat::from_path("report"), OutputFormat::Markdown);
    assert_eq!(OutputFormat::from_path("dir.json/report"), OutputFormat::Markdown);
    assert_eq!(OutputFormat::from_path(".hidden"), OutputFormat::Markdown);
    assert_eq!(OutputFormat::from_path("a/b.tar.txt"), OutputFormat::PlainText);
}

#[test]
fn analysis_listing_and_prompts_are_exact() {
    let listing = format_tasks_for_analysis(&vec![sample_task()]);
    assert_eq!(
        listing,
        "Task 1: Fix the door\n  Description: the front one\n  Status: open\n  Priority: High\n  Due Date: 2024-02-01T12:00:00Z\n  Tags: home, urgent\n  Created: 2024-01-15T10:00:00Z\n\n"
    );
    let prompt = create_analysis_prompt("LIST", 3);
    assert!(prompt.starts_with("Please analyze the following 3 pending tasks"));
    assert!(prompt.contains("LIST"));
    let tools_prompt = create_tools_analysis_prompt("LIST", 3);
    assert!(tools_prompt.starts_with("Please analyze these 3 tasks."));
    assert!(tools_prompt.contains("LIST"));
}

#[test]
fn markdown_strip_replaces_markers() {
    let stripped = strip_markdown("### Head\n**bold** *i* `c` |x|\n---\n");
    assert_eq!(
        stripped,
        format!("Head\nbold i c x\n{}\n", "-".repeat(47))
    );
}

fn sample_report() -> AnalysisReport {
    AnalysisReport {
        timestamp: "2024-01-15 10:00:00 UTC".to_string(),
        model: "deepseek-chat".to_string(),
        task_count: 1,
        tasks: vec![sample_task()],
        analysis: "## Findings\n**All good**".to_string(),
        metadata: AnalysisMetadata {
            tools_enabled: true,
            tool_calls_count: Some(2),
            analysis_duration_tenths: Some(123),
        },
    }
}

#[test]
fn reports_render_in_both_styles() {
    let report = sample_report();
    let md = format_report_as_markdown(&report);
    assert!(md.starts_with("# Task Analysis Report\n\n**Generated:** 2024-01-15 10:00:00 UTC"));
    assert!(md.contains("**Analysis Duration:** 12.3s"));
    assert!(md.contains("**Tool Calls:** 2"));
    assert!(md.contains("### 1. Fix the door"));
    assert!(md.contains("## Findings"));
    assert!(md.contains("- **Tools Enabled:** Yes"));

    let text = format_report_as_text(&report);
    assert!(text.starts_with(&"=".repeat(47)));
    assert!(text.contains("Analysis Duration: 12.3s"));
    assert!(text.contains("1. Fix the door"));
    assert!(text.contains("Findings\nAll good"));
    assert!(!text.contains("**"));
    let summary = format_tasks_summary(&report.tasks);
    assert!(summary.contains("**Status:** open"));
    let plain = format_tasks_summary_text(&report.tasks);
    assert!(plain.contains("   Status: open"));
}

#[test]
fn report_round_trips_through_json() {
    let report = sample_report();
    let v = report_to_json(&report);
    let text = render_to_string(&v);
    // The parser normalizes member order, so compare after one
    // normalization: rendering a reparsed document is then stable.
    let back = parse_json(&text).expect("report JSON must parse");
    let again = render_to_string(&back);
    let back2 = parse_json(&again).expect("normalized report JSON must parse");
    assert_eq!(again, render_to_string(&back2));
    assert!(text.contains("\"timestamp\":\"2024-01-15 10:00:00 UTC\""));
    assert!(text.contains("\"task_count\":1"));
    assert!(text.contains("\"analysis_duration_seconds\":12.3"));
    assert!(text.contains("\"tool_calls_count\":2"));
    assert!(text.contains("\"completed_at\":null"));
}
