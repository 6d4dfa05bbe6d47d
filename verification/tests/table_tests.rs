use hegel_pm::cli::discover::all::{output_human, ProjectRow};
use hegel_pm::discovery::{CacheManager, DiscoveredProject};
use hegel_pm::text::{align_left, align_right, decimal, join_columns, same_text, text_le, text_lt};
use hegel_pm::timestamp::Timestamp;

fn row(name: &str, size: u64, tokens: u64, load: Option<u64>) -> ProjectRow {
    ProjectRow {
        name: name.to_string(),
        path: format!("/home/u/Code/{}", name),
        size,
        last_activity: Timestamp::epoch(),
        total_tokens: tokens,
        total_events: 3,
        phase_count: 2,
        load_time_ms: load,
    }
}

fn project(name: &str) -> DiscoveredProject {
    DiscoveredProject::found_at(
        name.to_string(),
        format!("/code/{}", name),
        format!("/code/{}/.hegel", name),
        None,
        Timestamp::epoch(),
        None,
        Timestamp::epoch(),
    )
}

#[test]
fn test_table_without_rows() {
    let lines = output_human(&vec![], &vec![], &vec![], "name", None);
    assert_eq!(lines, vec!["No Hegel projects found"]);
}

#[test]
fn test_table_is_what_the_format_macro_gives() {
    let rows = vec![row("a", 512, 1234, None), row("longer-name", 1_572_864, 7, None)];
    let paths = vec!["~/Code/a".to_string(), "~/Code/longer-name".to_string()];
    let stamps = vec!["2023-11-14 22:13:20".to_string(), "2024-01-01 00:00:00".to_string()];
    let lines = output_human(&rows, &paths, &stamps, "last-activity", None);
    let name_width = 11;
    let path_width = 18;
    let mut expected = vec![format!(
        "{:<name_width$}  {:<path_width$}  {:>8}  {:>19}  {:>8}  {:>8}  {:>7}",
        "NAME",
        "PATH",
        "SIZE",
        "LAST ACTIVITY",
        "TOKENS",
        "EVENTS",
        "PHASES",
        name_width = name_width,
        path_width = path_width
    )];
    for ((r, path), stamp) in rows.iter().zip(paths.iter()).zip(stamps.iter()) {
        expected.push(format!(
            "{:<name_width$}  {:<path_width$}  {:>8}  {:>19}  {:>8}  {:>8}  {:>7}",
            r.name,
            path,
            hegel_pm::cli::discover::format::format_size(r.size),
            stamp,
            r.total_tokens,
            r.total_events,
            r.phase_count,
            name_width = name_width,
            path_width = path_width
        ));
    }
    expected.push("\n2 projects found".to_string());
    assert_eq!(lines, expected);
    assert_eq!(
        lines[1],
        "a            ~/Code/a               512 B  2023-11-14 22:13:20      1234         3        2"
    );
}

#[test]
fn test_table_with_load_times() {
    let rows = vec![row("ab", 0, 0, Some(15)), row("cd", 0, 0, None)];
    let paths = vec!["/p".to_string()];
    let lines = output_human(&rows, &paths, &vec![], "tokens", Some(1234));
    assert_eq!(lines.len(), 5);
    assert_eq!(
        lines[0],
        format!(
            "{:<4}  {:<4}  {:>8}  {:>19}  {:>8}  {:>8}  {:>7}  {:>9}",
            "NAME", "PATH", "SIZE", "LAST ACTIVITY", "TOKENS", "EVENTS", "PHASES", "LOAD TIME"
        )
    );
    assert_eq!(
        lines[1],
        format!(
            "{:<4}  {:<4}  {:>8}  {:>19}  {:>8}  {:>8}  {:>7}  {:>9}",
            "ab", "/p", "0 B", "", 0, 3, 2, "15ms"
        )
    );
    assert_eq!(
        lines[2],
        format!("{:<4}  {:<4}  {:>8}  {:>19}  {:>8}  {:>8}  {:>7}", "cd", "", "0 B", "", 0, 3, 2)
    );
    assert_eq!(lines[3], "\n2 projects found (sorted by tokens)");
    assert_eq!(lines[4], "Total load time: 1234ms");
}

#[test]
fn test_table_widths_count_bytes_and_fields_count_characters() {
    // Three characters that take six bytes: the column is six wide, and the
    // name is padded by its three characters.
    let rows = vec![row("\u{e9}\u{e9}\u{e9}", 0, 0, None)];
    let lines = output_human(&rows, &vec!["/p".to_string()], &vec!["t".to_string()], "name", None);
    assert!(lines[1].starts_with("\u{e9}\u{e9}\u{e9}     /p  "));
    assert_eq!(lines[0], format!("{:<6}  {:<4}  {:>8}  {:>19}  {:>8}  {:>8}  {:>7}", "NAME", "PATH", "SIZE", "LAST ACTIVITY", "TOKENS", "EVENTS", "PHASES"));
}

#[test]
fn test_text_helpers() {
    assert_eq!(align_left("ab", 5), "ab   ");
    assert_eq!(align_right("ab", 5), "   ab");
    assert_eq!(align_left("abcdef", 3), "abcdef");
    assert_eq!(align_right("", 2), "  ");
    assert_eq!(join_columns(&vec!["a".to_string(), "b".to_string(), "".to_string()]), "a  b  ");
    assert_eq!(join_columns(&vec![]), "");
    assert_eq!(decimal(0), "0");
    assert_eq!(decimal(10), "10");
    assert_eq!(decimal(u128::MAX), "340282366920938463463374607431768211455");
    assert!(same_text("abc", "abc"));
    assert!(!same_text("abc", "abd"));
    assert!(!same_text("abc", "ab"));
}

#[test]
fn test_text_order_is_the_order_of_strings() {
    let samples = ["", "a", "ab", "b", "B", "2025-01-15T10:00:00Z", "2025-01-14T10:00:00Z", "\u{e9}", "z", "\u{10000}", "\u{ffff}"];
    for a in samples {
        for b in samples {
            assert_eq!(text_le(a, b), a <= b, "{:?} <= {:?}", a, b);
            assert_eq!(text_lt(a, b), a < b, "{:?} < {:?}", a, b);
        }
    }
}

#[test]
fn test_save_queue_keeps_the_first_list() {
    let mut manager = CacheManager::new();
    assert!(!manager.is_waiting());
    assert!(manager.on_timeout().is_none());
    manager.queue_save(vec![project("first")]);
    assert!(manager.is_waiting());
    // A save is waiting already: this list is dropped.
    manager.queue_save(vec![project("second"), project("third")]);
    let due = manager.on_timeout().unwrap();
    assert_eq!(due.len(), 1);
    assert_eq!(due[0].name, "first");
    assert!(!manager.is_waiting());
    assert!(manager.on_timeout().is_none());
    manager.queue_save(vec![project("fourth")]);
    assert_eq!(manager.on_timeout().unwrap()[0].name, "fourth");
}

#[test]
fn test_list_output() {
    let projects = vec![project("alpha"), project("b")];
    let listed = hegel_pm::cli::discover::list::run(&projects, &vec![1024, 3]);
    let paths = vec!["~/Code/alpha".to_string(), "~/b".to_string()];
    let stamps = vec!["2023-11-14 22:13:20".to_string(), "2024-01-01 00:00:00".to_string()];
    let lines = hegel_pm::cli::discover::list::output_human(&listed, &paths, &stamps);
    let expected = vec![
        format!("{:<5}  {:<12}  {:>8}  {}", "alpha", "~/Code/alpha", "1 KB", "2023-11-14 22:13:20"),
        format!("{:<5}  {:<12}  {:>8}  {}", "b", "~/b", "3 B", "2024-01-01 00:00:00"),
        "\n2 projects found".to_string(),
    ];
    assert_eq!(lines, expected);
    let none = hegel_pm::cli::discover::list::output_human(&vec![], &vec![], &vec![]);
    assert_eq!(none, vec!["No Hegel projects found"]);
}

#[test]
fn test_show_output() {
    let mut p = project("alpha");
    let lines = hegel_pm::cli::discover::show::output_human(&p, 2048, "2023-11-14 22:13:20");
    assert_eq!(
        lines,
        vec![
            "Project: alpha",
            "Path: /code/alpha",
            ".hegel size: 2 KB",
            "Last activity: 2023-11-14 22:13:20\n",
            "Workflow State: None\n",
            "Metrics: No metrics available",
            "\nStatus: Inactive",
        ]
    );
    p.workflow_state = Some(hegel_pm::discovery::WorkflowState {
        current_node: "code".to_string(),
        mode: "discovery".to_string(),
        history: vec!["spec".to_string(), "plan".to_string(), "code".to_string()],
        workflow_id: None,
    });
    let mut stats = hegel_pm::discovery::ProjectStatistics::default();
    stats.token_metrics.total_input_tokens = 1000;
    stats.token_metrics.total_output_tokens = 500;
    stats.hook_metrics.total_events = 42;
    stats.phase_metrics = vec![Default::default(); 3];
    p.statistics = Some(stats);
    let lines = hegel_pm::cli::discover::show::output_human(&p, 0, "t");
    assert_eq!(
        lines,
        vec![
            "Project: alpha",
            "Path: /code/alpha",
            ".hegel size: 0 B",
            "Last activity: t\n",
            "Workflow State:",
            "  Mode: discovery",
            "  Current node: code",
            "  History: spec \u{2192} plan \u{2192} code\n",
            "Metrics:",
            "  Total tokens: 1500 (input: 1000, output: 500)",
            "  Total events: 42",
            "  Phase count: 3",
            "\nStatus: Active",
        ]
    );
    p.error = Some("Failed to load state: bad".to_string());
    let lines = hegel_pm::cli::discover::show::output_human(&p, 0, "t");
    assert_eq!(lines[4], "Workflow State: Error loading state");
    assert_eq!(lines[5], "  Error: Failed to load state: bad\n");
    assert_eq!(lines[10], "\nStatus: Error (corrupted state)");
}
