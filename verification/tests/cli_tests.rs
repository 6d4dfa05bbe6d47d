use hegel_pm::cli::discover::all::{build_rows, sort_rows, ProjectRow};
use hegel_pm::cli::discover::{run as plan_discover, validate_sort_column};
use hegel_pm::cli::hegel::{conclude, is_disallowed, run as check_hegel};
use hegel_pm::cli::{Args, Command, DiscoverCommand};
use hegel_pm::discovery::DiscoveredProject;
use hegel_pm::discovery::ProjectStatistics;
use hegel_pm::timestamp::Timestamp;

fn row(name: &str, path: &str, size: u64, secs: u64, tokens: u64, events: usize, phases: usize, load: Option<u64>) -> ProjectRow {
    ProjectRow {
        name: name.to_string(),
        path: path.to_string(),
        size,
        last_activity: Timestamp { secs_since_epoch: secs, nanos_since_epoch: 0 },
        total_tokens: tokens,
        total_events: events,
        phase_count: phases,
        load_time_ms: load,
    }
}

fn project(name: &str, secs: u64) -> DiscoveredProject {
    DiscoveredProject::found_at(
        name.to_string(),
        format!("/code/{}", name),
        format!("/code/{}/.hegel", name),
        None,
        Timestamp { secs_since_epoch: secs, nanos_since_epoch: 0 },
        None,
        Timestamp { secs_since_epoch: 1, nanos_since_epoch: 0 },
    )
}

#[test]
fn test_sort_rows() {
    let mut rows = vec![
        ProjectRow {
            name: "zzz".to_string(),
            path: "/path/z".to_string(),
            size: 100,
            last_activity: Timestamp::epoch(),
            total_tokens: 50,
            total_events: 10,
            phase_count: 2,
            load_time_ms: Some(100),
        },
        ProjectRow {
            name: "aaa".to_string(),
            path: "/path/a".to_string(),
            size: 200,
            last_activity: Timestamp { secs_since_epoch: 1_700_000_000, nanos_since_epoch: 5 },
            total_tokens: 100,
            total_events: 20,
            phase_count: 5,
            load_time_ms: Some(50),
        },
    ];

    sort_rows(&mut rows, "name");
    assert_eq!(rows[0].name, "aaa");

    sort_rows(&mut rows, "size");
    assert_eq!(rows[0].size, 200); // Descending

    sort_rows(&mut rows, "tokens");
    assert_eq!(rows[0].total_tokens, 100); // Descending
}

#[test]
fn test_sort_rows_every_column() {
    let make = || {
        vec![
            row("b", "/y", 1, 30, 7, 2, 9, Some(4)),
            row("c", "/x", 3, 10, 9, 1, 8, None),
            row("a", "/z", 2, 20, 8, 3, 7, Some(5)),
        ]
    };
    let names = |rows: &Vec<ProjectRow>| rows.iter().map(|r| r.name.clone()).collect::<Vec<_>>();

    let mut rows = make();
    sort_rows(&mut rows, "name");
    assert_eq!(names(&rows), vec!["a", "b", "c"]);
    let mut rows = make();
    sort_rows(&mut rows, "path");
    assert_eq!(names(&rows), vec!["c", "b", "a"]);
    let mut rows = make();
    sort_rows(&mut rows, "size");
    assert_eq!(names(&rows), vec!["c", "a", "b"]);
    let mut rows = make();
    sort_rows(&mut rows, "last-activity");
    assert_eq!(names(&rows), vec!["b", "a", "c"]);
    let mut rows = make();
    sort_rows(&mut rows, "tokens");
    assert_eq!(names(&rows), vec!["c", "a", "b"]);
    let mut rows = make();
    sort_rows(&mut rows, "events");
    assert_eq!(names(&rows), vec!["a", "b", "c"]);
    let mut rows = make();
    sort_rows(&mut rows, "phases");
    assert_eq!(names(&rows), vec!["b", "c", "a"]);
    let mut rows = make();
    sort_rows(&mut rows, "load-time");
    assert_eq!(names(&rows), vec!["a", "b", "c"]);
    let mut rows = make();
    sort_rows(&mut rows, "nonsense");
    assert_eq!(names(&rows), vec!["b", "c", "a"]);
}

#[test]
fn test_sort_rows_is_stable() {
    let mut rows = vec![
        row("first", "/1", 5, 0, 0, 0, 0, None),
        row("second", "/2", 9, 0, 0, 0, 0, None),
        row("third", "/3", 5, 0, 0, 0, 0, None),
        row("fourth", "/4", 9, 0, 0, 0, 0, None),
    ];
    sort_rows(&mut rows, "size");
    let names: Vec<&str> = rows.iter().map(|r| r.name.as_str()).collect();
    assert_eq!(names, vec!["second", "fourth", "first", "third"]);
}

#[test]
fn test_sort_rows_text_order() {
    let mut rows = vec![
        row("ab", "/", 0, 0, 0, 0, 0, None),
        row("a", "/", 0, 0, 0, 0, 0, None),
        row("B", "/", 0, 0, 0, 0, 0, None),
        row("\u{e9}", "/", 0, 0, 0, 0, 0, None),
        row("", "/", 0, 0, 0, 0, 0, None),
    ];
    let mut expected: Vec<String> = rows.iter().map(|r| r.name.clone()).collect();
    expected.sort();
    sort_rows(&mut rows, "name");
    let names: Vec<String> = rows.iter().map(|r| r.name.clone()).collect();
    assert_eq!(names, expected);
}

#[test]
fn test_validate_sort_column_valid() {
    assert!(validate_sort_column("name", false).is_ok());
    assert!(validate_sort_column("tokens", false).is_ok());
    assert!(validate_sort_column("last-activity", false).is_ok());
}

#[test]
fn test_validate_sort_column_invalid() {
    let result = validate_sort_column("invalid", false);
    assert!(result.is_err());
    assert!(result.unwrap_err().to_string().contains("Invalid sort"));
}

#[test]
fn test_validate_sort_column_load_time_without_benchmark() {
    let result = validate_sort_column("load-time", false);
    assert!(result.is_err());
}

#[test]
fn test_validate_sort_column_load_time_with_benchmark() {
    assert!(validate_sort_column("load-time", true).is_ok());
}

#[test]
fn test_validate_sort_column_message() {
    assert_eq!(
        validate_sort_column("bogus", false).unwrap_err(),
        "Invalid sort column 'bogus'\n\nValid columns: name, path, size, last-activity, tokens, events, phases"
    );
    assert_eq!(
        validate_sort_column("bogus", true).unwrap_err(),
        "Invalid sort column 'bogus'\n\nValid columns: name, path, size, last-activity, tokens, events, phases, load-time"
    );
}

#[test]
fn test_allowed_commands() {
    // These should not error on validation (though they may fail if no projects exist)
    let allowed = vec![
        vec!["analyze".to_string()],
        vec!["status".to_string()],
        vec!["next".to_string()],
        vec![
            "analyze".to_string(),
            "--fix-archives".to_string(),
            "--dry-run".to_string(),
        ],
    ];

    for args in allowed {
        let subcommand = &args[0];
        assert!(
            !is_disallowed(subcommand.as_str()),
            "Command '{}' should be allowed",
            subcommand
        );
        assert!(check_hegel(&args).is_ok());
    }
}

#[test]
fn test_disallowed_command_top() {
    let result = check_hegel(&vec!["top".to_string()]);
    assert!(result.is_err());
    assert!(result.unwrap_err().to_string().contains("interactive/TUI"));
}

#[test]
fn test_disallowed_command_reflect() {
    let result = check_hegel(&vec!["reflect".to_string(), "NOTES.md".to_string()]);
    assert!(result.is_err());
    assert!(result.unwrap_err().to_string().contains("interactive/TUI"));
}

#[test]
fn test_empty_args() {
    let result = check_hegel(&vec![]);
    assert!(result.is_err());
    assert!(result
        .unwrap_err()
        .to_string()
        .contains("No hegel command specified"));
}

#[test]
fn test_hegel_run_ends_with_failures_counted() {
    assert!(conclude(0).is_ok());
    assert_eq!(conclude(3).unwrap_err(), "3 project(s) failed");
}

#[test]
fn test_run_all_command_invalid_sort() {
    let projects = vec![project("project1", 1)];
    let result = hegel_pm::cli::discover::all::run(&projects, &vec![10], &vec![], "invalid", false);
    assert!(result.is_err());
    assert!(result.unwrap_err().to_string().contains("Invalid sort"));
}

#[test]
fn test_run_all_command() {
    let mut with_stats = project("project1", 5);
    let mut stats = ProjectStatistics::default();
    stats.token_metrics.total_input_tokens = 40;
    stats.token_metrics.total_output_tokens = 2;
    stats.hook_metrics.total_events = 7;
    with_stats.statistics = Some(stats);
    let projects = vec![with_stats, project("project2", 9)];
    let rows = hegel_pm::cli::discover::all::run(&projects, &vec![100], &vec![], "last-activity", false)
        .unwrap();
    assert_eq!(rows.len(), 2);
    assert_eq!(rows[0].name, "project2");
    assert_eq!(rows[0].size, 0);
    assert_eq!(rows[0].total_tokens, 0);
    assert_eq!(rows[1].name, "project1");
    assert_eq!(rows[1].path, "/code/project1");
    assert_eq!(rows[1].size, 100);
    assert_eq!(rows[1].total_tokens, 42);
    assert_eq!(rows[1].total_events, 7);
    assert_eq!(rows[1].phase_count, 0);
    assert_eq!(rows[1].load_time_ms, None);
}

#[test]
fn test_run_all_command_with_benchmark() {
    let projects = vec![project("project1", 5), project("project2", 9)];
    let rows = hegel_pm::cli::discover::all::run(&projects, &vec![], &vec![30, 80], "load-time", true)
        .unwrap();
    assert_eq!(rows[0].name, "project2");
    assert_eq!(rows[0].load_time_ms, Some(80));
    assert_eq!(rows[1].load_time_ms, Some(30));
    let plain = build_rows(&projects, &vec![], &vec![30, 80], false);
    assert_eq!(plain[0].load_time_ms, None);
}

#[test]
fn test_run_all_command_various_sorts() {
    let projects = vec![project("project1", 5)];
    for column in ["name", "path", "size", "last-activity", "tokens", "events", "phases"] {
        let result = hegel_pm::cli::discover::all::run(&projects, &vec![], &vec![], column, false);
        assert!(result.is_ok(), "Failed with sort column: {}", column);
    }
}

#[test]
fn test_run_show_command() {
    let projects = vec![project("project1", 5), project("project2", 9)];
    assert_eq!(hegel_pm::cli::discover::show::run(&projects, "project2"), Ok(1));
}

#[test]
fn test_run_show_command_not_found() {
    let projects = vec![project("project1", 5), project("project2", 9)];
    let result = hegel_pm::cli::discover::show::run(&projects, "nonexistent");
    assert!(result.is_err());
    let message = result.unwrap_err();
    assert!(message.contains("not found"));
    assert_eq!(
        message,
        "Project 'nonexistent' not found\n\nAvailable projects:\n  - project1\n  - project2"
    );
}

#[test]
fn test_show_status_labels() {
    let mut p = project("p", 1);
    assert_eq!(hegel_pm::cli::discover::show::status_label(&p), "Inactive");
    p.workflow_state = Some(hegel_pm::discovery::WorkflowState {
        current_node: "code".to_string(),
        mode: "discovery".to_string(),
        history: vec![],
        workflow_id: None,
    });
    assert_eq!(hegel_pm::cli::discover::show::status_label(&p), "Active");
    p.error = Some("broken".to_string());
    assert_eq!(hegel_pm::cli::discover::show::status_label(&p), "Error (corrupted state)");
}

#[test]
fn test_run_list_command() {
    let projects = vec![project("project1", 5), project("project2", 9)];
    let list = hegel_pm::cli::discover::list::run(&projects, &vec![16]);
    assert_eq!(list.len(), 2);
    assert_eq!(list[0].name, "project1");
    assert_eq!(list[0].hegel_dir, "/code/project1/.hegel");
    assert_eq!(list[0].hegel_size_bytes, 16);
    assert_eq!(list[1].hegel_size_bytes, 0);
    assert!(!list[0].has_state);
    assert!(!list[0].has_error);
}

#[test]
fn test_run_list_command_empty() {
    let list = hegel_pm::cli::discover::list::run(&vec![], &vec![]);
    assert!(list.is_empty());
}

#[test]
fn test_discover_plan() {
    let plan = plan_discover(DiscoverCommand::List, true, true).unwrap();
    assert!(plan.force_refresh);
    assert!(!plan.cache_used);
    assert!(plan.json);
    assert_eq!(plan.subcommand, DiscoverCommand::List);
    let refused = plan_discover(
        DiscoverCommand::All { sort_by: "load-time".to_string(), benchmark: false },
        false,
        false,
    );
    assert!(refused.unwrap_err().contains("Invalid sort column 'load-time'"));
    let accepted = plan_discover(
        DiscoverCommand::All { sort_by: "load-time".to_string(), benchmark: true },
        false,
        false,
    )
    .unwrap();
    assert!(!accepted.force_refresh);
    assert!(accepted.cache_used);
}

#[test]
fn test_command_values() {
    let args = Args {
        command: Some(Command::Discover {
            subcommand: DiscoverCommand::Show { project_name: "my-project".to_string() },
            json: false,
            no_cache: false,
        }),
    };
    match args.command {
        Some(Command::Discover { subcommand: DiscoverCommand::Show { project_name }, json, no_cache }) => {
            assert_eq!(project_name, "my-project");
            assert!(!json);
            assert!(!no_cache);
        }
        _ => panic!("Expected Discover Show command"),
    }
}

#[test]
fn test_discovery_report() {
    let mut active = project("alpha", 1);
    active.workflow_state = Some(hegel_pm::discovery::WorkflowState {
        current_node: "code".to_string(),
        mode: "discovery".to_string(),
        history: vec![],
        workflow_id: None,
    });
    let lines = hegel_pm::discovery_mode::run(&vec![active, project("beta", 2)]);
    assert_eq!(
        lines,
        vec![
            "  \u{2022} alpha (/code/alpha)",
            "    Mode: discovery | Phase: code",
            "  \u{2022} beta (/code/beta)",
            "    No active workflow",
        ]
    );
}

#[test]
fn test_run_show_command_no_state() {
    let projects = vec![project("no-state", 1)];
    let at = hegel_pm::cli::discover::show::run(&projects, "no-state").unwrap();
    assert_eq!(at, 0);
    assert!(!projects[at].has_state());
    assert_eq!(hegel_pm::cli::discover::show::status_label(&projects[at]), "Inactive");
}
