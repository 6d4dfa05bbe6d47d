use hegel_pm::api_types::{
    build_workflow_summaries, summarize_phase, PhaseStatus, WorkflowStatus,
};
use hegel_pm::discovery::{ProjectMetricsSummary, ProjectStatistics, State, WorkflowState};
use hegel_pm::metrics::{
    BashCommand, FileModification, GitCommit, PhaseMetrics, StateTransitionEvent, TokenMetrics,
};

fn create_phase_metrics(
    phase_name: &str,
    start_time: &str,
    end_time: Option<&str>,
    duration_seconds: u64,
    input_tokens: u64,
    output_tokens: u64,
    turns: usize,
    workflow_id: Option<String>,
) -> PhaseMetrics {
    PhaseMetrics {
        phase_name: phase_name.to_string(),
        start_time: start_time.to_string(),
        end_time: end_time.map(|s| s.to_string()),
        duration_seconds,
        token_metrics: TokenMetrics {
            total_input_tokens: input_tokens,
            total_output_tokens: output_tokens,
            total_cache_creation_tokens: 0,
            total_cache_read_tokens: 0,
            assistant_turns: turns,
        },
        bash_commands: vec![],
        file_modifications: vec![],
        git_commits: vec![],
        is_synthetic: false,
        workflow_id,
    }
}

fn transition(timestamp: &str, workflow_id: Option<&str>, to_node: &str, mode: &str) -> StateTransitionEvent {
    StateTransitionEvent {
        timestamp: timestamp.to_string(),
        workflow_id: workflow_id.map(|w| w.to_string()),
        from_node: "START".to_string(),
        to_node: to_node.to_string(),
        phase: to_node.to_string(),
        mode: mode.to_string(),
    }
}

#[test]
fn test_hegel_cli_imports() {
    // Verify we can access the types of the workflow tool
    let _state_type_exists = std::mem::size_of::<State>();
    let _workflow_state_type_exists = std::mem::size_of::<WorkflowState>();
}

#[test]
fn test_empty_statistics() {
    let stats = ProjectStatistics::default();
    assert_eq!(stats.hook_metrics.total_events, 0);
    assert!(stats.phase_metrics.is_empty());
    assert!(stats.session_id.is_none());
}

#[test]
fn test_build_workflow_summaries_empty() {
    let metrics = ProjectStatistics::default();
    let workflows = build_workflow_summaries(&metrics);
    assert_eq!(workflows.len(), 0);
}

#[test]
fn test_build_workflow_summaries_single_workflow() {
    let workflow_id = "2025-01-15T10:00:00Z".to_string();

    let mut metrics = ProjectStatistics::default();

    // Add state transitions
    metrics.state_transitions = vec![
        StateTransitionEvent {
            timestamp: "2025-01-15T10:00:00Z".to_string(),
            workflow_id: Some(workflow_id.clone()),
            from_node: "START".to_string(),
            to_node: "spec".to_string(),
            phase: "spec".to_string(),
            mode: "execution".to_string(),
        },
        StateTransitionEvent {
            timestamp: "2025-01-15T10:30:00Z".to_string(),
            workflow_id: Some(workflow_id.clone()),
            from_node: "spec".to_string(),
            to_node: "plan".to_string(),
            phase: "plan".to_string(),
            mode: "execution".to_string(),
        },
    ];

    // Add phases
    metrics.phase_metrics = vec![
        create_phase_metrics(
            "spec",
            "2025-01-15T10:00:00Z",
            Some("2025-01-15T10:30:00Z"),
            1800,
            1000,
            500,
            5,
            Some("2025-01-15T10:00:00Z".to_string()),
        ),
        create_phase_metrics(
            "plan",
            "2025-01-15T10:30:00Z",
            None,
            0,
            500,
            250,
            3,
            Some("2025-01-15T10:00:00Z".to_string()),
        ),
    ];

    let workflows = build_workflow_summaries(&metrics);

    assert_eq!(workflows.len(), 1);
    let workflow = &workflows[0];
    assert_eq!(workflow.workflow_id, workflow_id);
    assert_eq!(workflow.mode, "execution");
    assert!(matches!(workflow.status, WorkflowStatus::Active));
    assert_eq!(workflow.current_phase, Some("plan".to_string()));
    assert_eq!(workflow.phases.len(), 2);

    // Check phase order (sorted by start_time)
    assert_eq!(workflow.phases[0].phase_name, "spec");
    assert_eq!(workflow.phases[1].phase_name, "plan");

    // Check phase status
    assert!(matches!(workflow.phases[0].status, PhaseStatus::Completed));
    assert!(matches!(workflow.phases[1].status, PhaseStatus::InProgress));

    // Check total metrics (helper sets cache tokens to 0)
    assert_eq!(workflow.total_metrics.total_input_tokens, 1500);
    assert_eq!(workflow.total_metrics.total_output_tokens, 750);
    assert_eq!(workflow.total_metrics.total_all_tokens, 2250);
}

#[test]
fn test_build_workflow_summaries_multiple_workflows() {
    let workflow1_id = "2025-01-15T10:00:00Z".to_string();
    let workflow2_id = "2025-01-14T10:00:00Z".to_string();

    let mut metrics = ProjectStatistics::default();

    metrics.state_transitions = vec![
        StateTransitionEvent {
            timestamp: "2025-01-15T10:00:00Z".to_string(),
            workflow_id: Some(workflow1_id.clone()),
            from_node: "START".to_string(),
            to_node: "spec".to_string(),
            phase: "spec".to_string(),
            mode: "execution".to_string(),
        },
        StateTransitionEvent {
            timestamp: "2025-01-14T10:00:00Z".to_string(),
            workflow_id: Some(workflow2_id.clone()),
            from_node: "START".to_string(),
            to_node: "spec".to_string(),
            phase: "spec".to_string(),
            mode: "discovery".to_string(),
        },
    ];

    metrics.phase_metrics = vec![
        create_phase_metrics(
            "spec",
            "2025-01-15T10:00:00Z",
            Some("2025-01-15T10:30:00Z"),
            1800,
            1000,
            500,
            5,
            Some(workflow1_id.clone()),
        ),
        create_phase_metrics(
            "spec",
            "2025-01-14T10:00:00Z",
            Some("2025-01-14T10:30:00Z"),
            1800,
            2000,
            1000,
            10,
            Some(workflow2_id.clone()),
        ),
    ];

    let workflows = build_workflow_summaries(&metrics);

    assert_eq!(workflows.len(), 2);

    // Should be sorted newest first
    assert_eq!(workflows[0].workflow_id, workflow1_id);
    assert_eq!(workflows[1].workflow_id, workflow2_id);

    // Check modes
    assert_eq!(workflows[0].mode, "execution");
    assert_eq!(workflows[1].mode, "discovery");

    // Both completed
    assert!(matches!(workflows[0].status, WorkflowStatus::Completed));
    assert!(matches!(workflows[1].status, WorkflowStatus::Completed));
}

#[test]
fn test_phase_belongs_to_the_latest_transition_before_it() {
    let mut metrics = ProjectStatistics::default();
    metrics.state_transitions = vec![
        transition("2025-01-01T00:00:00Z", Some("old"), "code", "discovery"),
        transition("2025-01-03T00:00:00Z", Some("new"), "code", "execution"),
        transition("2025-01-05T00:00:00Z", Some("later"), "code", "execution"),
        transition("2025-01-02T00:00:00Z", Some("other"), "spec", "execution"),
    ];
    metrics.phase_metrics = vec![create_phase_metrics(
        "code",
        "2025-01-04T00:00:00Z",
        Some("2025-01-04T01:00:00Z"),
        3600,
        1,
        2,
        1,
        None,
    )];
    let workflows = build_workflow_summaries(&metrics);
    assert_eq!(workflows.len(), 1);
    assert_eq!(workflows[0].workflow_id, "new");
    assert_eq!(workflows[0].mode, "execution");
    assert_eq!(workflows[0].current_phase, None);
}

#[test]
fn test_of_transitions_with_one_timestamp_the_last_counts() {
    let mut metrics = ProjectStatistics::default();
    metrics.state_transitions = vec![
        transition("2025-01-01T00:00:00Z", Some("first"), "code", "a"),
        transition("2025-01-01T00:00:00Z", Some("second"), "code", "b"),
    ];
    metrics.phase_metrics =
        vec![create_phase_metrics("code", "2025-01-01T00:00:00Z", None, 0, 0, 0, 0, None)];
    let workflows = build_workflow_summaries(&metrics);
    assert_eq!(workflows.len(), 1);
    assert_eq!(workflows[0].workflow_id, "second");
    assert_eq!(workflows[0].mode, "b");
}

#[test]
fn test_phases_without_a_workflow_are_left_out() {
    let mut metrics = ProjectStatistics::default();
    metrics.state_transitions = vec![
        transition("2025-01-01T00:00:00Z", None, "spec", "a"),
        transition("2025-01-09T00:00:00Z", Some("late"), "plan", "a"),
    ];
    metrics.phase_metrics = vec![
        // Opened by a transition that names no workflow.
        create_phase_metrics("spec", "2025-01-02T00:00:00Z", None, 0, 0, 0, 0, None),
        // Every transition to its node comes after it.
        create_phase_metrics("plan", "2025-01-02T00:00:00Z", None, 0, 0, 0, 0, None),
        // No transition leads to its node.
        create_phase_metrics("code", "2025-01-02T00:00:00Z", None, 0, 0, 0, 0, None),
    ];
    assert!(build_workflow_summaries(&metrics).is_empty());
}

#[test]
fn test_phases_are_sorted_by_start_and_totals_add_up() {
    let mut metrics = ProjectStatistics::default();
    metrics.state_transitions = vec![
        transition("2025-01-01T00:00:00Z", Some("w"), "spec", "first-mode"),
        transition("2025-01-01T00:00:00Z", Some("w"), "plan", "second-mode"),
        transition("2025-01-01T00:00:00Z", Some("w"), "code", "third-mode"),
    ];
    let mut code = create_phase_metrics("code", "2025-01-03T00:00:00Z", None, 5, 1, 10, 0, None);
    code.bash_commands = vec![BashCommand::default(); 2];
    code.file_modifications = vec![FileModification::default(); 3];
    code.git_commits = vec![GitCommit::default(); 4];
    code.token_metrics.total_cache_creation_tokens = 100;
    code.token_metrics.total_cache_read_tokens = 1000;
    let mut plan = create_phase_metrics("plan", "2025-01-02T00:00:00Z", None, 6, 2, 20, 0, None);
    plan.bash_commands = vec![BashCommand::default(); 1];
    let spec = create_phase_metrics(
        "spec",
        "2025-01-02T00:00:00Z",
        Some("2025-01-02T01:00:00Z"),
        7,
        4,
        40,
        0,
        None,
    );
    metrics.phase_metrics = vec![code, plan, spec];

    let workflows = build_workflow_summaries(&metrics);
    assert_eq!(workflows.len(), 1);
    let w = &workflows[0];
    assert_eq!(w.mode, "first-mode");
    assert_eq!(w.status, WorkflowStatus::Active);
    // The first phase without an end, in the order of the statistics.
    assert_eq!(w.current_phase, Some("code".to_string()));
    // Sorted by start; plan and spec start together and keep their order.
    let names: Vec<&str> = w.phases.iter().map(|p| p.phase_name.as_str()).collect();
    assert_eq!(names, vec!["plan", "spec", "code"]);
    assert_eq!(w.phases[1].end_time, Some("2025-01-02T01:00:00Z".to_string()));
    assert_eq!(w.phases[1].duration_seconds, 7);
    assert_eq!(w.phases[2].metrics.total_all_tokens, 1111);
    assert_eq!(w.phases[2].metrics.event_count, 5);
    assert_eq!(w.phases[2].metrics.bash_command_count, 2);
    assert_eq!(w.phases[2].metrics.file_modification_count, 3);
    assert_eq!(w.phases[2].metrics.git_commit_count, 4);
    assert_eq!(w.total_metrics.total_input_tokens, 7);
    assert_eq!(w.total_metrics.total_output_tokens, 70);
    assert_eq!(w.total_metrics.total_cache_creation_tokens, 100);
    assert_eq!(w.total_metrics.total_cache_read_tokens, 1000);
    assert_eq!(w.total_metrics.total_all_tokens, 1177);
    assert_eq!(w.total_metrics.event_count, 6);
    assert_eq!(w.total_metrics.bash_command_count, 3);
    assert_eq!(w.total_metrics.file_modification_count, 3);
    assert_eq!(w.total_metrics.git_commit_count, 4);
}

#[test]
fn test_token_totals_wrap() {
    let mut metrics = ProjectStatistics::default();
    metrics.state_transitions = vec![transition("1", Some("w"), "a", "m")];
    metrics.phase_metrics = vec![
        create_phase_metrics("a", "1", None, 0, u64::MAX, 1, 0, None),
        create_phase_metrics("a", "2", None, 0, 3, 0, 0, None),
    ];
    let workflows = build_workflow_summaries(&metrics);
    assert_eq!(workflows[0].phases[0].metrics.total_all_tokens, 0);
    assert_eq!(workflows[0].total_metrics.total_input_tokens, 2);
    assert_eq!(workflows[0].total_metrics.total_all_tokens, 3);
    let summary = summarize_phase(&metrics.phase_metrics[0]);
    assert_eq!(summary.metrics.total_all_tokens, 0);
    assert_eq!(summary.status, PhaseStatus::InProgress);
}

#[test]
fn test_project_metrics_summary() {
    let mut stats = ProjectStatistics::default();
    stats.session_id = Some("test-session".to_string());
    stats.token_metrics.total_input_tokens = 1000;
    stats.token_metrics.total_output_tokens = 500;
    stats.token_metrics.total_cache_creation_tokens = 100;
    stats.token_metrics.total_cache_read_tokens = 200;
    stats.hook_metrics.total_events = 50;
    stats.hook_metrics.bash_commands = vec![BashCommand::default(); 10];
    stats.hook_metrics.file_modifications = vec![FileModification::default(); 5];
    stats.git_commits = vec![GitCommit::default(); 2];
    stats.phase_metrics = vec![PhaseMetrics::default(); 3];
    let summary = ProjectMetricsSummary::from(&stats);
    assert_eq!(
        summary,
        ProjectMetricsSummary {
            total_input_tokens: 1000,
            total_output_tokens: 500,
            total_cache_creation_tokens: 100,
            total_cache_read_tokens: 200,
            total_all_tokens: 1800,
            total_events: 50,
            bash_command_count: 10,
            file_modification_count: 5,
            git_commit_count: 2,
            phase_count: 3,
        }
    );
}
