use hegel_pm::api_types::{AllProjectsAggregate, ProjectInfo, WorkflowStatus};
use hegel_pm::data_layer::worker::WorkerStep;
use hegel_pm::data_layer::{
    CacheKey, DataError, DataRequest, ResponseCache, WorkerPool, WorkerPoolConfig,
};
use hegel_pm::discovery::{DiscoveredProject, ProjectListItem, ProjectStatistics, WorkflowState};
use hegel_pm::metrics::{BashCommand, PhaseMetrics, StateTransitionEvent, TokenMetrics};
use hegel_pm::timestamp::Timestamp;
use std::sync::Arc;

fn project(name: &str) -> DiscoveredProject {
    DiscoveredProject::found_at(
        name.to_string(),
        format!("/code/{}", name),
        format!("/code/{}/.hegel", name),
        None,
        Timestamp { secs_since_epoch: 10, nanos_since_epoch: 0 },
        None,
        Timestamp { secs_since_epoch: 20, nanos_since_epoch: 0 },
    )
}

fn pool(projects: Vec<DiscoveredProject>) -> WorkerPool {
    WorkerPool::new(WorkerPoolConfig { worker_count: 2, channel_buffer: 10 }, projects).unwrap()
}

fn listing_bytes(items: &[ProjectListItem]) -> Vec<u8> {
    let names: Vec<String> = items.iter().map(|i| format!("\"{}\"", i.name)).collect();
    format!("[{}]", names.join(",")).into_bytes()
}

fn aggregate_bytes(a: &AllProjectsAggregate) -> Vec<u8> {
    format!("{{\"total_projects\":{}}}", a.total_projects).into_bytes()
}

fn info_bytes(info: &ProjectInfo) -> Vec<u8> {
    format!("{{\"name\":\"{}\",\"tokens\":{}}}", info.project_name, info.summary.total_all_tokens)
        .into_bytes()
}

fn stats(input: u64, output: u64) -> ProjectStatistics {
    let mut s = ProjectStatistics::default();
    s.token_metrics = TokenMetrics {
        total_input_tokens: input,
        total_output_tokens: output,
        total_cache_creation_tokens: 3,
        total_cache_read_tokens: 4,
        assistant_turns: 1,
    };
    s.hook_metrics.total_events = 5;
    s.hook_metrics.bash_commands = vec![BashCommand::default(), BashCommand::default()];
    s
}

/// Serves one metrics request to the end, as the caller of the worker does.
fn serve_metrics(worker: &mut WorkerPool, name: &str, parse: Result<ProjectStatistics, String>) -> Result<Vec<u8>, DataError> {
    match worker.run(DataRequest::GetProjectMetrics { name: name.to_string() }) {
        WorkerStep::Reply(bytes) => Ok((*bytes).clone()),
        WorkerStep::Fail(e) => Err(e),
        WorkerStep::SerializeMetrics(info) => worker.complete_metrics(name, Ok(info_bytes(&info))),
        WorkerStep::ParseMetrics { name: asked, hegel_dir } => {
            assert_eq!(asked, name);
            assert_eq!(hegel_dir, format!("/code/{}/.hegel", name));
            let info = worker.load_project_metrics(name, parse)?;
            worker.complete_metrics(name, Ok(info_bytes(&info)))
        }
        other => panic!("unexpected step {:?}", other),
    }
}

fn serve_listing(worker: &mut WorkerPool) -> (Vec<u8>, bool) {
    match worker.run(DataRequest::GetProjects) {
        WorkerStep::Reply(bytes) => ((*bytes).clone(), true),
        WorkerStep::SerializeListing(items) => {
            (worker.complete_listing(Ok(listing_bytes(&items))), false)
        }
        other => panic!("unexpected step {:?}", other),
    }
}

#[test]
fn test_cache_insert_and_get() {
    let mut cache = ResponseCache::new();
    let key = CacheKey::ProjectList;
    let data = vec![1, 2, 3, 4, 5];

    cache.insert(key.clone(), data.clone());

    let retrieved = cache.get(&key).expect("Cache entry should exist");
    assert_eq!(*retrieved, data);
}

#[test]
fn test_cache_get_nonexistent() {
    let cache = ResponseCache::new();
    let key = CacheKey::ProjectMetrics("nonexistent".to_string());

    assert!(cache.get(&key).is_none());
}

#[test]
fn test_cache_invalidate() {
    let mut cache = ResponseCache::new();
    let key = CacheKey::AllProjectsAggregate;
    let data = vec![1, 2, 3];

    cache.insert(key.clone(), data);
    assert!(cache.get(&key).is_some());

    cache.invalidate(&key);
    assert!(cache.get(&key).is_none());
}

#[test]
fn test_cache_multiple_entries() {
    let mut cache = ResponseCache::new();

    cache.insert(CacheKey::ProjectList, vec![1]);
    cache.insert(CacheKey::ProjectMetrics("proj1".to_string()), vec![2]);
    cache.insert(CacheKey::AllProjectsAggregate, vec![3]);

    assert_eq!(cache.len(), 3);
    assert!(cache.get(&CacheKey::ProjectList).is_some());
    assert!(cache
        .get(&CacheKey::ProjectMetrics("proj1".to_string()))
        .is_some());
    assert!(cache.get(&CacheKey::AllProjectsAggregate).is_some());
}

#[test]
fn test_cache_arc_sharing() {
    let mut cache = ResponseCache::new();
    let key = CacheKey::ProjectList;
    let data = vec![1, 2, 3, 4, 5];

    cache.insert(key.clone(), data);

    // Get multiple references to same data
    let ref1 = cache.get(&key).unwrap();
    let ref2 = cache.get(&key).unwrap();

    // Both should point to same Arc (cheap clone)
    assert_eq!(ref1, ref2);
    assert_eq!(Arc::strong_count(&ref1), Arc::strong_count(&ref2));
    assert!(Arc::ptr_eq(&ref1, &ref2));
}

#[test]
fn test_cache_insert_replaces_and_clear_empties() {
    let mut cache = ResponseCache::default();
    assert_eq!(cache.len(), 0);
    cache.insert(CacheKey::ProjectMetrics("a".to_string()), vec![1]);
    cache.insert(CacheKey::ProjectMetrics("a".to_string()), vec![2, 2]);
    cache.insert(CacheKey::ProjectMetrics("b".to_string()), vec![3]);
    assert_eq!(cache.len(), 2);
    assert_eq!(*cache.get(&CacheKey::ProjectMetrics("a".to_string())).unwrap(), vec![2, 2]);
    cache.invalidate(&CacheKey::ProjectMetrics("missing".to_string()));
    assert_eq!(cache.len(), 2);
    cache.clear();
    assert_eq!(cache.len(), 0);
    assert!(cache.get(&CacheKey::ProjectMetrics("a".to_string())).is_none());
}

#[test]
fn test_cache_key_equality() {
    let key1 = CacheKey::ProjectMetrics("test".to_string());
    let key2 = CacheKey::ProjectMetrics("test".to_string());
    let key3 = CacheKey::ProjectMetrics("other".to_string());

    assert_eq!(key1, key2);
    assert_ne!(key1, key3);
}

#[test]
fn test_data_error_display() {
    let not_found = DataError::ProjectNotFound("test-project".to_string());
    assert_eq!(not_found.to_string(), "Project not found: test-project");

    let parse_error = DataError::ParseError("invalid JSON".to_string());
    assert_eq!(parse_error.to_string(), "Parse error: invalid JSON");

    let cache_error = DataError::CacheError("write failed".to_string());
    assert_eq!(cache_error.to_string(), "Cache error: write failed");
}

#[test]
fn test_data_error_clone() {
    let error = DataError::ProjectNotFound("test".to_string());
    let cloned = error.clone();
    assert_eq!(error.to_string(), cloned.to_string());
}

#[test]
fn test_data_error_kinds() {
    assert!(DataError::ProjectNotFound("x".to_string()).is_not_found());
    assert!(!DataError::ParseError("x".to_string()).is_not_found());
    assert!(!DataError::CacheError("x".to_string()).is_not_found());
}

#[test]
fn test_worker_pool_config_default() {
    let config = WorkerPoolConfig::default();
    assert!(config.worker_count > 0);
    assert_eq!(config.channel_buffer, 100);
}

#[test]
fn test_worker_pool_config_for_cpus() {
    assert_eq!(WorkerPoolConfig::for_cpus(4).worker_count, 8);
    assert_eq!(WorkerPoolConfig::for_cpus(usize::MAX).worker_count, usize::MAX);
    assert_eq!(WorkerPoolConfig::for_cpus(0).worker_count, 0);
}

#[test]
fn test_worker_pool_config_validation() {
    let valid = WorkerPoolConfig {
        worker_count: 4,
        channel_buffer: 50,
    };
    assert!(valid.validate().is_ok());

    let invalid_workers = WorkerPoolConfig {
        worker_count: 0,
        channel_buffer: 50,
    };
    assert!(invalid_workers.validate().is_err());

    let invalid_buffer = WorkerPoolConfig {
        worker_count: 4,
        channel_buffer: 0,
    };
    assert!(invalid_buffer.validate().is_err());
}

#[test]
fn test_worker_pool_config_messages() {
    let none = WorkerPoolConfig { worker_count: 0, channel_buffer: 0 };
    assert_eq!(none.validate().unwrap_err(), "worker_count must be greater than 0");
    let no_buffer = WorkerPoolConfig { worker_count: 1, channel_buffer: 0 };
    assert_eq!(no_buffer.validate().unwrap_err(), "channel_buffer must be greater than 0");
}

#[test]
fn test_worker_pool_initialization() {
    let result = WorkerPool::new(
        WorkerPoolConfig { worker_count: 2, channel_buffer: 10 },
        vec![project("a")],
    );
    assert!(result.is_ok());
    let refused = WorkerPool::new(WorkerPoolConfig { worker_count: 0, channel_buffer: 10 }, vec![]);
    assert_eq!(refused.err().unwrap(), "worker_count must be greater than 0");
}

#[test]
fn test_worker_pool_channel_communication() {
    let mut worker = pool(vec![project("alpha"), project("beta")]);
    let (response, hit) = serve_listing(&mut worker);
    assert!(!hit);
    assert!(response.starts_with(b"["));
    assert!(response.ends_with(b"]"));
    assert_eq!(response, b"[\"alpha\",\"beta\"]".to_vec());
}

#[test]
fn test_listing_holds_names_and_states() {
    let mut active = project("alpha");
    active.workflow_state = Some(WorkflowState {
        current_node: "code".to_string(),
        mode: "discovery".to_string(),
        history: vec!["spec".to_string(), "code".to_string()],
        workflow_id: Some("w1".to_string()),
    });
    let worker = pool(vec![active, project("beta")]);
    match worker.handle_get_projects() {
        WorkerStep::SerializeListing(items) => {
            assert_eq!(items.len(), 2);
            assert_eq!(items[0].name, "alpha");
            let state = items[0].workflow_state.clone().unwrap();
            assert_eq!(state.current_node, "code");
            assert_eq!(state.mode, "discovery");
            assert_eq!(state.history, vec!["spec", "code"]);
            assert_eq!(state.workflow_id, Some("w1".to_string()));
            assert_eq!(items[1].name, "beta");
            assert!(items[1].workflow_state.is_none());
        }
        other => panic!("unexpected step {:?}", other),
    }
}

#[test]
fn test_cache_hit_fast_path() {
    let mut worker = pool(vec![project("alpha")]);

    // First request (cache miss)
    let (response1, hit1) = serve_listing(&mut worker);
    // Second request (cache hit)
    let (response2, hit2) = serve_listing(&mut worker);

    assert!(!hit1);
    assert!(hit2);
    // Both responses should be identical (cache hit)
    assert_eq!(response1, response2);
    assert!(response1.starts_with(b"["));
    assert!(response1.ends_with(b"]"));
}

#[test]
fn test_listing_that_cannot_be_serialized() {
    let mut worker = pool(vec![project("alpha")]);
    assert!(matches!(worker.handle_get_projects(), WorkerStep::SerializeListing(_)));
    let reply = worker.complete_listing(Err("no".to_string()));
    assert_eq!(reply, b"[]".to_vec());
    // Nothing was cached: the next request is a miss again.
    assert!(matches!(worker.handle_get_projects(), WorkerStep::SerializeListing(_)));
}

#[test]
fn test_project_metrics_cache_miss() {
    let mut worker = pool(vec![project("alpha")]);

    // Request nonexistent project
    let result = serve_metrics(&mut worker, "nonexistent", Ok(stats(1, 2)));
    assert!(result.is_err());
    match result {
        Err(DataError::ProjectNotFound(name)) => {
            assert_eq!(name, "nonexistent");
        }
        _ => panic!("Expected ProjectNotFound error"),
    }
}

#[test]
fn test_concurrent_requests_dont_block() {
    let mut worker = pool(vec![project("alpha")]);
    for i in 0..5 {
        let name = format!("project-{}", i);
        let result = serve_metrics(&mut worker, &name, Ok(stats(1, 2)));
        assert_eq!(result, Err(DataError::ProjectNotFound(name))); // All are ProjectNotFound
    }
    // Asking twice for the same missing project gives the same error both times.
    let first = serve_metrics(&mut worker, "ghost", Ok(stats(1, 2)));
    let second = serve_metrics(&mut worker, "ghost", Ok(stats(1, 2)));
    assert_eq!(first, Err(DataError::ProjectNotFound("ghost".to_string())));
    assert_eq!(first, second);
}

#[test]
fn test_not_found_is_never_cached() {
    let mut worker = pool(vec![project("alpha")]);
    assert_eq!(
        worker.complete_metrics("ghost", Ok(vec![1, 2, 3])),
        Err(DataError::ProjectNotFound("ghost".to_string()))
    );
    assert_eq!(
        worker.load_project_metrics("ghost", Ok(stats(1, 2))).err(),
        Some(DataError::ProjectNotFound("ghost".to_string()))
    );
    assert!(matches!(
        worker.handle_get_project_metrics("ghost"),
        WorkerStep::Fail(DataError::ProjectNotFound(_))
    ));
}

#[test]
fn test_metrics_are_parsed_once_then_cached() {
    let mut worker = pool(vec![project("alpha"), project("beta")]);
    let first = serve_metrics(&mut worker, "alpha", Ok(stats(10, 20))).unwrap();
    assert_eq!(first, b"{\"name\":\"alpha\",\"tokens\":37}".to_vec());
    // A cached response is answered without a parse: this parse result is never looked at.
    let second = serve_metrics(&mut worker, "alpha", Err("must not parse".to_string())).unwrap();
    assert_eq!(first, second);
    assert!(matches!(worker.handle_get_project_metrics("alpha"), WorkerStep::Reply(_)));
    // The other project is still to be parsed.
    assert!(matches!(
        worker.handle_get_project_metrics("beta"),
        WorkerStep::ParseMetrics { .. }
    ));
}

#[test]
fn test_two_requests_before_the_first_parse_completes() {
    let mut worker = pool(vec![project("x")]);
    // Both requests arrive before either parse is done: both are told to parse.
    let step1 = worker.run(DataRequest::GetProjectMetrics { name: "x".to_string() });
    let step2 = worker.run(DataRequest::GetProjectMetrics { name: "x".to_string() });
    assert!(matches!(step1, WorkerStep::ParseMetrics { .. }));
    assert!(matches!(step2, WorkerStep::ParseMetrics { .. }));
    // Both parses complete, one after the other.
    let info1 = worker.load_project_metrics("x", Ok(stats(10, 20))).unwrap();
    let reply1 = worker.complete_metrics("x", Ok(info_bytes(&info1))).unwrap();
    let info2 = worker.load_project_metrics("x", Ok(stats(10, 20))).unwrap();
    let reply2 = worker.complete_metrics("x", Ok(info_bytes(&info2))).unwrap();
    assert_eq!(reply1, reply2);
    assert_eq!(reply1, b"{\"name\":\"x\",\"tokens\":37}".to_vec());
    assert_eq!(info1.summary, info2.summary);
}

#[test]
fn test_metrics_with_loaded_statistics_skip_the_parse() {
    let mut loaded = project("alpha");
    loaded.statistics = Some(stats(1, 1));
    let mut worker = pool(vec![loaded]);
    match worker.handle_get_project_metrics("alpha") {
        WorkerStep::SerializeMetrics(info) => {
            assert_eq!(info.project_name, "alpha");
            assert_eq!(info.summary.total_input_tokens, 1);
            assert_eq!(info.summary.total_all_tokens, 9);
            assert_eq!(info.summary.total_events, 5);
            assert_eq!(info.summary.bash_command_count, 2);
            assert_eq!(info.summary.file_modification_count, 0);
            assert_eq!(info.summary.phase_count, 0);
            assert!(info.detail.current_workflow_state.is_none());
            assert!(info.detail.workflows.is_empty());
        }
        other => panic!("unexpected step {:?}", other),
    }
    let reply = serve_metrics(&mut worker, "alpha", Err("must not parse".to_string()));
    assert_eq!(reply.unwrap(), b"{\"name\":\"alpha\",\"tokens\":9}".to_vec());
}

#[test]
fn test_metrics_failures() {
    let mut worker = pool(vec![project("alpha")]);
    let failed = serve_metrics(&mut worker, "alpha", Err("bad log".to_string()));
    assert_eq!(
        failed,
        Err(DataError::ParseError("Failed to parse metrics: bad log".to_string()))
    );
    // A failed parse stores nothing: the next request parses again.
    assert!(matches!(
        worker.handle_get_project_metrics("alpha"),
        WorkerStep::ParseMetrics { .. }
    ));
    let unserialized = worker.complete_metrics("alpha", Err("too deep".to_string()));
    assert_eq!(
        unserialized,
        Err(DataError::CacheError("Serialization failed: too deep".to_string()))
    );
    assert!(matches!(
        worker.handle_get_project_metrics("alpha"),
        WorkerStep::ParseMetrics { .. }
    ));
}

#[test]
fn test_metrics_go_to_the_first_project_of_a_name() {
    let mut second = project("twin");
    second.hegel_dir = "/elsewhere/.hegel".to_string();
    let mut worker = pool(vec![project("twin"), second]);
    match worker.handle_get_project_metrics("twin") {
        WorkerStep::ParseMetrics { hegel_dir, .. } => assert_eq!(hegel_dir, "/code/twin/.hegel"),
        other => panic!("unexpected step {:?}", other),
    }
    worker.load_project_metrics("twin", Ok(stats(1, 2))).unwrap();
    // Only the first of the two carries statistics now.
    match worker.handle_get_all_projects() {
        WorkerStep::SerializeAggregate(a) => {
            assert_eq!(a.total_projects, 2);
            assert_eq!(a.aggregate_metrics.total_input_tokens, 1);
        }
        other => panic!("unexpected step {:?}", other),
    }
}

#[test]
fn test_aggregate_sums_loaded_projects_only() {
    let mut a = project("a");
    a.statistics = Some(stats(10, 20));
    let mut b = project("b");
    let mut heavy = stats(100, 200);
    heavy.phase_metrics = vec![PhaseMetrics::default(), PhaseMetrics::default()];
    heavy.git_commits = vec![Default::default()];
    heavy.hook_metrics.file_modifications = vec![Default::default(); 3];
    b.statistics = Some(heavy);
    let mut worker = pool(vec![a, project("unloaded"), b]);
    let aggregate = match worker.handle_get_all_projects() {
        WorkerStep::SerializeAggregate(a) => a,
        other => panic!("unexpected step {:?}", other),
    };
    assert_eq!(aggregate.total_projects, 3);
    let m = aggregate.aggregate_metrics;
    assert_eq!(m.total_input_tokens, 110);
    assert_eq!(m.total_output_tokens, 220);
    assert_eq!(m.total_cache_creation_tokens, 6);
    assert_eq!(m.total_cache_read_tokens, 8);
    assert_eq!(m.total_all_tokens, 344);
    assert_eq!(m.total_events, 10);
    assert_eq!(m.bash_command_count, 4);
    assert_eq!(m.file_modification_count, 3);
    assert_eq!(m.git_commit_count, 1);
    assert_eq!(m.phase_count, 2);
    assert_eq!(worker.aggregate(), aggregate);

    let reply = worker.complete_aggregate(Ok(aggregate_bytes(&aggregate)));
    assert_eq!(reply, b"{\"total_projects\":3}".to_vec());
    match worker.handle_get_all_projects() {
        WorkerStep::Reply(bytes) => assert_eq!(*bytes, reply),
        other => panic!("unexpected step {:?}", other),
    }
}

#[test]
fn test_aggregate_wraps() {
    let mut a = project("a");
    a.statistics = Some(stats(u64::MAX, 0));
    let mut b = project("b");
    b.statistics = Some(stats(2, 0));
    let worker = pool(vec![a, b]);
    let m = worker.aggregate().aggregate_metrics;
    assert_eq!(m.total_input_tokens, 1);
    assert_eq!(m.total_all_tokens, 1u64.wrapping_add(6).wrapping_add(8));
}

#[test]
fn test_aggregate_that_cannot_be_serialized() {
    let mut worker = pool(vec![]);
    let reply = worker.complete_aggregate(Err("no".to_string()));
    assert_eq!(reply, b"{}".to_vec());
    assert!(matches!(worker.handle_get_all_projects(), WorkerStep::SerializeAggregate(_)));
}

#[test]
fn test_refresh_cache_invalidates() {
    let mut worker = pool(vec![project("alpha")]);

    // Populate cache
    let (_, hit) = serve_listing(&mut worker);
    assert!(!hit);
    let aggregate = worker.aggregate();
    worker.complete_aggregate(Ok(aggregate_bytes(&aggregate)));
    serve_metrics(&mut worker, "alpha", Ok(stats(1, 2))).unwrap();

    // Invalidate cache
    assert!(matches!(
        worker.run(DataRequest::RefreshCache { project_name: None }),
        WorkerStep::Idle
    ));

    // Next request should be cache miss (but will reload and cache again)
    let (response, hit) = serve_listing(&mut worker);
    assert!(!hit);
    assert!(response.starts_with(b"["));
    assert!(response.ends_with(b"]"));
    assert!(matches!(worker.handle_get_all_projects(), WorkerStep::SerializeAggregate(_)));
    // The metrics of the project are still cached.
    assert!(matches!(worker.handle_get_project_metrics("alpha"), WorkerStep::Reply(_)));

    // A refresh of the project forgets its metrics, and nothing else.
    worker.handle_refresh_cache(Some("alpha".to_string()));
    assert!(matches!(
        worker.handle_get_project_metrics("alpha"),
        WorkerStep::SerializeMetrics(_)
    ));
    assert!(matches!(worker.handle_get_projects(), WorkerStep::Reply(_)));
}

#[test]
fn test_metrics_carry_the_workflows() {
    let mut p = project("alpha");
    p.workflow_state = Some(WorkflowState {
        current_node: "plan".to_string(),
        mode: "execution".to_string(),
        history: vec![],
        workflow_id: Some("2025-01-15T10:00:00Z".to_string()),
    });
    let mut worker = pool(vec![p]);
    let mut s = stats(0, 0);
    s.state_transitions = vec![StateTransitionEvent {
        timestamp: "2025-01-15T10:00:00Z".to_string(),
        workflow_id: Some("2025-01-15T10:00:00Z".to_string()),
        from_node: "START".to_string(),
        to_node: "spec".to_string(),
        phase: "spec".to_string(),
        mode: "execution".to_string(),
    }];
    let mut phase = PhaseMetrics::default();
    phase.phase_name = "spec".to_string();
    phase.start_time = "2025-01-15T10:00:00Z".to_string();
    s.phase_metrics = vec![phase];
    let info = worker.load_project_metrics("alpha", Ok(s)).unwrap();
    assert_eq!(info.project_name, "alpha");
    assert_eq!(info.summary.phase_count, 1);
    assert_eq!(info.detail.current_workflow_state.unwrap().current_node, "plan");
    assert_eq!(info.detail.workflows.len(), 1);
    assert_eq!(info.detail.workflows[0].workflow_id, "2025-01-15T10:00:00Z");
    assert_eq!(info.detail.workflows[0].status, WorkflowStatus::Active);
}
