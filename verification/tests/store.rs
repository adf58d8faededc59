use neoterm::files::{definition_file_name, is_definition_file};
use neoterm::time::{TimeSpan, Timestamp};
use neoterm::workflows::manager::sanitize_filename;
use neoterm::workflows::{
    ArgumentType, Shell, Workflow, WorkflowArgument, WorkflowCategory, WorkflowError,
    WorkflowManager, WorkflowUsageStats,
};

fn flow(name: &str, command: &str, tags: &[&str]) -> Workflow {
    Workflow {
        name: name.to_string(),
        command: command.to_string(),
        tags: tags.iter().map(|t| t.to_string()).collect(),
        description: None,
        source_url: None,
        author: None,
        author_url: None,
        shells: None,
        arguments: vec![],
        file_path: None,
        last_used: None,
        usage_count: 0,
    }
}

fn store(workflows: Vec<Workflow>) -> WorkflowManager {
    let mut manager = WorkflowManager::new("/tmp/workflows".to_string());
    for w in workflows {
        manager.add_workflow(w).unwrap();
    }
    manager
}

fn at(secs: i64) -> Timestamp {
    Timestamp { secs, nanos: 0 }
}

fn names(list: &[Workflow]) -> Vec<String> {
    list.iter().map(|w| w.name.clone()).collect()
}

#[test]
fn a_new_store_is_empty() {
    let manager = WorkflowManager::new("/tmp/w".to_string());
    assert_eq!(manager.len(), 0);
    assert_eq!(manager.workflows_dir(), "/tmp/w");
    assert!(manager.get_workflow("x").is_none());
    assert!(manager.usage_stats().is_empty());
    assert!(manager.get_categories().is_empty());
    assert!(manager.search_workflows("", None).is_empty());
}

#[test]
fn add_workflow_stores_a_valid_workflow() {
    let mut manager = store(vec![flow("a", "ls", &[])]);
    assert_eq!(manager.len(), 1);
    assert_eq!(manager.get_workflow("a").unwrap().command, "ls");
    manager.add_workflow(flow("a", "ls -la", &[])).unwrap();
    assert_eq!(manager.len(), 1);
    assert_eq!(manager.get_workflow("a").unwrap().command, "ls -la");
}

#[test]
fn add_workflow_refuses_an_invalid_workflow() {
    let mut manager = store(vec![flow("a", "ls", &[])]);
    let bad = flow("b", "ls {{dir}}", &[]);
    match manager.add_workflow(bad) {
        Err(WorkflowError::ValidationError(message)) => {
            assert_eq!(message, "Placeholder 'dir' has no corresponding argument")
        }
        other => panic!("expected a validation error, got {:?}", other),
    }
    assert_eq!(manager.len(), 1);
    assert!(manager.get_workflow("b").is_none());
}

#[test]
fn remove_workflow_takes_out_the_workflow_and_its_statistics() {
    let mut manager = store(vec![flow("a", "ls", &[]), flow("b", "pwd", &[])]);
    manager.record_usage("a", at(5), None);
    manager.record_usage("b", at(6), None);
    let mut with_file = flow("c", "id", &[]);
    with_file.file_path = Some("/tmp/workflows/c.yaml".to_string());
    manager.add_workflow(with_file).unwrap();
    let gone = manager.remove_workflow("a").unwrap();
    assert_eq!(gone.name, "a");
    assert_eq!(gone.usage_count, 1);
    assert!(manager.get_workflow("a").is_none());
    assert!(manager.get_usage_stats("a").is_none());
    assert_eq!(manager.len(), 2);
    assert!(manager.get_usage_stats("b").is_some());
    assert!(manager.remove_workflow("a").is_none());
    let gone = manager.remove_workflow("c").unwrap();
    assert_eq!(gone.file_path.as_deref(), Some("/tmp/workflows/c.yaml"));
}

#[test]
fn statistics_outlive_a_workflow_that_was_never_stored() {
    let mut manager = store(vec![]);
    let stats = manager.record_usage("ghost", at(9), Some(TimeSpan { nanos: 7 }));
    assert_eq!(stats.usage_count, 1);
    assert_eq!(manager.get_usage_stats("ghost"), Some(stats));
    assert_eq!(manager.len(), 0);
}

#[test]
fn three_runs_are_counted() {
    let mut manager = store(vec![flow("a", "ls", &[])]);
    manager.record_usage("a", at(100), Some(TimeSpan { nanos: 100 }));
    manager.record_usage("a", at(200), Some(TimeSpan { nanos: 200 }));
    let stats = manager.record_usage("a", at(300), None);
    assert_eq!(stats.usage_count, 3);
    assert_eq!(stats.last_used, at(300));
    assert_eq!(stats.average_execution_time, Some(TimeSpan { nanos: 150 }));
    assert_eq!(manager.get_usage_stats("a"), Some(stats));
    let stored = manager.get_workflow("a").unwrap();
    assert_eq!(stored.usage_count, 3);
    assert_eq!(stored.last_used, Some(at(300)));
}

#[test]
fn record_usage_follows_the_rules() {
    let mut manager = store(vec![flow("a", "ls", &[])]);
    let first = manager.record_usage("a", at(10), None);
    assert_eq!(
        first,
        WorkflowUsageStats { usage_count: 1, last_used: at(10), average_execution_time: None }
    );
    let second = manager.record_usage("a", at(20), Some(TimeSpan { nanos: 400 }));
    assert_eq!(second.usage_count, 2);
    assert_eq!(second.average_execution_time, Some(TimeSpan { nanos: 400 }));
    let third = manager.record_usage("a", at(30), Some(TimeSpan { nanos: 101 }));
    assert_eq!(third.average_execution_time, Some(TimeSpan { nanos: 250 }));
    let fourth = manager.record_usage("a", at(25), None);
    assert_eq!(fourth.usage_count, 4);
    assert_eq!(fourth.last_used, at(25));
    assert_eq!(fourth.average_execution_time, Some(TimeSpan { nanos: 250 }));
    assert_eq!(manager.get_workflow("a").unwrap().last_used, Some(at(25)));
}

#[test]
fn the_count_stays_at_its_largest() {
    let mut stats =
        WorkflowUsageStats { usage_count: u32::MAX - 1, last_used: at(0), average_execution_time: None };
    stats.record(at(1), None);
    assert_eq!(stats.usage_count, u32::MAX);
    stats.record(at(2), None);
    assert_eq!(stats.usage_count, u32::MAX);
    assert_eq!(stats.last_used, at(2));
}

#[test]
fn the_average_is_halfway_to_the_last_run() {
    let mut stats = WorkflowUsageStats::new(at(0));
    assert_eq!(stats.usage_count, 0);
    stats.record(at(1), Some(TimeSpan { nanos: u128::MAX }));
    stats.record(at(2), Some(TimeSpan { nanos: u128::MAX }));
    assert_eq!(stats.average_execution_time, Some(TimeSpan { nanos: u128::MAX }));
    stats.record(at(3), Some(TimeSpan { nanos: 0 }));
    assert_eq!(stats.average_execution_time, Some(TimeSpan { nanos: u128::MAX / 2 }));
}

#[test]
fn load_workflows_takes_in_the_valid_candidates() {
    let mut manager = store(vec![flow("old", "ls", &[])]);
    manager.load_usage_stats(&vec![
        ("b".to_string(), WorkflowUsageStats {
            usage_count: 7,
            last_used: at(70),
            average_execution_time: None,
        }),
    ]);
    let mut twice = flow("a", "second", &[]);
    twice.usage_count = 3;
    let skipped = manager.load_workflows(&vec![
        flow("a", "first", &[]),
        flow("", "nameless", &[]),
        flow("b", "pwd", &[]),
        flow("c", "ls {{x}}", &[]),
        twice,
    ]);
    assert_eq!(skipped, vec![1, 3]);
    assert_eq!(manager.len(), 2);
    assert!(manager.get_workflow("old").is_none());
    let a = manager.get_workflow("a").unwrap();
    assert_eq!(a.command, "second");
    assert_eq!(a.usage_count, 3);
    assert_eq!(a.last_used, None);
    let b = manager.get_workflow("b").unwrap();
    assert_eq!(b.usage_count, 7);
    assert_eq!(b.last_used, Some(at(70)));
    assert_eq!(names(&manager.get_popular_workflows(9, None)), vec!["b", "a"]);
}

#[test]
fn load_usage_stats_keeps_the_last_entry_of_a_name() {
    let mut manager = store(vec![]);
    let entry = |count: u32| WorkflowUsageStats {
        usage_count: count,
        last_used: at(count as i64),
        average_execution_time: None,
    };
    manager.load_usage_stats(&vec![
        ("a".to_string(), entry(1)),
        ("b".to_string(), entry(2)),
        ("a".to_string(), entry(3)),
    ]);
    assert_eq!(manager.usage_stats().len(), 2);
    assert_eq!(manager.get_usage_stats("a"), Some(entry(3)));
    assert_eq!(manager.get_usage_stats("b"), Some(entry(2)));
    manager.load_usage_stats(&vec![]);
    assert!(manager.usage_stats().is_empty());
}

#[test]
fn an_empty_query_lists_all_by_usage_and_then_by_last_use() {
    let mut manager = store(vec![
        flow("never", "a", &[]),
        flow("once-early", "b", &[]),
        flow("twice", "c", &[]),
        flow("once-late", "d", &[]),
        flow("never-too", "e", &[]),
    ]);
    manager.record_usage("once-early", at(10), None);
    manager.record_usage("twice", at(5), None);
    manager.record_usage("twice", at(6), None);
    manager.record_usage("once-late", at(20), None);
    let results = manager.search_workflows("", None);
    let listed: Vec<&str> = results.iter().map(|r| r.workflow.name.as_str()).collect();
    assert_eq!(listed, vec!["twice", "once-late", "once-early", "never", "never-too"]);
    assert_eq!(results[0].score.points, 2);
    assert_eq!(results[0].score.usage, 0);
    assert!(results[0].matched_fields.is_empty());
    let all = manager.get_all_workflows(None);
    assert_eq!(all.len(), 5);
    assert_eq!(all[4].workflow.name, "never-too");
}

#[test]
fn a_search_lists_the_matches_by_score() {
    let mut described = flow("cleanup", "rm -rf target", &["rust"]);
    described.description = Some("Frees space taken by docker builds".to_string());
    let mut manager = store(vec![
        flow("docker-ps", "docker ps", &["docker"]),
        flow("list", "ls", &[]),
        described,
        flow("docker", "docker", &[]),
        flow("compose", "docker compose up", &[]),
    ]);
    manager.record_usage("list", at(1), None);
    let results = manager.search_workflows("Docker", None);
    let listed: Vec<&str> = results.iter().map(|r| r.workflow.name.as_str()).collect();
    assert_eq!(listed, vec!["docker-ps", "docker", "cleanup", "compose"]);
    // name 10, tag 8 + 12, command 3
    assert_eq!(results[0].score.points, 33);
    assert_eq!(results[0].matched_fields, vec!["name", "tags", "command"]);
    // name 10 + 20, command 3
    assert_eq!(results[1].score.points, 33);
    assert_eq!(results[1].matched_fields, vec!["name", "command"]);
    assert_eq!(results[2].score.points, 5);
    assert_eq!(results[2].matched_fields, vec!["description"]);
    assert_eq!(results[3].score.points, 3);
}

#[test]
fn a_search_leaves_out_workflows_that_were_only_used_often() {
    let mut manager = store(vec![flow("list", "ls", &[]), flow("docker", "docker", &[])]);
    for second in 0..50 {
        manager.record_usage("list", at(second), None);
    }
    let results = manager.search_workflows("docker", None);
    assert_eq!(results.len(), 1);
    assert_eq!(results[0].workflow.name, "docker");
}

#[test]
fn usage_decides_between_equal_points() {
    let mut manager = store(vec![flow("git-a", "x", &[]), flow("git-b", "y", &[])]);
    manager.record_usage("git-b", at(1), None);
    manager.record_usage("git-b", at(2), None);
    let results = manager.search_workflows("git", None);
    let listed: Vec<&str> = results.iter().map(|r| r.workflow.name.as_str()).collect();
    assert_eq!(listed, vec!["git-b", "git-a"]);
    assert_eq!(results[0].score.usage, 2);
}

#[test]
fn listings_follow_the_shell_filter() {
    let mut fish_only = flow("fish-only", "funced", &["system"]);
    fish_only.shells = Some(vec![Shell::Fish]);
    let mut posix = flow("posix", "export A=1", &["system"]);
    posix.shells = Some(vec![Shell::Bash, Shell::Zsh]);
    let mut manager = store(vec![fish_only, posix, flow("any", "ls", &["system"])]);
    manager.record_usage("any", at(1), None);
    manager.record_usage("posix", at(2), None);
    manager.record_usage("fish-only", at(3), None);
    let listed = |results: Vec<neoterm::workflows::WorkflowSearchResult>| -> Vec<String> {
        results.into_iter().map(|r| r.workflow.name).collect()
    };
    assert_eq!(listed(manager.search_workflows("", Some(&Shell::Fish))), vec!["fish-only", "any"]);
    assert_eq!(listed(manager.search_workflows("o", Some(&Shell::Bash))), vec!["posix"]);
    assert_eq!(
        names(&manager.get_workflows_by_category(&WorkflowCategory::System, Some(&Shell::Zsh))),
        vec!["posix", "any"]
    );
    assert_eq!(names(&manager.get_popular_workflows(5, Some(&Shell::Fish))), vec!["fish-only", "any"]);
    assert_eq!(names(&manager.get_recent_workflows(5, Some(&Shell::Bash))), vec!["posix", "any"]);
    assert_eq!(names(&manager.get_recent_workflows(5, None)), vec!["fish-only", "posix", "any"]);
}

#[test]
fn by_category_keeps_the_order_of_the_store() {
    let manager = store(vec![
        flow("b", "git b", &["Git"]),
        flow("x", "docker x", &["docker", "git"]),
        flow("a", "git a", &["vcs", "git"]),
        flow("plain", "ls", &[]),
    ]);
    assert_eq!(
        names(&manager.get_workflows_by_category(&WorkflowCategory::Git, None)),
        vec!["b", "a"]
    );
    assert_eq!(
        names(&manager.get_workflows_by_category(&WorkflowCategory::Other, None)),
        vec!["plain"]
    );
    assert!(manager.get_workflows_by_category(&WorkflowCategory::Aws, None).is_empty());
    assert_eq!(
        manager.get_categories(),
        vec![WorkflowCategory::Git, WorkflowCategory::Docker, WorkflowCategory::Other]
    );
}

#[test]
fn popular_and_recent_take_at_most_the_limit() {
    let mut manager = store(vec![
        flow("a", "a", &[]),
        flow("b", "b", &[]),
        flow("c", "c", &[]),
        flow("d", "d", &[]),
    ]);
    manager.record_usage("b", at(50), None);
    manager.record_usage("c", at(10), None);
    manager.record_usage("c", at(20), None);
    manager.record_usage("d", at(30), None);
    assert_eq!(names(&manager.get_popular_workflows(2, None)), vec!["c", "b"]);
    assert_eq!(names(&manager.get_popular_workflows(10, None)), vec!["c", "b", "d", "a"]);
    assert!(manager.get_popular_workflows(0, None).is_empty());
    assert_eq!(names(&manager.get_recent_workflows(2, None)), vec!["b", "d"]);
    assert_eq!(names(&manager.get_recent_workflows(10, None)), vec!["b", "d", "c"]);
}

#[test]
fn recent_goes_by_the_nanosecond() {
    let mut manager = store(vec![flow("a", "a", &[]), flow("b", "b", &[])]);
    manager.record_usage("a", Timestamp { secs: 7, nanos: 1 }, None);
    manager.record_usage("b", Timestamp { secs: 7, nanos: 2 }, None);
    assert_eq!(names(&manager.get_recent_workflows(2, None)), vec!["b", "a"]);
}

#[test]
fn export_workflow_needs_a_stored_workflow() {
    let manager = store(vec![flow("a", "ls", &[])]);
    assert_eq!(manager.export_workflow("a").unwrap().command, "ls");
    match manager.export_workflow("b") {
        Err(WorkflowError::WorkflowNotFound(name)) => assert_eq!(name, "b"),
        other => panic!("expected a missing workflow, got {:?}", other.map(|w| w.name.clone())),
    }
}

#[test]
fn matched_fields_of_a_workflow() {
    let manager = store(vec![]);
    let mut w = flow("Backup", "rsync -a", &["backup", "file"]);
    w.author = Some("backup team".to_string());
    assert_eq!(manager.get_matched_fields(&w, "BACK"), vec!["name", "tags"]);
    assert_eq!(manager.get_matched_fields(&w, "rsync"), vec!["command"]);
    assert!(manager.get_matched_fields(&w, "team").is_empty());
}

#[test]
fn definition_files_are_named_after_the_workflow() {
    let manager = store(vec![]);
    let w = flow("git: status/short?", "git status -s", &[]);
    assert_eq!(manager.definition_file_for(&w), "git_ status_short_.yaml");
    assert_eq!(definition_file_name("plain"), "plain.yaml");
    assert_eq!(sanitize_filename("a/b\\c:d*e?f\"g<h>i|j"), "a_b_c_d_e_f_g_h_i_j");
    assert_eq!(sanitize_filename("größe 1.0"), "größe 1.0");
    assert_eq!(sanitize_filename(""), "");
}

#[test]
fn definition_files_end_in_yml_or_yaml() {
    for name in ["a.yml", "a.yaml", "a.b.yaml", ".hidden.yml", "usage.json.yaml"] {
        assert!(is_definition_file(name), "for {:?}", name);
    }
    for name in ["a.json", "yaml", ".yaml", ".yml", "a.yaml.bak", "a.YAML", "a.yml ", "ayml", ""] {
        assert!(!is_definition_file(name), "for {:?}", name);
    }
    for name in ["a.yml", ".yaml", "a.b.yaml", "a.yaml.bak", "yaml", "a.YAML"] {
        let extension = std::path::Path::new(name).extension();
        let expected = extension.is_some_and(|e| e == "yml" || e == "yaml");
        assert_eq!(is_definition_file(name), expected, "for {:?}", name);
    }
}

#[test]
fn arguments_survive_the_store() {
    let mut w = flow("greet", "echo {{msg}}", &[]);
    w.arguments = vec![WorkflowArgument {
        name: "msg".to_string(),
        description: Some("what to say".to_string()),
        default_value: Some("hi".to_string()),
        arg_type: ArgumentType::String,
        required: true,
        options: None,
    }];
    let manager = store(vec![w]);
    let stored = manager.get_workflow("greet").unwrap();
    assert_eq!(stored.arguments.len(), 1);
    assert_eq!(stored.arguments[0].description.as_deref(), Some("what to say"));
    assert_eq!(stored.arguments[0].default_value.as_deref(), Some("hi"));
    assert!(stored.arguments[0].required);
}

#[test]
fn load_usage_stats_refreshes_the_stored_workflows() {
    let mut counted = flow("b", "pwd", &[]);
    counted.usage_count = 9;
    counted.last_used = Some(at(9));
    let mut manager = store(vec![flow("a", "ls", &[]), counted, flow("c", "id", &[])]);
    manager.record_usage("c", at(1), None);
    manager.load_usage_stats(&vec![
        ("a".to_string(), WorkflowUsageStats {
            usage_count: 4,
            last_used: at(40),
            average_execution_time: None,
        }),
        ("ghost".to_string(), WorkflowUsageStats {
            usage_count: 1,
            last_used: at(1),
            average_execution_time: None,
        }),
    ]);
    let a = manager.get_workflow("a").unwrap();
    assert_eq!((a.usage_count, a.last_used), (4, Some(at(40))));
    // a workflow without statistics counts as never used
    let b = manager.get_workflow("b").unwrap();
    assert_eq!((b.usage_count, b.last_used), (0, None));
    let c = manager.get_workflow("c").unwrap();
    assert_eq!((c.usage_count, c.last_used), (0, None));
    assert_eq!(manager.len(), 3);
    assert_eq!(names(&manager.get_popular_workflows(3, None)), vec!["a", "b", "c"]);
}
