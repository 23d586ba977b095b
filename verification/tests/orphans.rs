use peleka::deploy::orphans::{cleanup_orphans, detect_orphans};
use peleka::deploy::{CleanupFailure, CleanupResult};
use peleka::runtime::{ContainerError, ContainerSummary};
use peleka::strmap::StrMap;
use peleka::types::ContainerId;

fn summary(id: &str, state: &str) -> ContainerSummary {
    ContainerSummary {
        id: ContainerId::new(id.to_string()),
        name: format!("{}-name", id),
        image: "nginx:latest".to_string(),
        state: state.to_string(),
        status: String::new(),
        labels: StrMap::new(),
    }
}

#[test]
fn cleanup_result_all_succeeded_when_no_failures() {
    let result = CleanupResult {
        succeeded: vec![ContainerId::new("abc123".to_string())],
        failed: vec![],
    };
    assert!(result.all_succeeded());
    assert_eq!(result.total(), 1);
}

#[test]
fn cleanup_result_not_all_succeeded_when_failures() {
    let result = CleanupResult {
        succeeded: vec![ContainerId::new("abc123".to_string())],
        failed: vec![CleanupFailure {
            container_id: ContainerId::new("def456".to_string()),
            error: ContainerError::NotFound("def456".to_string()),
        }],
    };
    assert!(!result.all_succeeded());
    assert_eq!(result.total(), 2);
}

#[test]
fn cleanup_result_empty() {
    let result = CleanupResult {
        succeeded: vec![],
        failed: vec![],
    };
    assert!(result.all_succeeded());
    assert_eq!(result.total(), 0);
}

#[test]
fn orphans_are_the_unknown_containers_in_order() {
    let listed = vec![summary("a", "running"), summary("b", "exited"), summary("c", "running")];
    let known = vec![ContainerId::new("b".to_string())];
    let orphans = detect_orphans(listed, &known);
    let ids: Vec<&str> = orphans.iter().map(|c| c.id.as_str()).collect();
    assert_eq!(ids, vec!["a", "c"]);
}

#[test]
fn no_orphans_when_all_known() {
    let listed = vec![summary("a", "running")];
    let known = vec![ContainerId::new("a".to_string()), ContainerId::new("z".to_string())];
    assert!(detect_orphans(listed, &known).is_empty());
}

#[test]
fn cleanup_partitions_every_container() {
    let orphans = vec![
        ContainerId::new("a".to_string()),
        ContainerId::new("b".to_string()),
        ContainerId::new("c".to_string()),
    ];
    let removals = vec![
        Ok(()),
        Err(ContainerError::Runtime("busy".to_string())),
        Ok(()),
    ];
    let result = cleanup_orphans(&orphans, removals);
    assert_eq!(result.total(), 3);
    assert!(!result.all_succeeded());
    let ok: Vec<&str> = result.succeeded.iter().map(|c| c.as_str()).collect();
    assert_eq!(ok, vec!["a", "c"]);
    assert_eq!(result.failed.len(), 1);
    assert_eq!(result.failed[0].container_id.as_str(), "b");
    assert_eq!(result.failed[0].error.to_string(), "runtime error: busy");
}
