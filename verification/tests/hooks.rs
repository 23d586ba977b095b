use peleka::hooks::{HookContext, HookPoint, HookResult, HookRunner};
use peleka::types::ServiceName;

#[test]
fn hook_point_filenames() {
    assert_eq!(HookPoint::PreDeploy.filename(), "pre-deploy");
    assert_eq!(HookPoint::PostDeploy.filename(), "post-deploy");
    assert_eq!(HookPoint::OnError.filename(), "on-error");
}

#[test]
fn pre_deploy_is_fatal() {
    assert!(HookPoint::PreDeploy.is_fatal());
    assert!(!HookPoint::PostDeploy.is_fatal());
    assert!(!HookPoint::OnError.is_fatal());
}

#[test]
fn hook_context_to_env() {
    let context = HookContext {
        service: ServiceName::new("myapp").unwrap(),
        image: "ghcr.io/org/myapp:v1.2.3".to_string(),
        server: "app.example.com".to_string(),
        runtime: "podman".to_string(),
        previous_version: Some("v1.2.2".to_string()),
    };

    let env = context.to_env();
    assert_eq!(env.get("PELEKA_SERVICE"), Some(&"myapp".to_string()));
    assert_eq!(
        env.get("PELEKA_IMAGE"),
        Some(&"ghcr.io/org/myapp:v1.2.3".to_string())
    );
    assert_eq!(
        env.get("PELEKA_SERVER"),
        Some(&"app.example.com".to_string())
    );
    assert_eq!(env.get("PELEKA_RUNTIME"), Some(&"podman".to_string()));
    assert_eq!(
        env.get("PELEKA_PREVIOUS_VERSION"),
        Some(&"v1.2.2".to_string())
    );
}

#[test]
fn hook_context_without_previous_version() {
    let context = HookContext {
        service: ServiceName::new("myapp").unwrap(),
        image: "myapp:latest".to_string(),
        server: "localhost".to_string(),
        runtime: "docker".to_string(),
        previous_version: None,
    };

    let env = context.to_env();
    assert!(!env.contains_key("PELEKA_PREVIOUS_VERSION"));
}

#[test]
fn hook_runner_checks_hooks_dir() {
    let runner = HookRunner::new("/nonexistent");
    assert!(!runner.hook_exists(HookPoint::PreDeploy));
}

#[test]
fn hook_env_has_exactly_the_context_variables() {
    let context = HookContext {
        service: ServiceName::new("web").unwrap(),
        image: "web:1".to_string(),
        server: "h".to_string(),
        runtime: "docker".to_string(),
        previous_version: None,
    };
    assert_eq!(context.to_env().len(), 4);
}

#[test]
fn hook_paths_sit_under_the_project_hooks_directory() {
    let runner = HookRunner::new("/srv/app");
    assert_eq!(runner.hook_path(HookPoint::OnError), "/srv/app/.peleka/hooks/on-error");
    let runner = HookRunner::new("/srv/app/");
    assert_eq!(runner.hook_path(HookPoint::PreDeploy), "/srv/app/.peleka/hooks/pre-deploy");
    let runner = HookRunner::new("");
    assert_eq!(runner.hook_path(HookPoint::PostDeploy), ".peleka/hooks/post-deploy");
}

#[test]
fn hook_that_could_not_start_failed() {
    let r = HookResult::not_started("permission denied".to_string());
    assert!(!r.success);
    assert_eq!(r.exit_code, None);
    assert_eq!(r.stdout, "");
    assert_eq!(r.stderr, "permission denied");
}
