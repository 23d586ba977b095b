use peleka::config::{CleanupConfig, Config, EnvValue, StopConfig};
use peleka::deploy::{
    ends_sequence, orphan_cleanup_actions, plan_rollback, ActionStep, DeployRun, Deployment,
    PullOutcome, RunAction, RunEvent, RuntimeAction,
};
use peleka::error::Error;
use peleka::hooks::HookPoint;
use peleka::runtime::{ContainerSummary, NetworkError};
use peleka::strmap::StrMap;
use peleka::types::{ContainerId, NetworkId, ServiceName};
use std::time::Duration;

fn cid(s: &str) -> ContainerId {
    ContainerId::new(s.to_string())
}

fn describe(steps: &[ActionStep]) -> Vec<String> {
    steps
        .iter()
        .map(|s| {
            let a = match &s.action {
                RuntimeAction::Wait(d) => format!("wait {}", d.as_secs()),
                RuntimeAction::Start { container } => format!("start {}", container.as_str()),
                RuntimeAction::Stop { container, timeout } => format!("stop {} {}", container.as_str(), timeout.as_secs()),
                RuntimeAction::Remove { container, force } => format!("remove {} {}", container.as_str(), force),
                RuntimeAction::Connect { container, network, aliases } => format!(
                    "connect {} {} {}",
                    container.as_str(),
                    network.as_str(),
                    aliases.iter().map(|a| a.as_str().to_string()).collect::<Vec<_>>().join(",")
                ),
                RuntimeAction::Disconnect { container, network } => {
                    format!("disconnect {} {}", container.as_str(), network.as_str())
                }
            };
            format!("{} {}", a, if s.must_succeed { "must" } else { "may" })
        })
        .collect()
}

#[test]
fn failed_start_removes_the_new_container() {
    let d = Deployment::new(Config::template()).pull_image(Some(PullOutcome::Pulled)).unwrap();
    assert_eq!(describe(&d.failed_start_actions(&cid("c1"))), vec!["remove c1 true may"]);
}

#[test]
fn rollback_stops_then_removes_the_new_container() {
    let mut config = Config::template();
    config.stop = Some(StopConfig { timeout: Duration::from_secs(7), signal: "SIGTERM".to_string() });
    let d = Deployment::new(config).pull_image(Some(PullOutcome::Pulled)).unwrap();
    let d = d.start_container(Ok(cid("n")), Some(Ok(()))).unwrap();
    assert_eq!(describe(&d.rollback_actions()), vec!["stop n 7 may", "remove n true must"]);
    let h = d.healthy();
    assert_eq!(describe(&h.rollback_actions()), vec!["stop n 7 may", "remove n true must"]);
}

#[test]
fn cutover_disconnects_old_then_connects_new() {
    let d = Deployment::new_update(Config::template(), cid("old")).pull_image(Some(PullOutcome::Pulled)).unwrap();
    let d = d.start_container(Ok(cid("new")), Some(Ok(()))).unwrap().healthy();
    let net = NetworkId::new("peleka".to_string());
    assert_eq!(
        describe(&d.cutover_actions(&net)),
        vec!["disconnect old peleka may", "connect new peleka my-app must"]
    );
    let first = Deployment::new(Config::template()).pull_image(Some(PullOutcome::Pulled)).unwrap();
    let first = first.start_container(Ok(cid("new")), Some(Ok(()))).unwrap().healthy();
    assert_eq!(describe(&first.cutover_actions(&net)), vec!["connect new peleka my-app must"]);
}

#[test]
fn cleanup_waits_then_stops_old_container() {
    let d = Deployment::new_update(Config::template(), cid("old")).pull_image(Some(PullOutcome::Pulled)).unwrap();
    let d = d.start_container(Ok(cid("new")), Some(Ok(()))).unwrap().healthy().cutover(Ok(())).unwrap();
    assert_eq!(describe(&d.cleanup_actions()), vec!["wait 30 may", "stop old 30 must"]);

    let mut config = Config::template();
    config.cleanup = Some(CleanupConfig { grace_period: Duration::from_secs(0) });
    let d = Deployment::new_update(config, cid("old")).pull_image(Some(PullOutcome::Pulled)).unwrap();
    let d = d.start_container(Ok(cid("new")), Some(Ok(()))).unwrap().healthy().cutover(Ok(())).unwrap();
    assert_eq!(describe(&d.cleanup_actions()), vec!["stop old 30 must"]);

    let d = Deployment::new(Config::template()).pull_image(Some(PullOutcome::Pulled)).unwrap();
    let d = d.start_container(Ok(cid("new")), Some(Ok(()))).unwrap().healthy().cutover(Ok(())).unwrap();
    assert!(d.cleanup_actions().is_empty());
}

fn summary(id: &str, state: &str) -> ContainerSummary {
    ContainerSummary {
        id: cid(id),
        name: id.to_string(),
        image: "app:1".to_string(),
        state: state.to_string(),
        status: String::new(),
        labels: StrMap::new(),
    }
}

#[test]
fn manual_rollback_calls_in_order() {
    let service = ServiceName::new("app").unwrap();
    let plan = plan_rollback(&service, Ok(vec![summary("a", "running"), summary("p", "exited")])).unwrap();
    let net = NetworkId::new("peleka".to_string());
    assert_eq!(
        describe(&plan.actions(&net, Duration::from_secs(30))),
        vec!["start p must", "disconnect a peleka may", "connect p peleka app must", "stop a 30 must"]
    );
}

#[test]
fn orphans_are_stopped_then_removed() {
    let ids = vec![cid("o1"), cid("o2")];
    assert_eq!(
        describe(&orphan_cleanup_actions(&ids, true, Duration::from_secs(10))),
        vec!["stop o1 10 may", "remove o1 true may", "stop o2 10 may", "remove o2 true may"]
    );
    assert_eq!(
        describe(&orphan_cleanup_actions(&ids, false, Duration::from_secs(5))),
        vec!["stop o1 5 may", "remove o1 false may", "stop o2 5 may", "remove o2 false may"]
    );
}

#[test]
fn which_failures_end_a_sequence() {
    let net = NetworkId::new("n".to_string());
    let service = ServiceName::new("app").unwrap();
    let plan = plan_rollback(&service, Ok(vec![summary("a", "running"), summary("p", "exited")])).unwrap();
    let steps = plan.actions(&net, Duration::from_secs(1));
    assert!(!ends_sequence(&steps[0], None));
    assert!(ends_sequence(&steps[0], Some("boom")));
    assert!(!ends_sequence(&steps[1], Some("boom")));
    assert!(!ends_sequence(&steps[2], Some("container p is ALREADY CONNECTED to network n")));
    assert!(ends_sequence(&steps[2], Some(&NetworkError::NotFound("n".to_string()).to_string())));
}

#[test]
fn run_deploys_each_server_between_hooks() {
    let (mut run, a) = DeployRun::start(2);
    assert!(matches!(a, RunAction::RunHook { point: HookPoint::PreDeploy, server: 0 }));
    assert!(matches!(run.step(RunEvent::HookRan(None)), RunAction::RunHook { point: HookPoint::PreDeploy, server: 1 }));
    assert!(matches!(run.step(RunEvent::HookRan(Some(true))), RunAction::DeployTo(0)));
    assert!(matches!(run.step(RunEvent::Deployed(Ok(()))), RunAction::DeployTo(1)));
    assert!(matches!(run.step(RunEvent::Deployed(Ok(()))), RunAction::RunHook { point: HookPoint::PostDeploy, server: 0 }));
    assert!(matches!(run.step(RunEvent::HookRan(Some(false))), RunAction::RunHook { point: HookPoint::PostDeploy, server: 1 }));
    assert!(matches!(run.step(RunEvent::HookRan(None)), RunAction::Finish(Ok(()))));
}

#[test]
fn failed_pre_deploy_hook_stops_the_run() {
    let (mut run, _) = DeployRun::start(3);
    match run.step(RunEvent::HookRan(Some(false))) {
        RunAction::Finish(Err(e)) => assert_eq!(e.to_string(), "hook failed: pre-deploy hook failed"),
        _ => panic!("expected the run to end"),
    }
}

#[test]
fn failed_server_runs_on_error_hook_and_stops() {
    let (mut run, _) = DeployRun::start(2);
    run.step(RunEvent::HookRan(None));
    run.step(RunEvent::HookRan(None));
    let a = run.step(RunEvent::Deployed(Err(Error::NoServers)));
    assert!(matches!(a, RunAction::RunHook { point: HookPoint::OnError, server: 0 }));
    assert!(matches!(run.step(RunEvent::HookRan(Some(false))), RunAction::Finish(Err(Error::NoServers))));
}

#[test]
fn missing_variable_is_named_in_the_container_config_error() {
    let mut config = Config::template();
    config.env.insert("DB".to_string(), EnvValue::FromEnv { var: "DATABASE_URL".to_string(), default: None });
    let d = Deployment::new(config).pull_image(Some(PullOutcome::Pulled)).unwrap();
    let e = d.build_container_config(&StrMap::new()).unwrap_err();
    assert_eq!(e.to_string(), "configuration error: missing required environment variable: DATABASE_URL");
}
