use slight::capability::CapabilityKind;
use slight::config::RunConfig;
use slight::errors::SlightError;
use slight::orchestrator::entry_point;
use slight::orchestrator::Orchestrator;
use slight::orchestrator::Phase;
use slight::orchestrator::RunAction;
use slight::orchestrator::RunEvent;
use slight::table::Environment;

/// A stand-in execution engine: it issues environment handles and can invoke
/// an export on any instantiation it issued.
struct StubEngine {
    next_id: u64,
    instances: Vec<u64>,
}

impl StubEngine {
    fn new() -> StubEngine {
        StubEngine {
            next_id: 1,
            instances: Vec::new(),
        }
    }

    fn build(&mut self) -> Environment {
        let env = Environment {
            engine_id: self.next_id,
            instance_id: self.next_id + 1,
        };
        self.next_id += 2;
        self.instances.push(env.instance_id);
        env
    }

    fn invoke(&self, env: Environment, export: &str) -> bool {
        !export.is_empty() && self.instances.contains(&env.instance_id)
    }
}

fn config(capabilities: &[&str], secret_store: Option<&str>) -> RunConfig {
    RunConfig {
        spec_version: "0.1".to_string(),
        capabilities: capabilities.iter().map(|c| c.to_string()).collect(),
        secret_store: secret_store.map(|s| s.to_string()),
        config_path: "slightfile.toml".to_string(),
    }
}

#[test]
fn events_run_completes_without_awaiting_shutdown() {
    let mut engine = StubEngine::new();
    let mut orchestrator = Orchestrator::new(config(&["events"], None));

    match orchestrator.step(RunEvent::Start) {
        RunAction::BuildPrimary(plan) => assert_eq!(plan.items.len(), 1),
        _ => panic!("expected the primary build"),
    }
    let primary = engine.build();
    match orchestrator.step(RunEvent::PrimaryReady(primary)) {
        RunAction::BuildSecondary(_, kind) => assert_eq!(kind, CapabilityKind::Events),
        _ => panic!("expected the secondary build for events"),
    }
    let secondary = engine.build();
    match orchestrator.step(RunEvent::SecondaryReady(secondary)) {
        RunAction::InvokeEntryPoint(env) => {
            assert_eq!(env, primary);
            assert!(engine.invoke(env, entry_point()));
        }
        _ => panic!("expected the entry-point invocation"),
    }
    match orchestrator.step(RunEvent::EntryPointReturned) {
        RunAction::FinishOk => {}
        _ => panic!("an events-only run must complete without a shutdown wait"),
    }
    assert_eq!(orchestrator.phase, Phase::Closed);

    let resource = orchestrator.table.get(CapabilityKind::Events).unwrap();
    assert_eq!(resource.secondary, Some(secondary));
}

#[test]
fn http_run_serves_until_the_shutdown_signal() {
    let mut engine = StubEngine::new();
    let mut orchestrator = Orchestrator::new(config(&["http"], None));

    match orchestrator.step(RunEvent::Start) {
        RunAction::BuildPrimary(_) => {}
        _ => panic!("expected the primary build"),
    }
    let primary = engine.build();
    match orchestrator.step(RunEvent::PrimaryReady(primary)) {
        RunAction::BuildSecondary(_, kind) => assert_eq!(kind, CapabilityKind::Http),
        _ => panic!("expected the secondary build for http"),
    }
    let secondary = engine.build();
    match orchestrator.step(RunEvent::SecondaryReady(secondary)) {
        RunAction::InvokeEntryPoint(env) => assert!(engine.invoke(env, entry_point())),
        _ => panic!("expected the entry-point invocation"),
    }

    // The adopted handle is usable before and while the entry point runs.
    let resource = orchestrator.table.get(CapabilityKind::Http).unwrap();
    assert_eq!(resource.secondary, Some(secondary));
    assert!(engine.invoke(secondary, "handle-http"));

    match orchestrator.step(RunEvent::EntryPointReturned) {
        RunAction::AwaitShutdown => {}
        _ => panic!("an http run must block awaiting the shutdown signal"),
    }
    assert_eq!(orchestrator.phase, Phase::ServingAsync);

    match orchestrator.step(RunEvent::ShutdownSignal) {
        RunAction::FinishOk => {}
        _ => panic!("shutdown must complete the run"),
    }
    assert_eq!(orchestrator.phase, Phase::Closed);

    // Closing released the adopted instantiation.
    let resource = orchestrator.table.get(CapabilityKind::Http).unwrap();
    assert_eq!(resource.secondary, None);
}

#[test]
fn kv_without_descriptor_fails_with_the_backend_diagnostic() {
    let mut orchestrator = Orchestrator::new(config(&["kv.filesystem"], None));
    match orchestrator.step(RunEvent::Start) {
        RunAction::FinishErr(err) => {
            assert_eq!(err, SlightError::MissingSecretStore(CapabilityKind::Kv));
            let message = err.message();
            assert!(message.contains("AZURE_STORAGE_ACCOUNT"));
            assert!(message.contains("AZURE_STORAGE_KEY"));
        }
        _ => panic!("the run must fail during resolution"),
    }
    assert_eq!(orchestrator.phase, Phase::Failed);
    assert!(!orchestrator.table.contains(CapabilityKind::Kv));
}

#[test]
fn events_and_http_are_adopted_in_order_and_both_survive() {
    let mut engine = StubEngine::new();
    let mut orchestrator = Orchestrator::new(config(&["events", "http"], None));

    match orchestrator.step(RunEvent::Start) {
        RunAction::BuildPrimary(plan) => assert_eq!(plan.items.len(), 2),
        _ => panic!("expected the primary build"),
    }
    let primary = engine.build();
    match orchestrator.step(RunEvent::PrimaryReady(primary)) {
        RunAction::BuildSecondary(_, kind) => assert_eq!(kind, CapabilityKind::Events),
        _ => panic!("events must be adopted first"),
    }
    let events_env = engine.build();
    match orchestrator.step(RunEvent::SecondaryReady(events_env)) {
        RunAction::BuildSecondary(_, kind) => assert_eq!(kind, CapabilityKind::Http),
        _ => panic!("http must be adopted second"),
    }
    let http_env = engine.build();
    match orchestrator.step(RunEvent::SecondaryReady(http_env)) {
        RunAction::InvokeEntryPoint(env) => assert_eq!(env, primary),
        _ => panic!("expected the entry-point invocation"),
    }

    // Adoption must complete before the entry point starts, and the earlier
    // adoption survives the later one.
    let events_resource = orchestrator.table.get(CapabilityKind::Events).unwrap();
    assert_eq!(events_resource.secondary, Some(events_env));
    let http_resource = orchestrator.table.get(CapabilityKind::Http).unwrap();
    assert_eq!(http_resource.secondary, Some(http_env));
    assert!(engine.invoke(events_env, "handle-event"));
    assert!(engine.invoke(http_env, "handle-http"));
}

#[test]
fn unsupported_spec_version_fails_the_run_at_start() {
    let mut orchestrator = Orchestrator::new(RunConfig {
        spec_version: "0.2".to_string(),
        capabilities: vec!["events".to_string()],
        secret_store: None,
        config_path: "slightfile.toml".to_string(),
    });
    match orchestrator.step(RunEvent::Start) {
        RunAction::FinishErr(err) => assert_eq!(err, SlightError::UnsupportedSpecVersion),
        _ => panic!("the run must fail during resolution"),
    }
    assert_eq!(orchestrator.phase, Phase::Failed);
    assert!(!orchestrator.table.contains(CapabilityKind::Events));
}

#[test]
fn an_engine_build_failure_is_surfaced_as_is() {
    let mut orchestrator = Orchestrator::new(config(&["events"], None));
    match orchestrator.step(RunEvent::Start) {
        RunAction::BuildPrimary(_) => {}
        _ => panic!("expected the primary build"),
    }
    match orchestrator.step(RunEvent::BuildFailed("no such module".to_string())) {
        RunAction::FinishErr(err) => {
            assert_eq!(err, SlightError::Execution("no such module".to_string()));
            assert_eq!(err.message(), "no such module");
        }
        _ => panic!("a build failure must end the run"),
    }
    assert_eq!(orchestrator.phase, Phase::Failed);
}

#[test]
fn an_entry_point_trap_is_the_runs_failure() {
    let mut engine = StubEngine::new();
    let mut orchestrator = Orchestrator::new(config(&[], None));
    match orchestrator.step(RunEvent::Start) {
        RunAction::BuildPrimary(plan) => assert_eq!(plan.items.len(), 0),
        _ => panic!("expected the primary build"),
    }
    let primary = engine.build();
    match orchestrator.step(RunEvent::PrimaryReady(primary)) {
        RunAction::InvokeEntryPoint(env) => assert_eq!(env, primary),
        _ => panic!("with no async capability the entry point runs at once"),
    }
    match orchestrator.step(RunEvent::EntryPointTrapped("guest trapped".to_string())) {
        RunAction::FinishErr(err) => {
            assert_eq!(err, SlightError::Execution("guest trapped".to_string()))
        }
        _ => panic!("a trap must end the run"),
    }
    assert_eq!(orchestrator.phase, Phase::Failed);
}

#[test]
fn an_event_that_does_not_apply_changes_nothing() {
    let mut orchestrator = Orchestrator::new(config(&["events"], None));
    match orchestrator.step(RunEvent::EntryPointReturned) {
        RunAction::Nothing => {}
        _ => panic!("an inapplicable event must be ignored"),
    }
    assert_eq!(orchestrator.phase, Phase::Configured);
    match orchestrator.step(RunEvent::ShutdownSignal) {
        RunAction::Nothing => {}
        _ => panic!("an inapplicable event must be ignored"),
    }
    assert_eq!(orchestrator.phase, Phase::Configured);
}

#[test]
fn the_entry_point_export_is_start() {
    assert_eq!(entry_point(), "_start");
}
