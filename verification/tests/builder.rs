use slight::builder::build_environment;
use slight::builder::resolve_config;
use slight::capability::CapabilityKind;
use slight::config::RunConfig;
use slight::errors::SlightError;
use slight::table::ResourceTable;

fn config(
    version: &str,
    capabilities: &[&str],
    secret_store: Option<&str>,
) -> RunConfig {
    RunConfig {
        spec_version: version.to_string(),
        capabilities: capabilities.iter().map(|c| c.to_string()).collect(),
        secret_store: secret_store.map(|s| s.to_string()),
        config_path: "slightfile.toml".to_string(),
    }
}

fn assert_empty(table: &ResourceTable) {
    for kind in [
        CapabilityKind::Events,
        CapabilityKind::Kv,
        CapabilityKind::Mq,
        CapabilityKind::Lockd,
        CapabilityKind::Pubsub,
        CapabilityKind::Configs,
        CapabilityKind::Http,
    ] {
        assert!(!table.contains(kind));
    }
}

#[test]
fn each_accepted_declaration_gets_one_canonical_entry() {
    let cfg = config(
        "0.1",
        &["events", "kv.filesystem", "configs.envvars", "http"],
        Some("configs.envvars"),
    );
    let mut table = ResourceTable::new();
    let plan = build_environment(&cfg, &mut table).unwrap();
    assert_eq!(plan.items.len(), 4);
    for (kind, implementor) in [
        (CapabilityKind::Events, "events"),
        (CapabilityKind::Kv, "kv.filesystem"),
        (CapabilityKind::Configs, "configs.envvars"),
        (CapabilityKind::Http, "http"),
    ] {
        let resource = table.get(kind).unwrap();
        assert_eq!(resource.kind, kind);
        assert_eq!(resource.implementor, implementor);
        assert_eq!(resource.secondary, None);
    }
    assert!(!table.contains(CapabilityKind::Mq));
    assert!(!table.contains(CapabilityKind::Lockd));
    assert!(!table.contains(CapabilityKind::Pubsub));
}

#[test]
fn plan_items_carry_the_dependency_bundles() {
    let cfg = config(
        "0.1",
        &["events", "kv.azblob", "configs.usersecrets"],
        Some("configs.usersecrets"),
    );
    let plan = resolve_config(&cfg).unwrap();
    assert_eq!(plan.items[0].kind, CapabilityKind::Events);
    assert!(plan.items[0].state.is_none());
    let kv_state = plan.items[1].state.as_ref().unwrap();
    assert_eq!(kv_state.secret_store.as_deref(), Some("configs.usersecrets"));
    assert_eq!(kv_state.config_path, "slightfile.toml");
    let configs_state = plan.items[2].state.as_ref().unwrap();
    assert_eq!(configs_state.secret_store, None);
    assert_eq!(configs_state.config_path, "slightfile.toml");
}

#[test]
fn missing_descriptor_fails_before_any_entry_is_inserted() {
    let cfg = config("0.1", &["events", "kv.filesystem"], None);
    let mut table = ResourceTable::new();
    let err = build_environment(&cfg, &mut table).unwrap_err();
    assert_eq!(err, SlightError::MissingSecretStore(CapabilityKind::Kv));
    assert_empty(&table);
}

#[test]
fn unsupported_spec_version_fails_before_inspecting_declarations() {
    let cfg = config("0.2", &["not-even-a-capability"], None);
    let mut table = ResourceTable::new();
    let err = build_environment(&cfg, &mut table).unwrap_err();
    assert_eq!(err, SlightError::UnsupportedSpecVersion);
    assert_eq!(err.message(), "unsupported toml spec version");
    assert_empty(&table);
}

#[test]
fn unrecognized_name_fails_the_whole_build_eagerly() {
    let cfg = config("0.1", &["events", "bogus", "http"], None);
    let mut table = ResourceTable::new();
    let err = build_environment(&cfg, &mut table).unwrap_err();
    assert_eq!(err, SlightError::UnknownCapability);
    assert_empty(&table);
}

#[test]
fn first_failure_wins_in_declaration_order() {
    let cfg = config("0.1", &["mq.azsbus", "bogus"], None);
    let mut table = ResourceTable::new();
    let err = build_environment(&cfg, &mut table).unwrap_err();
    assert_eq!(err, SlightError::MissingSecretStore(CapabilityKind::Mq));
    assert_empty(&table);
}

#[test]
fn two_implementors_of_one_kind_share_one_entry_and_the_later_wins() {
    let cfg = config(
        "0.1",
        &["kv.filesystem", "kv.azblob"],
        Some("configs.envvars"),
    );
    let mut table = ResourceTable::new();
    build_environment(&cfg, &mut table).unwrap();
    let resource = table.get(CapabilityKind::Kv).unwrap();
    assert_eq!(resource.kind, CapabilityKind::Kv);
    assert_eq!(resource.implementor, "kv.azblob");
}

#[test]
fn an_empty_declaration_list_builds_an_empty_plan() {
    let cfg = config("0.1", &[], None);
    let mut table = ResourceTable::new();
    let plan = build_environment(&cfg, &mut table).unwrap();
    assert_eq!(plan.items.len(), 0);
    assert_empty(&table);
}
