use slight::capability::CapabilityKind;
use slight::errors::SlightError;
use slight::table::BasicState;
use slight::table::Environment;
use slight::table::Resource;
use slight::table::ResourceTable;

fn kv_resource(implementor: &str) -> Resource {
    Resource {
        kind: CapabilityKind::Kv,
        implementor: implementor.to_string(),
        state: Some(BasicState {
            secret_store: Some("configs.envvars".to_string()),
            config_path: "slightfile.toml".to_string(),
        }),
        secondary: None,
    }
}

fn http_resource() -> Resource {
    Resource {
        kind: CapabilityKind::Http,
        implementor: "http".to_string(),
        state: None,
        secondary: None,
    }
}

#[test]
fn empty_table_has_no_entries() {
    let table = ResourceTable::new();
    assert!(!table.contains(CapabilityKind::Events));
    assert!(!table.contains(CapabilityKind::Kv));
    assert!(!table.contains(CapabilityKind::Http));
    assert_eq!(
        table.get(CapabilityKind::Kv),
        Err(SlightError::MissingResource(CapabilityKind::Kv))
    );
}

#[test]
fn insert_then_get_finds_the_entry() {
    let mut table = ResourceTable::new();
    table.insert(kv_resource("kv.filesystem"));
    assert!(table.contains(CapabilityKind::Kv));
    let found = table.get(CapabilityKind::Kv).unwrap();
    assert_eq!(found.kind, CapabilityKind::Kv);
    assert_eq!(found.implementor, "kv.filesystem");
    assert_eq!(found.secondary, None);
    assert!(!table.contains(CapabilityKind::Mq));
}

#[test]
fn linking_the_same_key_overwrites() {
    let mut table = ResourceTable::new();
    table.link(kv_resource("kv.filesystem"));
    table.link(kv_resource("kv.azblob"));
    let found = table.get(CapabilityKind::Kv).unwrap();
    assert_eq!(found.implementor, "kv.azblob");
}

#[test]
fn adopt_updates_the_entry_in_place() {
    let mut table = ResourceTable::new();
    table.insert(http_resource());
    let env = Environment {
        engine_id: 7,
        instance_id: 8,
    };
    assert_eq!(table.adopt_secondary(CapabilityKind::Http, env), Ok(()));
    let found = table.get(CapabilityKind::Http).unwrap();
    assert_eq!(found.secondary, Some(env));
    assert_eq!(found.implementor, "http");
}

#[test]
fn adopt_on_an_absent_key_is_an_internal_error() {
    let mut table = ResourceTable::new();
    let env = Environment {
        engine_id: 1,
        instance_id: 2,
    };
    assert_eq!(
        table.adopt_secondary(CapabilityKind::Events, env),
        Err(SlightError::MissingResource(CapabilityKind::Events))
    );
    assert!(!table.contains(CapabilityKind::Events));
}

#[test]
fn close_releases_the_adopted_instantiation() {
    let mut table = ResourceTable::new();
    table.insert(http_resource());
    let env = Environment {
        engine_id: 3,
        instance_id: 4,
    };
    assert_eq!(table.adopt_secondary(CapabilityKind::Http, env), Ok(()));
    assert_eq!(table.close(CapabilityKind::Http), Ok(()));
    let found = table.get(CapabilityKind::Http).unwrap();
    assert_eq!(found.secondary, None);
    assert!(table.contains(CapabilityKind::Http));
}

#[test]
fn distinct_kinds_occupy_distinct_slots() {
    let mut table = ResourceTable::new();
    table.insert(kv_resource("kv.awsdynamodb"));
    table.insert(http_resource());
    assert_eq!(
        table.get(CapabilityKind::Kv).unwrap().implementor,
        "kv.awsdynamodb"
    );
    assert_eq!(table.get(CapabilityKind::Http).unwrap().implementor, "http");
    assert_eq!(
        table.get(CapabilityKind::Pubsub),
        Err(SlightError::MissingResource(CapabilityKind::Pubsub))
    );
}
