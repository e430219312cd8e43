//! The dataset registry: identifier generation, lookup, listing, and the
//! shared-state discipline under concurrent loads.

use std::sync::{Arc, Mutex};

use friedman::error::FriedmanError;
use friedman::registry::{AppState, DatasetInfo, DatasetRegistry};

fn entry(id: &str, name: &str) -> DatasetInfo {
    DatasetInfo {
        id: id.to_string(),
        name: name.to_string(),
        path: format!("/data/{name}"),
        columns: vec!["date".to_string(), "gdp".to_string()],
        row_count: 120,
    }
}

#[test]
fn register_two_then_list_and_get() {
    let mut reg = DatasetRegistry::new();
    let id1 = reg.register(
        "macro.csv".to_string(),
        "/data/macro.csv".to_string(),
        vec!["date".to_string(), "gdp".to_string()],
        120,
    );
    let id2 = reg.register(
        "rates.csv".to_string(),
        "/data/rates.csv".to_string(),
        vec!["date".to_string(), "r".to_string()],
        60,
    );
    assert_eq!(id1.len(), 36);
    assert_eq!(id2.len(), 36);
    assert_ne!(id1, id2);
    assert_eq!(reg.len(), 2);
    assert_eq!(reg.list().len(), 2);
    let a = reg.get(&id1).expect("first dataset is stored");
    assert_eq!(a.name, "macro.csv");
    assert_eq!(a.row_count, 120);
    let b = reg.get(&id2).expect("second dataset is stored");
    assert_eq!(b.name, "rates.csv");
    assert_eq!(b.columns, vec!["date".to_string(), "r".to_string()]);
}

#[test]
fn lookup_unknown_id_is_a_parameter_error() {
    let reg = DatasetRegistry::new();
    match reg.lookup(&"missing".to_string()) {
        Err(FriedmanError::InvalidParams(m)) => {
            assert_eq!(m, "Dataset not found: missing");
        },
        _ => panic!("expected a parameter error"),
    }
}

#[test]
fn lookup_known_id_copies_the_entry() {
    let mut reg = DatasetRegistry::new();
    reg.insert(entry("fixed-id", "macro.csv"));
    let info = reg.lookup(&"fixed-id".to_string()).expect("stored entry is found");
    assert_eq!(info.id, "fixed-id");
    assert_eq!(info.name, "macro.csv");
    assert_eq!(info.path, "/data/macro.csv");
    assert_eq!(info.columns, vec!["date".to_string(), "gdp".to_string()]);
}

#[test]
fn insert_same_id_replaces_in_place() {
    let mut reg = DatasetRegistry::new();
    reg.insert(entry("one", "first.csv"));
    reg.insert(entry("two", "second.csv"));
    reg.insert(entry("one", "renamed.csv"));
    assert_eq!(reg.len(), 2);
    assert_eq!(reg.get(&"one".to_string()).unwrap().name, "renamed.csv");
    assert_eq!(reg.list()[0].id, "one");
    assert_eq!(reg.list()[1].id, "two");
}

#[test]
fn clone_copies_every_field() {
    let a = entry("one", "macro.csv");
    let b = a.clone();
    assert_eq!(b.id, a.id);
    assert_eq!(b.name, a.name);
    assert_eq!(b.path, a.path);
    assert_eq!(b.columns, a.columns);
    assert_eq!(b.row_count, a.row_count);
}

#[test]
fn concurrent_loads_yield_distinct_entries() {
    let rt = tokio::runtime::Runtime::new().unwrap();
    let state = Arc::new(Mutex::new(AppState::default()));
    let s1 = Arc::clone(&state);
    let h1 = rt.spawn(async move {
        s1.lock().unwrap().datasets.register(
            "macro.csv".to_string(),
            "/data/macro.csv".to_string(),
            vec!["date".to_string()],
            120,
        )
    });
    let s2 = Arc::clone(&state);
    let h2 = rt.spawn(async move {
        s2.lock().unwrap().datasets.register(
            "rates.csv".to_string(),
            "/data/rates.csv".to_string(),
            vec!["date".to_string()],
            60,
        )
    });
    let id1 = rt.block_on(h1).unwrap();
    let id2 = rt.block_on(h2).unwrap();
    assert_ne!(id1, id2);
    let guard = state.lock().unwrap();
    assert_eq!(guard.datasets.len(), 2);
    assert!(guard.datasets.get(&id1).is_some());
    assert!(guard.datasets.get(&id2).is_some());
    assert!(guard.datasets.get(&"unknown".to_string()).is_none());
}
