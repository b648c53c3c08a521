use goat_dashboard::domain::{Breed, Gender, GoatParams};
use goat_dashboard::errors::AppError;
use goat_dashboard::store::{FetchOutcome, GoatStore, RequestOutcome};

fn goat(name: &str) -> GoatParams {
    GoatParams {
        name: name.to_string(),
        breed: Breed::Beetal,
        gender: Gender::Male,
        offspring: 1,
        cost: (100.0f64).to_bits(),
        weight: (50.0f64).to_bits(),
        current_price: (120.0f64).to_bits(),
        diet: "Hay".to_string(),
        last_bred: None,
        health_status: "Healthy".to_string(),
        vaccinations: vec![],
        diseases: vec![],
    }
}

#[test]
fn fetch_of_empty_collection_clears_store() {
    let mut store = GoatStore::default();
    store.begin_request();
    assert!(store.loading);
    assert!(store.error.is_none());
    store.finish_fetch(FetchOutcome::Received(vec![]));
    assert!(store.goats.is_empty());
    assert!(!store.loading);
    assert!(store.error.is_none());
}

#[test]
fn fetch_replaces_collection_wholesale() {
    let mut store = GoatStore::default();
    store.goats = vec![goat("Old")];
    store.begin_request();
    store.finish_fetch(FetchOutcome::Received(vec![goat("Daisy"), goat("Billy")]));
    assert_eq!(store.goats, vec![goat("Daisy"), goat("Billy")]);
    assert!(!store.loading);
    assert!(store.error.is_none());
}

#[test]
fn failed_fetch_keeps_stale_collection_and_records_error() {
    let mut store = GoatStore::default();
    store.goats = vec![goat("Daisy")];
    store.begin_request();
    store.finish_fetch(FetchOutcome::Unreachable("connection refused".to_string()));
    assert_eq!(store.goats, vec![goat("Daisy")]);
    assert!(!store.loading);
    assert_eq!(store.error.as_deref(), Some("HTTP request failed: connection refused"));
}

#[test]
fn undecodable_fetch_body_records_parse_error() {
    let mut store = GoatStore::default();
    store.goats = vec![goat("Daisy")];
    store.begin_request();
    store.finish_fetch(FetchOutcome::Undecodable("expected a list".to_string()));
    assert_eq!(store.goats, vec![goat("Daisy")]);
    assert!(!store.loading);
    assert_eq!(store.error.as_deref(), Some("Failed to parse goats JSON: expected a list"));
}

#[test]
fn acknowledged_create_appends_the_submitted_record() {
    let mut store = GoatStore::default();
    store.begin_request();
    let daisy = goat("Daisy");
    store.finish_add(daisy.clone(), RequestOutcome::Accepted);
    assert_eq!(store.goats, vec![daisy]);
    assert!(!store.loading);
    assert!(store.error.is_none());
}

#[test]
fn rejected_create_leaves_collection_and_records_status() {
    let mut store = GoatStore::default();
    store.begin_request();
    store.finish_add(goat("Daisy"), RequestOutcome::Rejected(500));
    assert!(store.goats.is_empty());
    assert!(!store.loading);
    assert_eq!(store.error.as_deref(), Some("Server error: HTTP 500"));
}

#[test]
fn failed_create_records_transport_error() {
    let mut store = GoatStore::default();
    store.begin_request();
    store.finish_add(goat("Daisy"), RequestOutcome::Failed("timeout".to_string()));
    assert!(store.goats.is_empty());
    assert!(!store.loading);
    assert_eq!(store.error.as_deref(), Some("Network error: timeout"));
}

#[test]
fn acknowledged_delete_removes_every_record_with_the_name() {
    let mut store = GoatStore::default();
    store.goats = vec![goat("Daisy"), goat("Billy"), goat("Daisy")];
    let result = store.settle_delete("Daisy".to_string(), RequestOutcome::Accepted);
    assert!(result.is_ok());
    assert_eq!(store.goats, vec![goat("Billy")]);
    assert!(!store.loading);
    assert!(store.error.is_none());
}

#[test]
fn delete_matching_is_case_sensitive() {
    let mut store = GoatStore::default();
    store.goats = vec![goat("Daisy"), goat("daisy")];
    let result = store.settle_delete("Daisy".to_string(), RequestOutcome::Accepted);
    assert!(result.is_ok());
    assert_eq!(store.goats, vec![goat("daisy")]);
}

#[test]
fn acknowledged_delete_of_absent_name_changes_nothing() {
    let mut store = GoatStore::default();
    store.goats = vec![goat("Daisy")];
    let result = store.settle_delete("Ghost".to_string(), RequestOutcome::Accepted);
    assert!(result.is_ok());
    assert_eq!(store.goats, vec![goat("Daisy")]);
}

#[test]
fn rejected_delete_reports_and_changes_nothing() {
    let mut store = GoatStore::default();
    store.goats = vec![goat("Daisy")];
    let result = store.settle_delete("Daisy".to_string(), RequestOutcome::Rejected(500));
    match result {
        Err(AppError::Unexpected(msg)) => {
            assert_eq!(msg, "Server error 500 for deleting 'Daisy'");
        },
        other => panic!("expected an unexpected-status error, got {other:?}"),
    }
    assert_eq!(store.goats, vec![goat("Daisy")]);
}

#[test]
fn failed_delete_reports_and_changes_nothing() {
    let mut store = GoatStore::default();
    store.goats = vec![goat("Daisy")];
    let result = store.settle_delete("Daisy".to_string(), RequestOutcome::Failed(
        "connection reset".to_string(),
    ));
    match result {
        Err(AppError::NetworkError(msg)) => {
            assert_eq!(msg, "Network error: connection reset while deleting 'Daisy'");
        },
        other => panic!("expected a network error, got {other:?}"),
    }
    assert_eq!(store.goats, vec![goat("Daisy")]);
}

#[test]
fn concurrent_deletes_commute() {
    let mut first_then_second = GoatStore::default();
    first_then_second.goats = vec![goat("A"), goat("B"), goat("C")];
    let mut second_then_first = first_then_second.clone();

    assert!(first_then_second.settle_delete("A".to_string(), RequestOutcome::Accepted).is_ok());
    assert!(first_then_second.settle_delete("B".to_string(), RequestOutcome::Accepted).is_ok());

    assert!(second_then_first.settle_delete("B".to_string(), RequestOutcome::Accepted).is_ok());
    assert!(second_then_first.settle_delete("A".to_string(), RequestOutcome::Accepted).is_ok());

    assert_eq!(first_then_second.goats, second_then_first.goats);
    assert_eq!(first_then_second.goats, vec![goat("C")]);
    assert!(!first_then_second.goats.iter().any(|g| g.name == "A" || g.name == "B"));
}

#[test]
fn acknowledged_update_replaces_first_matching_record() {
    let mut store = GoatStore::default();
    store.goats = vec![goat("Daisy"), goat("Billy")];
    let mut updated = goat("Daisy");
    updated.diet = "Grass".to_string();
    let result = store.settle_update(updated.clone(), RequestOutcome::Accepted);
    assert!(result.is_ok());
    assert_eq!(store.goats, vec![updated, goat("Billy")]);
}

#[test]
fn acknowledged_update_of_absent_name_appends() {
    let mut store = GoatStore::default();
    store.goats = vec![goat("Billy")];
    let newcomer = goat("Daisy");
    let result = store.settle_update(newcomer.clone(), RequestOutcome::Accepted);
    assert!(result.is_ok());
    assert_eq!(store.goats, vec![goat("Billy"), newcomer]);
}

#[test]
fn rejected_update_reports_and_changes_nothing() {
    let mut store = GoatStore::default();
    store.goats = vec![goat("Daisy")];
    let result = store.settle_update(goat("Daisy"), RequestOutcome::Rejected(409));
    match result {
        Err(AppError::Unexpected(msg)) => {
            assert_eq!(msg, "Server returned error 409 while updating 'Daisy'");
        },
        other => panic!("expected an unexpected-status error, got {other:?}"),
    }
    assert_eq!(store.goats, vec![goat("Daisy")]);
}

#[test]
fn failed_update_reports_and_changes_nothing() {
    let mut store = GoatStore::default();
    store.goats = vec![goat("Daisy")];
    let result = store.settle_update(goat("Daisy"), RequestOutcome::Failed("timeout".to_string()));
    match result {
        Err(AppError::NetworkError(msg)) => {
            assert_eq!(msg, "Network error while updating 'Daisy': timeout");
        },
        other => panic!("expected a network error, got {other:?}"),
    }
    assert_eq!(store.goats, vec![goat("Daisy")]);
}

#[test]
fn store_stays_usable_after_errors() {
    let mut store = GoatStore::default();
    store.begin_request();
    store.finish_fetch(FetchOutcome::Unreachable("down".to_string()));
    assert!(store.error.is_some());
    store.begin_request();
    assert!(store.error.is_none());
    store.finish_fetch(FetchOutcome::Received(vec![goat("Daisy")]));
    assert_eq!(store.goats, vec![goat("Daisy")]);
}
