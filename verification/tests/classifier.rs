//! The conflict classifier: benign exactly for a unique violation on the
//! entity's own natural-key constraint.

use registrar::catalog::{EntityKind, RegisterError};
use registrar::classify::{classify, interpret_returned_id, Classification, StoreFailure};
use registrar::ids::Id;

#[test]
fn unique_violation_on_natural_key_is_benign() {
    let outcome = classify(
        EntityKind::Source,
        &String::from("https://acme.example"),
        &StoreFailure::UniqueViolation { constraint: String::from("source_url_key") },
        &String::from("source_url_key"),
    );
    assert!(matches!(outcome, Classification::Benign));
}

#[test]
fn unique_violation_on_other_constraint_is_fatal() {
    let outcome = classify(
        EntityKind::Source,
        &String::from("https://acme.example"),
        &StoreFailure::UniqueViolation { constraint: String::from("source_name_key") },
        &String::from("source_url_key"),
    );
    match outcome {
        Classification::Fatal(RegisterError::Store { kind, key }) => {
            assert_eq!(kind, EntityKind::Source);
            assert_eq!(key, String::from("https://acme.example"));
        }
        _ => panic!("an unrelated unique constraint must not be swallowed"),
    }
}

#[test]
fn foreign_key_violation_is_validation() {
    let outcome = classify(
        EntityKind::NewsItem,
        &String::from("guid-1"),
        &StoreFailure::ForeignKeyViolation { constraint: String::from("news_feed_id_fkey") },
        &String::from("news_guid_key"),
    );
    match outcome {
        Classification::Fatal(error) => {
            assert!(!error.retriable());
            assert!(matches!(
                error,
                RegisterError::Validation { kind: EntityKind::NewsItem, .. }
            ));
        }
        Classification::Benign => panic!("a missing reference is fatal"),
    }
}

#[test]
fn connectivity_loss_is_retriable_transport() {
    let outcome = classify(
        EntityKind::Company,
        &String::from("Acme"),
        &StoreFailure::ConnectivityLoss,
        &String::from("company_name_key"),
    );
    match outcome {
        Classification::Fatal(error) => {
            assert!(error.retriable());
            assert!(matches!(error, RegisterError::Transport { .. }));
        }
        Classification::Benign => panic!("lost connectivity is fatal"),
    }
}

#[test]
fn timeout_is_retriable_transport() {
    let outcome = classify(
        EntityKind::Company,
        &String::from("Acme"),
        &StoreFailure::Timeout,
        &String::from("company_name_key"),
    );
    match outcome {
        Classification::Fatal(error) => assert!(error.retriable()),
        Classification::Benign => panic!("a timeout is fatal for the in-flight call"),
    }
}

#[test]
fn unknown_failure_is_fatal_store() {
    let outcome = classify(
        EntityKind::Feed,
        &String::from("https://acme.example/rss"),
        &StoreFailure::Other { code: String::from("57P01") },
        &String::from("feed_url_key"),
    );
    match outcome {
        Classification::Fatal(error) => {
            assert!(!error.retriable());
            assert!(matches!(error, RegisterError::Store { .. }));
        }
        Classification::Benign => panic!("an unknown failure is fatal"),
    }
}

#[test]
fn returned_provisional_id_means_created() {
    let provisional = Id::from_parts(5, 6);
    let (id, created) = interpret_returned_id(provisional, provisional);
    assert_eq!(id, provisional);
    assert!(created);
}

#[test]
fn returned_other_id_means_pre_existing() {
    let provisional = Id::from_parts(5, 6);
    let existing = Id::from_parts(7, 8);
    let (id, created) = interpret_returned_id(provisional, existing);
    assert_eq!(id, existing);
    assert!(!created);
}
