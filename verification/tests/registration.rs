//! Scenario tests for the get-or-create protocol across entity kinds.

use registrar::catalog::{Catalog, EntityKind, RegisterError};
use registrar::ids::Id;
use registrar::models::{Company, Feed, NewsItem, Source};

#[test]
fn register_source_twice_resolves_same_id() {
    let mut catalog = Catalog::new();
    let first = Source::new(
        String::from("Acme Feed"),
        String::from("https://acme.example/feed"),
        1,
    );
    let (id, created) = catalog.register_source(&first);
    assert!(created);
    assert_eq!(id, first.id);

    let second = Source::new(
        String::from("Acme Feed"),
        String::from("https://acme.example/feed"),
        1,
    );
    let (resolved, created_again) = catalog.register_source(&second);
    assert!(!created_again);
    assert_eq!(resolved, first.id);
    assert_eq!(catalog.sources.entries.len(), 1);
    assert_eq!(catalog.sources.lookup(&String::from("https://acme.example/feed")), Some(first.id));
}

#[test]
fn register_is_idempotent_per_key() {
    let mut catalog = Catalog::new();
    let mut created_total = 0;
    let mut ids = Vec::new();
    for name in ["a", "b", "c"] {
        let source = Source::new(String::from(name), String::from("https://one.example"), 2);
        let (id, created) = catalog.register_source(&source);
        if created {
            created_total += 1;
        }
        ids.push(id);
    }
    assert_eq!(created_total, 1);
    assert_eq!(ids[0], ids[1]);
    assert_eq!(ids[1], ids[2]);
    assert_eq!(catalog.sources.entries.len(), 1);
}

#[test]
fn distinct_keys_get_distinct_rows() {
    let mut catalog = Catalog::new();
    let one = Source::new(String::from("One"), String::from("https://one.example"), 1);
    let two = Source::new(String::from("Two"), String::from("https://two.example"), 1);
    let (id_one, created_one) = catalog.register_source(&one);
    let (id_two, created_two) = catalog.register_source(&two);
    assert!(created_one);
    assert!(created_two);
    assert_eq!(id_one, one.id);
    assert_eq!(id_two, two.id);
    assert_eq!(catalog.sources.entries.len(), 2);
}

#[test]
fn register_feed_unknown_source_is_validation() {
    let mut catalog = Catalog::new();
    let feed = Feed::new(
        Id::from_parts(7, 7),
        String::from("https://nowhere.example/rss"),
        Some(String::from("Nowhere")),
        Some(String::from("rss")),
    );
    match catalog.register_feed(&feed) {
        Err(RegisterError::Validation { kind, key }) => {
            assert_eq!(kind, EntityKind::Feed);
            assert_eq!(key, String::from("https://nowhere.example/rss"));
        }
        other => panic!("expected a validation failure, got {:?}", other.is_ok()),
    }
    assert_eq!(catalog.feeds.entries.len(), 0);
}

#[test]
fn register_feed_known_source_succeeds() {
    let mut catalog = Catalog::new();
    let source = Source::new(String::from("Acme"), String::from("https://acme.example"), 1);
    let (source_id, _) = catalog.register_source(&source);
    let feed = Feed::new(
        source_id,
        String::from("https://acme.example/rss"),
        Some(String::from("Acme RSS")),
        Some(String::from("rss")),
    );
    let (feed_id, created) = catalog.register_feed(&feed).expect("source exists");
    assert!(created);
    assert_eq!(feed_id, feed.id);
    assert_eq!(catalog.feeds.entries.len(), 1);
}

#[test]
fn register_news_item_unknown_feed_is_validation_and_creates_no_row() {
    let mut catalog = Catalog::new();
    let item = NewsItem::new(
        Id::from_parts(0xdead, 0xbeef),
        String::from("guid-123"),
        String::from("Hello"),
        1_700_000_000_000,
        String::from("https://acme.example/p/1"),
    );
    match catalog.register_news_item(&item) {
        Err(RegisterError::Validation { kind, key }) => {
            assert_eq!(kind, EntityKind::NewsItem);
            assert_eq!(key, String::from("guid-123"));
        }
        Ok(_) => panic!("expected a validation failure"),
        Err(_) => panic!("expected the validation variant"),
    }
    assert_eq!(catalog.news.entries.len(), 0);
}

#[test]
fn register_news_item_known_feed_succeeds_once() {
    let mut catalog = Catalog::new();
    let source = Source::new(String::from("Acme"), String::from("https://acme.example"), 1);
    let (source_id, _) = catalog.register_source(&source);
    let feed = Feed::new(source_id, String::from("https://acme.example/rss"), None, None);
    let (feed_id, _) = catalog.register_feed(&feed).expect("source exists");

    let item = NewsItem::new(
        feed_id,
        String::from("guid-123"),
        String::from("Hello"),
        1_700_000_000_000,
        String::from("https://acme.example/p/1"),
    );
    let (item_id, created) = catalog.register_news_item(&item).expect("feed exists");
    assert!(created);
    assert_eq!(item_id, item.id);

    let duplicate = NewsItem::new(
        feed_id,
        String::from("guid-123"),
        String::from("Hello again"),
        1_700_000_100_000,
        String::from("https://acme.example/p/1-dup"),
    );
    let (dup_id, dup_created) = catalog.register_news_item(&duplicate).expect("feed exists");
    assert!(!dup_created);
    assert_eq!(dup_id, item.id);
    assert_eq!(catalog.news.entries.len(), 1);
}

#[test]
fn fresh_records_get_distinct_identifiers() {
    let a = Company::new(String::from("A"), None, None, None, None, 0, 0);
    let b = Company::new(String::from("B"), None, None, None, None, 0, 0);
    assert_ne!(a.id, b.id);
}
