//! The entities registered through the protocol, with plain-valued fields:
//! identifiers are [`Id`]s and timestamps are milliseconds since the Unix
//! epoch.
//!
//! Each `new` constructor populates the record's *provisional* identifier
//! from the identity generator before persistence is attempted; the
//! identifier becomes permanent only if registration reports a genuine
//! first-time creation.

use vstd::prelude::*;

use crate::ids::{fresh_id, now_millis, Id};

verus! {

/// A content source; its natural key is `url`.
pub struct Source {
    pub id: Id,
    pub name: String,
    pub url: String,
    pub type_id: i32,
    pub paywall: Option<bool>,
    pub feed_available: Option<bool>,
    pub description: Option<String>,
    pub short_name: Option<String>,
    pub state: Option<String>,
    pub city: Option<String>,
    pub create_timestamp: i64,
}

impl Source {
    /// A fresh source record with a provisional identifier and the creation
    /// time taken from the clock; nothing is assumed of either value.
    pub fn new(name: String, url: String, type_id: i32) -> (r: Source)
        ensures
            r.name == name,
            r.url == url,
            r.type_id == type_id,
            r.paywall is None,
            r.feed_available is None,
            r.description is None,
            r.short_name is None,
            r.state is None,
            r.city is None,
    {
        Source {
            id: fresh_id(),
            name,
            url,
            type_id,
            paywall: None,
            feed_available: None,
            description: None,
            short_name: None,
            state: None,
            city: None,
            create_timestamp: now_millis(),
        }
    }
}

/// A feed belonging to a source; its natural key is `url`, and `source_id`
/// must reference a registered source.
pub struct Feed {
    pub id: Id,
    pub source_id: Id,
    pub url: String,
    pub title: Option<String>,
    pub create_timestamp: i64,
    pub feed_type: Option<String>,
    pub ttl: Option<i32>,
}

impl Feed {
    /// A fresh feed record with a provisional identifier and the creation
    /// time taken from the clock.
    pub fn new(source_id: Id, url: String, title: Option<String>, feed_type: Option<String>) -> (r:
        Feed)
        ensures
            r.source_id == source_id,
            r.url == url,
            r.title == title,
            r.feed_type == feed_type,
            r.ttl is None,
    {
        Feed {
            id: fresh_id(),
            source_id,
            url,
            title,
            create_timestamp: now_millis(),
            feed_type,
            ttl: None,
        }
    }
}

/// A news item belonging to a feed; its natural key is `guid`, and
/// `feed_id` must reference a registered feed.
pub struct NewsItem {
    pub id: Id,
    pub feed_id: Id,
    pub guid: String,
    pub title: String,
    pub published_timestamp: i64,
    pub url: String,
    pub create_timestamp: i64,
    pub raw_content_path: Option<String>,
    pub text_content_path: Option<String>,
}

impl NewsItem {
    /// A fresh news-item record with a provisional identifier and the
    /// creation time taken from the clock.
    pub fn new(
        feed_id: Id,
        guid: String,
        title: String,
        published_timestamp: i64,
        url: String,
    ) -> (r: NewsItem)
        ensures
            r.feed_id == feed_id,
            r.guid == guid,
            r.title == title,
            r.published_timestamp == published_timestamp,
            r.url == url,
            r.raw_content_path is None,
            r.text_content_path is None,
    {
        NewsItem {
            id: fresh_id(),
            feed_id,
            guid,
            title,
            published_timestamp,
            url,
            create_timestamp: now_millis(),
            raw_content_path: None,
            text_content_path: None,
        }
    }
}

/// A company; its natural key is `name`.
pub struct Company {
    pub id: Id,
    pub name: String,
    pub url: Option<String>,
    pub ticker: Option<String>,
    pub indeed_rating: Option<String>,
    pub glassdoor_rating: Option<String>,
    pub create_timestamp: i64,
    pub update_timestamp: i64,
    pub sector: Option<String>,
    pub industry: Option<String>,
    pub address: Option<String>,
    pub exchange: Option<String>,
    pub num_employees_min: Option<i32>,
    pub num_employees_max: Option<i32>,
}

impl Company {
    /// A fresh company record with a provisional identifier.
    pub fn new(
        name: String,
        url: Option<String>,
        ticker: Option<String>,
        indeed_rating: Option<String>,
        glassdoor_rating: Option<String>,
        create_timestamp: i64,
        update_timestamp: i64,
    ) -> (r: Company)
        ensures
            r.name == name,
            r.url == url,
            r.ticker == ticker,
            r.indeed_rating == indeed_rating,
            r.glassdoor_rating == glassdoor_rating,
            r.create_timestamp == create_timestamp,
            r.update_timestamp == update_timestamp,
            r.sector is None,
            r.industry is None,
            r.address is None,
            r.exchange is None,
            r.num_employees_min is None,
            r.num_employees_max is None,
    {
        Company {
            id: fresh_id(),
            name,
            url,
            ticker,
            indeed_rating,
            glassdoor_rating,
            create_timestamp,
            update_timestamp,
            sector: None,
            industry: None,
            address: None,
            exchange: None,
            num_employees_min: None,
            num_employees_max: None,
        }
    }
}

/// A source-type row; created by plain insertion, outside the
/// get-or-create protocol.
pub struct SourceType {
    pub id: i32,
    pub name: String,
}

impl SourceType {
    pub fn new(id: i32, name: String) -> (r: SourceType)
        ensures
            r.id == id,
            r.name == name,
    {
        SourceType { id, name }
    }
}

/// A request to fetch one webpage.
pub struct WebpageRequest {
    pub url: String,
    pub persist: bool,
}

impl WebpageRequest {
    pub fn new(url: String, persist: bool) -> (r: WebpageRequest)
        ensures
            r.url == url,
            r.persist == persist,
    {
        WebpageRequest { url, persist }
    }
}

} // verus!
