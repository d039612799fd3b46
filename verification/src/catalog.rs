//! The registrar across all entity kinds, with referential validation and
//! the creation-event fan-out for companies.
//!
//! A [`Catalog`] holds one registry per entity kind. Each `register_*`
//! operation is the caller-facing get-or-create surface: it resolves the
//! record's identifier, reports whether the record was created, validates
//! the record's reference to its parent entity where one is required, and —
//! for companies only — produces the framed creation event exactly when the
//! registration was a genuine first-time creation.

use vstd::prelude::*;

use crate::codec::{encode_event, encode_spec, event_wf, CompanyEvent};
use crate::ids::Id;
use crate::models::{Company, Feed, NewsItem, Source};
use crate::protocol::{call_results, created_count, lemma_idempotent_creation};
use crate::registry::{rows_contain, rows_contain_id, rows_register, rows_wf, Registry};

verus! {

/// The fixed transport subject dedicated to company-creation events.
pub const COMPANY_CREATED_SUBJECT: &'static str = "company_created";

/// The entity kinds registered through the protocol.
#[derive(Clone, Copy, Debug, PartialEq, Eq, Structural)]
pub enum EntityKind {
    Source,
    Feed,
    NewsItem,
    Company,
}

/// A fatal registration failure, annotated with the entity kind and the
/// attempted natural key for diagnosability. A natural-key collision is
/// never one of these: collisions are resolved inside `register_*`.
#[derive(Debug)]
pub enum RegisterError {
    /// A missing required reference (an unknown parent entity).
    Validation { kind: EntityKind, key: String },
    /// Store or transport connectivity loss, including a timeout; the
    /// caller may safely retry the whole call, since registration is
    /// idempotent by construction.
    Transport { kind: EntityKind, key: String },
    /// Any other store-reported failure, propagated unchanged.
    Store { kind: EntityKind, key: String },
}

impl RegisterError {
    /// Whether the caller may safely retry the whole `register` call.
    pub fn retriable(&self) -> (r: bool)
        ensures
            r == (self is Transport),
    {
        match self {
            RegisterError::Transport { .. } => true,
            _ => false,
        }
    }
}

/// Whether a company's text fields fit the event format's length bounds;
/// in the rare case they do not, the event is dropped best-effort while
/// the registration itself still succeeds.
pub open spec fn company_payload_wf(c: Company) -> bool {
    &&& vstd::utf8::encode_utf8(c.name@).len() < 0x1_0000_0000
    &&& match c.url {
        Option::Some(u) => vstd::utf8::encode_utf8(u@).len() < 0x1_0000_0000,
        Option::None => true,
    }
}

/// The outcome of registering a company: the resolved identifier, whether
/// the record was created, and — exactly when it was created and framable —
/// the payload to hand to the message transport.
pub struct CompanyRegistration {
    pub id: Id,
    pub created: bool,
    pub event: Option<Vec<u8>>,
}

/// One registry per entity kind.
pub struct Catalog {
    pub sources: Registry,
    pub feeds: Registry,
    pub news: Registry,
    pub companies: Registry,
}

impl Catalog {
    /// Every registry obeys its unique constraint.
    pub open spec fn wf(self) -> bool {
        &&& self.sources.wf()
        &&& self.feeds.wf()
        &&& self.news.wf()
        &&& self.companies.wf()
    }

    /// An empty catalog.
    pub fn new() -> (r: Catalog)
        ensures
            r.wf(),
            r.sources.rows() == Seq::<(Seq<char>, Id)>::empty(),
            r.feeds.rows() == Seq::<(Seq<char>, Id)>::empty(),
            r.news.rows() == Seq::<(Seq<char>, Id)>::empty(),
            r.companies.rows() == Seq::<(Seq<char>, Id)>::empty(),
    {
        Catalog {
            sources: Registry::new(),
            feeds: Registry::new(),
            news: Registry::new(),
            companies: Registry::new(),
        }
    }

    /// Get-or-create for a source, keyed on its URL. Both outcomes are
    /// success: a collision resolves to the existing identifier.
    pub fn register_source(&mut self, source: &Source) -> (r: (Id, bool))
        requires
            old(self).wf(),
        ensures
            final(self).wf(),
            (final(self).sources.rows(), r.0, r.1) == rows_register(
                old(self).sources.rows(),
                source.url@,
                source.id,
            ),
            final(self).feeds == old(self).feeds,
            final(self).news == old(self).news,
            final(self).companies == old(self).companies,
    {
        self.sources.register(&source.url, source.id)
    }

    /// Get-or-create for a feed, keyed on its URL.
    ///
    /// The feed's source reference is validated first: an unknown source
    /// is a fatal `Validation` failure and creates no row.
    pub fn register_feed(&mut self, feed: &Feed) -> (r: Result<(Id, bool), RegisterError>)
        requires
            old(self).wf(),
        ensures
            final(self).wf(),
            final(self).sources == old(self).sources,
            final(self).news == old(self).news,
            final(self).companies == old(self).companies,
            match r {
                Result::Ok(ok) => rows_contain_id(old(self).sources.rows(), feed.source_id) && (
                final(self).feeds.rows(),
                ok.0,
                ok.1,
                ) == rows_register(old(self).feeds.rows(), feed.url@, feed.id),
                Result::Err(e) => !rows_contain_id(old(self).sources.rows(), feed.source_id)
                    && final(self).feeds == old(self).feeds && (e matches RegisterError::Validation {
                    kind,
                    key,
                } && kind == EntityKind::Feed && key@ == feed.url@),
            },
    {
        if !self.sources.contains_id(feed.source_id) {
            return Err(
                RegisterError::Validation { kind: EntityKind::Feed, key: feed.url.clone() },
            );
        }
        Ok(self.feeds.register(&feed.url, feed.id))
    }

    /// Get-or-create for a news item, keyed on its GUID.
    ///
    /// The item's feed reference is validated first: an unknown feed is a
    /// fatal `Validation` failure and creates no row.
    pub fn register_news_item(&mut self, item: &NewsItem) -> (r: Result<
        (Id, bool),
        RegisterError,
    >)
        requires
            old(self).wf(),
        ensures
            final(self).wf(),
            final(self).sources == old(self).sources,
            final(self).feeds == old(self).feeds,
            final(self).companies == old(self).companies,
            match r {
                Result::Ok(ok) => rows_contain_id(old(self).feeds.rows(), item.feed_id) && (
                final(self).news.rows(),
                ok.0,
                ok.1,
                ) == rows_register(old(self).news.rows(), item.guid@, item.id),
                Result::Err(e) => !rows_contain_id(old(self).feeds.rows(), item.feed_id)
                    && final(self).news == old(self).news && (e matches RegisterError::Validation {
                    kind,
                    key,
                } && kind == EntityKind::NewsItem && key@ == item.guid@),
            },
    {
        if !self.feeds.contains_id(item.feed_id) {
            return Err(
                RegisterError::Validation { kind: EntityKind::NewsItem, key: item.guid.clone() },
            );
        }
        Ok(self.news.register(&item.guid, item.id))
    }

    /// Get-or-create for a company, keyed on its name, together with the
    /// creation-event fan-out.
    ///
    /// The framed event is produced exactly when the registration was a
    /// genuine first-time creation and the company's text fields fit the
    /// format; it carries the resolved identifier, the company's name and
    /// its optional URL as UTF-8 bytes. Publication is the transport
    /// edge's job and is best-effort: its failure never rolls back the
    /// already-committed registration.
    pub fn register_company(&mut self, company: &Company) -> (r: CompanyRegistration)
        requires
            old(self).wf(),
        ensures
            final(self).wf(),
            final(self).sources == old(self).sources,
            final(self).feeds == old(self).feeds,
            final(self).news == old(self).news,
            (final(self).companies.rows(), r.id, r.created) == rows_register(
                old(self).companies.rows(),
                company.name@,
                company.id,
            ),
            r.created && company_payload_wf(*company) ==> (r.event matches Option::Some(bytes)
                && (exists|e: CompanyEvent|
                {
                    &&& event_wf(e)
                    &&& bytes@ == encode_spec(e)
                    &&& e.id == r.id
                    &&& e.name@ == vstd::utf8::encode_utf8(company.name@)
                    &&& match company.url {
                        Option::Some(u) => e.url matches Option::Some(ub) && ub@
                            == vstd::utf8::encode_utf8(u@),
                        Option::None => e.url is None,
                    }
                })),
            !(r.created && company_payload_wf(*company)) ==> r.event is None,
    {
        let reg = self.companies.register(&company.name, company.id);
        let id = reg.0;
        let created = reg.1;
        if created {
            let name_bytes = company.name.as_str().as_bytes_vec();
            let url_bytes = match &company.url {
                Option::Some(u) => Some(u.as_str().as_bytes_vec()),
                Option::None => None,
            };
            let ev = CompanyEvent { id, name: name_bytes, url: url_bytes };
            let bytes = encode_event(&ev);
            proof {
                assert(event_wf(ev) == company_payload_wf(*company));
            }
            CompanyRegistration { id, created, event: bytes }
        } else {
            CompanyRegistration { id, created, event: None }
        }
    }
}

/// Event-on-create-only: [`Catalog::register_company`] produces the framed
/// event exactly when it reports a first-time creation, so over any run of
/// calls with one company name — concurrent callers serialised in some
/// order by the store — the event is produced exactly once if the name was
/// new, and never if the company already existed.
pub proof fn lemma_event_on_create_only(
    rows: Seq<(Seq<char>, Id)>,
    name: Seq<char>,
    cands: Seq<Id>,
)
    requires
        rows_wf(rows),
        cands.len() > 0,
    ensures
        created_count(call_results(rows, name, cands)) == if rows_contain(rows, name) {
            0nat
        } else {
            1nat
        },
{
    lemma_idempotent_creation(rows, name, cands);
}

} // verus!
