//! The plain values that cross the service boundary: repository records held
//! as the JSON text the upstream returned, search pages, enriched records,
//! the service's error value, and its HTTP response shape.

use vstd::prelude::*;

verus! {

/// One upstream repository record: the JSON text the upstream returned for
/// it, and the languages URL read out of that record (absent when the record
/// carries none).
pub struct RepoRecord {
    pub json: String,
    pub languages_url: Option<String>,
}

/// The mathematical value of a [`RepoRecord`].
pub ghost struct RepoRecordView {
    pub json: Seq<char>,
    pub languages_url: Option<Seq<char>>,
}

impl View for RepoRecord {
    type V = RepoRecordView;

    open spec fn view(&self) -> RepoRecordView {
        RepoRecordView {
            json: self.json@,
            languages_url: match self.languages_url {
                Some(u) => Some(u@),
                None => None,
            },
        }
    }
}

impl RepoRecord {
    /// An equal copy of the record.
    pub fn duplicate(&self) -> (r: RepoRecord)
        ensures
            r == *self,
    {
        RepoRecord {
            json: self.json.clone(),
            languages_url: match &self.languages_url {
                Some(u) => Some(u.clone()),
                None => None,
            },
        }
    }
}

/// One page of upstream search results as the upstream reports it: the
/// records, and the page metadata, each of which the upstream may omit.
pub struct SearchPage {
    pub items: Vec<RepoRecord>,
    pub total_count: Option<u64>,
    pub incomplete_results: Option<bool>,
}

/// A search page reshaped for the service's callers: the omitted metadata
/// filled in with its defaults.
pub struct RepositoryPage {
    pub items: Vec<RepoRecord>,
    pub total_count: u64,
    pub incomplete_results: bool,
}

impl From<SearchPage> for RepositoryPage {
    /// Copies the records and the metadata verbatim; a missing total count
    /// becomes zero and a missing truncation flag becomes false.
    fn from(page: SearchPage) -> (r: RepositoryPage) {
        RepositoryPage {
            items: page.items,
            total_count: match page.total_count {
                Some(n) => n,
                None => 0,
            },
            incomplete_results: match page.incomplete_results {
                Some(b) => b,
                None => false,
            },
        }
    }
}

impl vstd::std_specs::convert::FromSpecImpl<SearchPage> for RepositoryPage {
    open spec fn obeys_from_spec() -> bool {
        true
    }

    open spec fn from_spec(page: SearchPage) -> RepositoryPage {
        RepositoryPage {
            items: page.items,
            total_count: match page.total_count {
                Some(n) => n,
                None => 0,
            },
            incomplete_results: match page.incomplete_results {
                Some(b) => b,
                None => false,
            },
        }
    }
}

/// The character sequences of a list of (name, byte count) pairs.
pub open spec fn lang_views(v: Seq<(String, u64)>) -> Seq<(Seq<char>, u64)> {
    v.map_values(|p: (String, u64)| (p.0@, p.1))
}

/// One repository record enriched with its per-language byte counts.
pub struct RepoResponse {
    pub repo: RepoRecord,
    pub languages: Vec<(String, u64)>,
}

/// The mathematical value of a [`RepoResponse`].
pub ghost struct RepoResponseView {
    pub repo: RepoRecordView,
    pub languages: Seq<(Seq<char>, u64)>,
}

impl View for RepoResponse {
    type V = RepoResponseView;

    open spec fn view(&self) -> RepoResponseView {
        RepoResponseView { repo: self.repo@, languages: lang_views(self.languages@) }
    }
}

/// The mathematical values of a list of enriched records.
pub open spec fn response_views(s: Seq<RepoResponse>) -> Seq<RepoResponseView> {
    s.map_values(|r: RepoResponse| r@)
}

/// The service's error value: an HTTP status to answer with and the message
/// carried as the response body.
pub struct ApiError {
    pub status: u16,
    pub message: String,
}

/// One HTTP response the service hands back: status, headers in order, body.
pub struct HttpResponse {
    pub status: u16,
    pub headers: Vec<(String, String)>,
    pub body: String,
}

/// Whether a header list carries the given header.
pub open spec fn has_header(hs: Seq<(String, String)>, name: Seq<char>, value: Seq<char>) -> bool {
    exists|i: int| 0 <= i < hs.len() && hs[i].0@ == name && hs[i].1@ == value
}

/// The permissive cross-origin policy: every origin, every method, and the
/// content-type header are allowed.
pub open spec fn has_cors_headers(r: HttpResponse) -> bool {
    &&& has_header(r.headers@, "access-control-allow-origin"@, "*"@)
    &&& has_header(r.headers@, "access-control-allow-methods"@, "*"@)
    &&& has_header(r.headers@, "access-control-allow-headers"@, "content-type"@)
}

} // verus!
