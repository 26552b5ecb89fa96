//! The service's decisions: assembling the enriched search output (skipping
//! items whose language fetch failed), mapping the repository-metadata fetch
//! to a record or a server error, and building the HTTP responses, every one
//! of which carries the permissive cross-origin headers.

use vstd::prelude::*;
use crate::langs::{
    fetch_view, language_fetch_outcome, spec_language_outcome, status_is_success,
};
use crate::model::{
    has_cors_headers, has_header, response_views, ApiError, HttpResponse, RepoRecord,
    RepoRecordView, RepoResponse, RepoResponseView, SearchPage,
};
use crate::serialize::{repo_response_json, responses_json, write_repo_response_json,
    write_responses_json};
use crate::text::{dec_digits, u64_to_dec};

verus! {

/// The mathematical values of a list of repository records.
pub open spec fn record_views(items: Seq<RepoRecord>) -> Seq<RepoRecordView> {
    items.map_values(|r: RepoRecord| r@)
}

/// The mathematical values of a list of raw fetch outcomes.
pub open spec fn fetch_views(fs: Seq<Result<(u16, String), String>>) -> Seq<
    Result<(u16, Seq<char>), Seq<char>>,
> {
    fs.map_values(|f: Result<(u16, String), String>| fetch_view(f))
}

/// The enriched output for a list of records and their language fetches, in
/// order: each record whose fetch succeeded, paired with its languages; each
/// record whose fetch failed is skipped.
pub open spec fn spec_assemble(
    items: Seq<RepoRecordView>,
    fetches: Seq<Result<(u16, Seq<char>), Seq<char>>>,
) -> Seq<RepoResponseView>
    decreases items.len(),
{
    if items.len() == 0 || fetches.len() == 0 {
        Seq::empty()
    } else {
        spec_assemble(items.drop_last(), fetches.drop_last()) + match spec_language_outcome(
            fetches.last(),
        ) {
            Ok(langs) => seq![RepoResponseView { repo: items.last(), languages: langs }],
            Err(_) => Seq::empty(),
        }
    }
}

/// Builds the enriched output for the records and their language fetches.
/// A failed fetch drops its record and nothing else (the caller logs it).
pub fn assemble_search_responses(
    items: &Vec<RepoRecord>,
    fetches: &Vec<Result<(u16, String), String>>,
) -> (r: Vec<RepoResponse>)
    requires
        items@.len() == fetches@.len(),
    ensures
        response_views(r@) == spec_assemble(record_views(items@), fetch_views(fetches@)),
{
    let mut out: Vec<RepoResponse> = Vec::new();
    let mut i: usize = 0;
    while i < items.len()
        invariant
            items@.len() == fetches@.len(),
            i <= items@.len(),
            response_views(out@) == spec_assemble(
                record_views(items@).subrange(0, i as int),
                fetch_views(fetches@).subrange(0, i as int),
            ),
        decreases items@.len() - i,
    {
        proof {
            let iv = record_views(items@);
            let fv = fetch_views(fetches@);
            assert(iv.subrange(0, i + 1 as int).drop_last() =~= iv.subrange(0, i as int));
            assert(fv.subrange(0, i + 1 as int).drop_last() =~= fv.subrange(0, i as int));
        }
        match language_fetch_outcome(&fetches[i]) {
            Ok(langs) => {
                let rec = items[i].duplicate();
                out.push(RepoResponse { repo: rec, languages: langs });
                proof {
                    let iv = record_views(items@);
                    let fv = fetch_views(fetches@);
                    assert(response_views(out@) =~= spec_assemble(
                        iv.subrange(0, i + 1 as int),
                        fv.subrange(0, i + 1 as int),
                    ));
                }
            },
            Err(_) => {
                proof {
                    let iv = record_views(items@);
                    let fv = fetch_views(fetches@);
                    assert(response_views(out@) =~= spec_assemble(
                        iv.subrange(0, i + 1 as int),
                        fv.subrange(0, i + 1 as int),
                    ));
                }
            },
        }
        i += 1;
    }
    proof {
        assert(record_views(items@).subrange(0, items@.len() as int) =~= record_views(items@));
        assert(fetch_views(fetches@).subrange(0, fetches@.len() as int) =~= fetch_views(fetches@));
    }
    out
}

/// Law: an item whose language fetch fails is absent from the enriched
/// output, and the rest of the output stands — it is exactly the output the
/// remaining items alone would give.
pub proof fn lemma_failed_fetch_skipped(
    items: Seq<RepoRecordView>,
    fetches: Seq<Result<(u16, Seq<char>), Seq<char>>>,
    i: int,
)
    requires
        items.len() == fetches.len(),
        0 <= i < items.len(),
        spec_language_outcome(fetches[i]) is Err,
    ensures
        spec_assemble(items, fetches) == spec_assemble(items.remove(i), fetches.remove(i)),
    decreases items.len(),
{
    if i == items.len() - 1 {
        assert(items.remove(i) =~= items.drop_last());
        assert(fetches.remove(i) =~= fetches.drop_last());
    } else {
        lemma_failed_fetch_skipped(items.drop_last(), fetches.drop_last(), i);
        assert(items.drop_last().remove(i) =~= items.remove(i).drop_last());
        assert(fetches.drop_last().remove(i) =~= fetches.remove(i).drop_last());
        assert(items.remove(i).last() == items.last());
        assert(fetches.remove(i).last() == fetches.last());
    }
}

/// How many of the language fetches succeeded.
pub open spec fn ok_count(fetches: Seq<Result<(u16, Seq<char>), Seq<char>>>) -> nat
    decreases fetches.len(),
{
    if fetches.len() == 0 {
        0
    } else {
        ok_count(fetches.drop_last()) + if spec_language_outcome(fetches.last()) is Ok {
            1nat
        } else {
            0nat
        }
    }
}

/// Law: the enriched output holds exactly one entry per successful language
/// fetch — the request succeeds with the remaining items, however many
/// fetches failed.
pub proof fn lemma_assemble_len(
    items: Seq<RepoRecordView>,
    fetches: Seq<Result<(u16, Seq<char>), Seq<char>>>,
)
    requires
        items.len() == fetches.len(),
    ensures
        spec_assemble(items, fetches).len() == ok_count(fetches),
    decreases items.len(),
{
    if items.len() > 0 {
        lemma_assemble_len(items.drop_last(), fetches.drop_last());
    }
}

/// Adds the permissive cross-origin headers to a response, touching nothing
/// else.
pub fn with_cors(r: HttpResponse) -> (out: HttpResponse)
    ensures
        out.status == r.status,
        out.body == r.body,
        has_cors_headers(out),
        out.headers@.len() == r.headers@.len() + 3,
        forall|i: int| 0 <= i < r.headers@.len() ==> out.headers@[i] == r.headers@[i],
{
    let mut headers = r.headers;
    headers.push((String::from_str("access-control-allow-origin"), String::from_str("*")));
    headers.push((String::from_str("access-control-allow-methods"), String::from_str("*")));
    headers.push(
        (String::from_str("access-control-allow-headers"), String::from_str("content-type")),
    );
    let out = HttpResponse { status: r.status, headers, body: r.body };
    proof {
        let hs = out.headers@;
        let n = hs.len() as int;
        assert(hs[n - 3].0@ == "access-control-allow-origin"@ && hs[n - 3].1@ == "*"@);
        assert(hs[n - 2].0@ == "access-control-allow-methods"@ && hs[n - 2].1@ == "*"@);
        assert(hs[n - 1].0@ == "access-control-allow-headers"@ && hs[n - 1].1@
            == "content-type"@);
        assert(has_header(hs, "access-control-allow-origin"@, "*"@));
        assert(has_header(hs, "access-control-allow-methods"@, "*"@));
        assert(has_header(hs, "access-control-allow-headers"@, "content-type"@));
    }
    out
}

/// A plain-text error response carrying the error's status and message, with
/// the cross-origin headers.
pub fn error_response(e: ApiError) -> (r: HttpResponse)
    ensures
        r.status == e.status,
        r.body@ == e.message@,
        has_cors_headers(r),
        has_header(r.headers@, "content-type"@, "text/plain; charset=utf-8"@),
{
    let mut headers: Vec<(String, String)> = Vec::new();
    headers.push(
        (String::from_str("content-type"), String::from_str("text/plain; charset=utf-8")),
    );
    let out = with_cors(HttpResponse { status: e.status, headers, body: e.message });
    proof {
        assert(out.headers@[0].0@ == "content-type"@ && out.headers@[0].1@
            == "text/plain; charset=utf-8"@);
    }
    out
}

/// A successful JSON response with the given body, with the cross-origin
/// headers.
pub fn json_response(body: String) -> (r: HttpResponse)
    ensures
        r.status == 200,
        r.body@ == body@,
        has_cors_headers(r),
        has_header(r.headers@, "content-type"@, "application/json"@),
{
    let mut headers: Vec<(String, String)> = Vec::new();
    headers.push((String::from_str("content-type"), String::from_str("application/json")));
    let out = with_cors(HttpResponse { status: 200, headers, body });
    proof {
        assert(out.headers@[0].0@ == "content-type"@ && out.headers@[0].1@
            == "application/json"@);
    }
    out
}

/// The mathematical value of the search call's outcome: the records on
/// success, the upstream error text otherwise.
pub open spec fn search_view(search: Result<SearchPage, String>) -> Result<
    Seq<RepoRecordView>,
    Seq<char>,
> {
    match search {
        Ok(p) => Ok(record_views(p.items@)),
        Err(m) => Err(m@),
    }
}

/// The status of the search route's response: a server error when the
/// upstream search failed, success otherwise.
pub open spec fn spec_search_status(search: Result<Seq<RepoRecordView>, Seq<char>>) -> u16 {
    match search {
        Ok(_) => 200,
        Err(_) => 500,
    }
}

/// The body of the search route's response: the upstream error text when the
/// search failed, else the JSON array of enriched records.
pub open spec fn spec_search_body(
    search: Result<Seq<RepoRecordView>, Seq<char>>,
    fetches: Seq<Result<(u16, Seq<char>), Seq<char>>>,
) -> Seq<char> {
    match search {
        Err(m) => m,
        Ok(items) => responses_json(spec_assemble(items, fetches)),
    }
}

/// Answers the search route: a failed upstream search becomes a server error
/// carrying the upstream text; otherwise the records are enriched with their
/// language fetches (failed items skipped) and rendered as a JSON array. The
/// response always carries the cross-origin headers.
pub fn search_http_response(
    search: Result<SearchPage, String>,
    fetches: &Vec<Result<(u16, String), String>>,
) -> (r: HttpResponse)
    requires
        search matches Ok(p) ==> p.items@.len() == fetches@.len(),
    ensures
        has_cors_headers(r),
        r.status == spec_search_status(search_view(search)),
        r.body@ == spec_search_body(search_view(search), fetch_views(fetches@)),
        search is Ok ==> has_header(r.headers@, "content-type"@, "application/json"@),
        search is Err ==> has_header(r.headers@, "content-type"@, "text/plain; charset=utf-8"@),
{
    match search {
        Err(m) => error_response(ApiError { status: 500, message: m }),
        Ok(page) => {
            let rs = assemble_search_responses(&page.items, fetches);
            let body = write_responses_json(&rs);
            json_response(body)
        },
    }
}

/// The error message for a repository-metadata fetch that came back with a
/// non-success status.
pub open spec fn repo_error_message(status: u16) -> Seq<char> {
    "Error fetching repository data. Status code: "@ + dec_digits(status as nat)
}

/// What the repository-metadata fetch comes to: the transport error text
/// as-is, the status-code message on a non-success status, or the record's
/// JSON body.
pub open spec fn spec_metadata_outcome(fetch: Result<(u16, Seq<char>), Seq<char>>) -> Result<
    Seq<char>,
    Seq<char>,
> {
    match fetch {
        Err(m) => Err(m),
        Ok(p) => if status_is_success(p.0) {
            Ok(p.1)
        } else {
            Err(repo_error_message(p.0))
        },
    }
}

/// Decides the repository-metadata fetch: a transport failure or a
/// non-success status becomes a server error whose message names the status
/// code; on success the body passes through verbatim.
pub fn repository_metadata_outcome(fetch: Result<(u16, String), String>) -> (r: Result<
    String,
    ApiError,
>)
    ensures
        r is Ok <==> spec_metadata_outcome(fetch_view(fetch)) is Ok,
        r matches Ok(b) ==> b@ == spec_metadata_outcome(fetch_view(fetch))->Ok_0,
        r matches Err(e) ==> e.status == 500 && e.message@ == spec_metadata_outcome(
            fetch_view(fetch),
        )->Err_0,
{
    match fetch {
        Err(m) => Err(ApiError { status: 500, message: m }),
        Ok(p) => {
            let status: u16 = p.0;
            if status < 200 || status >= 300 {
                let mut message = String::from_str(
                    "Error fetching repository data. Status code: ",
                );
                let digits = u64_to_dec(status as u64);
                message.append(digits.as_str());
                Err(ApiError { status: 500, message })
            } else {
                Ok(p.1)
            }
        },
    }
}

/// Law: the error the detail route answers with on a non-success
/// repository-metadata status carries that status code — the message ends in
/// its decimal digits.
pub proof fn lemma_metadata_error_names_status(status: u16)
    ensures
        repo_error_message(status).subrange(
            "Error fetching repository data. Status code: "@.len() as int,
            repo_error_message(status).len() as int,
        ) == dec_digits(status as nat),
{
    assert(repo_error_message(status).subrange(
        "Error fetching repository data. Status code: "@.len() as int,
        repo_error_message(status).len() as int,
    ) =~= dec_digits(status as nat));
}

/// The status of the detail route's response for a given language fetch.
pub open spec fn spec_detail_status(fetch: Result<(u16, Seq<char>), Seq<char>>) -> u16 {
    match spec_language_outcome(fetch) {
        Ok(_) => 200,
        Err(_) => 500,
    }
}

/// The body of the detail route's response: the enriched record as JSON when
/// the language fetch succeeds, else the fetch's error message.
pub open spec fn spec_detail_body(
    repo: RepoRecordView,
    fetch: Result<(u16, Seq<char>), Seq<char>>,
) -> Seq<char> {
    match spec_language_outcome(fetch) {
        Ok(langs) => repo_response_json(RepoResponseView { repo, languages: langs }),
        Err(m) => m,
    }
}

/// Answers the detail route once the repository record is in hand: a failed
/// language fetch becomes a server error, a successful one the enriched
/// record as JSON. The response always carries the cross-origin headers.
pub fn detail_http_response(
    repo: RepoRecord,
    langs_fetch: &Result<(u16, String), String>,
) -> (r: HttpResponse)
    ensures
        has_cors_headers(r),
        r.status == spec_detail_status(fetch_view(*langs_fetch)),
        r.body@ == spec_detail_body(repo@, fetch_view(*langs_fetch)),
        spec_language_outcome(fetch_view(*langs_fetch)) is Ok ==> has_header(
            r.headers@,
            "content-type"@,
            "application/json"@,
        ),
        spec_language_outcome(fetch_view(*langs_fetch)) is Err ==> has_header(
            r.headers@,
            "content-type"@,
            "text/plain; charset=utf-8"@,
        ),
{
    match language_fetch_outcome(langs_fetch) {
        Ok(langs) => {
            let resp = RepoResponse { repo, languages: langs };
            let body = write_repo_response_json(&resp);
            json_response(body)
        },
        Err(e) => error_response(e),
    }
}

/// Law: the search route is idempotent — the same upstream search outcome and
/// the same per-item fetch outcomes yield byte-identical body and status.
pub proof fn lemma_search_response_deterministic(
    s1: Result<Seq<RepoRecordView>, Seq<char>>,
    f1: Seq<Result<(u16, Seq<char>), Seq<char>>>,
    s2: Result<Seq<RepoRecordView>, Seq<char>>,
    f2: Seq<Result<(u16, Seq<char>), Seq<char>>>,
)
    requires
        s1 == s2,
        f1 == f2,
    ensures
        spec_search_body(s1, f1) == spec_search_body(s2, f2),
        spec_search_status(s1) == spec_search_status(s2),
{
}

/// Law: the detail route is idempotent — the same record and the same
/// language-fetch outcome yield byte-identical body and status.
pub proof fn lemma_detail_response_deterministic(
    r1: RepoRecordView,
    f1: Result<(u16, Seq<char>), Seq<char>>,
    r2: RepoRecordView,
    f2: Result<(u16, Seq<char>), Seq<char>>,
)
    requires
        r1 == r2,
        f1 == f2,
    ensures
        spec_detail_body(r1, f1) == spec_detail_body(r2, f2),
        spec_detail_status(f1) == spec_detail_status(f2),
{
}

} // verus!
