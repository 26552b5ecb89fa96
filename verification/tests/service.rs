use repos_toolbox_api::model::{RepoRecord, RepositoryPage, SearchPage};
use repos_toolbox_api::respond::{
    detail_http_response, repository_metadata_outcome, search_http_response,
};
use repos_toolbox_api::text::{json_escape, u64_to_dec};

fn record(json: &str, url: Option<&str>) -> RepoRecord {
    RepoRecord {
        json: json.to_string(),
        languages_url: url.map(|u| u.to_string()),
    }
}

fn has_header(headers: &Vec<(String, String)>, name: &str, value: &str) -> bool {
    headers.iter().any(|(n, v)| n == name && v == value)
}

fn has_cors(headers: &Vec<(String, String)>) -> bool {
    has_header(headers, "access-control-allow-origin", "*")
        && has_header(headers, "access-control-allow-methods", "*")
        && has_header(headers, "access-control-allow-headers", "content-type")
}

#[test]
fn page_reshape_copies_metadata_verbatim() {
    let page = SearchPage {
        items: vec![record("{\"id\":1}", None), record("{\"id\":2}", None)],
        total_count: Some(42),
        incomplete_results: Some(true),
    };
    let reshaped = RepositoryPage::from(page);
    assert_eq!(reshaped.total_count, 42);
    assert_eq!(reshaped.incomplete_results, true);
    assert_eq!(reshaped.items.len(), 2);
    assert_eq!(reshaped.items[0].json, "{\"id\":1}");
    assert_eq!(reshaped.items[1].json, "{\"id\":2}");
}

#[test]
fn page_reshape_fills_missing_metadata_with_defaults() {
    let page = SearchPage {
        items: vec![],
        total_count: None,
        incomplete_results: None,
    };
    let reshaped = RepositoryPage::from(page);
    assert_eq!(reshaped.total_count, 0);
    assert_eq!(reshaped.incomplete_results, false);
    assert!(reshaped.items.is_empty());
}

#[test]
fn search_success_reshapes_canned_upstream_response() {
    let page = SearchPage {
        items: vec![
            record("{\"id\":1}", Some("https://x/1/languages")),
            record("{\"id\":2}", Some("https://x/2/languages")),
        ],
        total_count: Some(2),
        incomplete_results: Some(false),
    };
    let fetches = vec![
        Ok((200, "{\"Rust\":5,\"C\":3}".to_string())),
        Ok((200, "{}".to_string())),
    ];
    let r = search_http_response(Ok(page), &fetches);
    assert_eq!(r.status, 200);
    assert_eq!(
        r.body,
        "[{\"repo\":{\"id\":1},\"languages\":{\"C\":3,\"Rust\":5}},{\"repo\":{\"id\":2},\"languages\":{}}]"
    );
}

#[test]
fn search_failure_carries_upstream_error_text() {
    let r = search_http_response(Err("connection reset".to_string()), &vec![]);
    assert_eq!(r.status, 500);
    assert_eq!(r.body, "connection reset");
}

#[test]
fn failed_language_fetch_drops_only_that_item() {
    let page = SearchPage {
        items: vec![
            record("{\"id\":1}", Some("https://x/1/languages")),
            record("{\"id\":2}", Some("https://x/2/languages")),
            record("{\"id\":3}", Some("https://x/3/languages")),
        ],
        total_count: Some(3),
        incomplete_results: Some(false),
    };
    let fetches = vec![
        Ok((200, "{\"Go\":7}".to_string())),
        Ok((404, "missing".to_string())),
        Ok((200, "{\"C\":1}".to_string())),
    ];
    let r = search_http_response(Ok(page), &fetches);
    assert_eq!(r.status, 200);
    assert!(!r.body.contains("{\"id\":2}"));
    assert_eq!(
        r.body,
        "[{\"repo\":{\"id\":1},\"languages\":{\"Go\":7}},{\"repo\":{\"id\":3},\"languages\":{\"C\":1}}]"
    );
}

#[test]
fn unparsable_language_body_drops_the_item() {
    let page = SearchPage {
        items: vec![record("{\"id\":1}", Some("https://x/1/languages"))],
        total_count: Some(1),
        incomplete_results: Some(false),
    };
    let fetches = vec![Ok((200, "not json".to_string()))];
    let r = search_http_response(Ok(page), &fetches);
    assert_eq!(r.status, 200);
    assert_eq!(r.body, "[]");
}

#[test]
fn transport_failure_on_language_fetch_drops_the_item() {
    let page = SearchPage {
        items: vec![record("{\"id\":1}", Some("https://x/1/languages"))],
        total_count: Some(1),
        incomplete_results: Some(false),
    };
    let fetches = vec![Err("timed out".to_string())];
    let r = search_http_response(Ok(page), &fetches);
    assert_eq!(r.status, 200);
    assert_eq!(r.body, "[]");
}

#[test]
fn metadata_bad_status_names_the_status_code() {
    let out = repository_metadata_outcome(Ok((404, "not found".to_string())));
    let e = out.err().expect("non-success status must fail");
    assert_eq!(e.status, 500);
    assert_eq!(e.message, "Error fetching repository data. Status code: 404");
    assert!(e.message.contains("404"));
}

#[test]
fn metadata_transport_failure_carries_its_text() {
    let out = repository_metadata_outcome(Err("dns failure".to_string()));
    let e = out.err().expect("transport failure must fail");
    assert_eq!(e.status, 500);
    assert_eq!(e.message, "dns failure");
}

#[test]
fn metadata_success_passes_the_body_through() {
    let out = repository_metadata_outcome(Ok((200, "{\"id\":9}".to_string())));
    assert_eq!(out.ok().expect("success status must succeed"), "{\"id\":9}");
}

#[test]
fn detail_success_pairs_record_and_languages() {
    let repo = record("{\"id\":9}", Some("https://x/9/languages"));
    let r = detail_http_response(repo, &Ok((200, "{\"Rust\":10}".to_string())));
    assert_eq!(r.status, 200);
    assert_eq!(r.body, "{\"repo\":{\"id\":9},\"languages\":{\"Rust\":10}}");
}

#[test]
fn detail_language_bad_status_names_the_status_code() {
    let repo = record("{\"id\":9}", Some("https://x/9/languages"));
    let r = detail_http_response(repo, &Ok((503, "busy".to_string())));
    assert_eq!(r.status, 500);
    assert_eq!(r.body, "Error fetching language data. Status code: 503");
}

#[test]
fn detail_language_transport_failure_carries_its_text() {
    let repo = record("{\"id\":9}", Some("https://x/9/languages"));
    let r = detail_http_response(repo, &Err("socket closed".to_string()));
    assert_eq!(r.status, 500);
    assert_eq!(r.body, "socket closed");
}

#[test]
fn cors_headers_present_on_every_route_and_outcome() {
    let ok_page = SearchPage {
        items: vec![record("{\"id\":1}", Some("https://x/1/languages"))],
        total_count: Some(1),
        incomplete_results: Some(false),
    };
    let search_ok = search_http_response(Ok(ok_page), &vec![Ok((200, "{}".to_string()))]);
    assert!(has_cors(&search_ok.headers));

    let search_err = search_http_response(Err("boom".to_string()), &vec![]);
    assert!(has_cors(&search_err.headers));

    let detail_ok = detail_http_response(
        record("{\"id\":9}", None),
        &Ok((200, "{}".to_string())),
    );
    assert!(has_cors(&detail_ok.headers));

    let detail_err = detail_http_response(record("{\"id\":9}", None), &Err("boom".to_string()));
    assert!(has_cors(&detail_err.headers));
}

#[test]
fn content_type_matches_the_outcome() {
    let page = SearchPage {
        items: vec![],
        total_count: Some(0),
        incomplete_results: Some(false),
    };
    let search_ok = search_http_response(Ok(page), &vec![]);
    assert!(has_header(&search_ok.headers, "content-type", "application/json"));

    let search_err = search_http_response(Err("boom".to_string()), &vec![]);
    assert!(has_header(
        &search_err.headers,
        "content-type",
        "text/plain; charset=utf-8"
    ));

    let detail_err = detail_http_response(record("{}", None), &Err("boom".to_string()));
    assert!(has_header(
        &detail_err.headers,
        "content-type",
        "text/plain; charset=utf-8"
    ));
}

#[test]
fn repeated_request_gives_byte_identical_output() {
    let page = || SearchPage {
        items: vec![
            record("{\"id\":1}", Some("https://x/1/languages")),
            record("{\"id\":2}", Some("https://x/2/languages")),
        ],
        total_count: Some(2),
        incomplete_results: Some(false),
    };
    let fetches = vec![
        Ok((200, "{\"Rust\":5,\"C\":3}".to_string())),
        Ok((404, "gone".to_string())),
    ];
    let first = search_http_response(Ok(page()), &fetches);
    let second = search_http_response(Ok(page()), &fetches);
    assert_eq!(first.body, second.body);
    assert_eq!(first.status, second.status);

    let d1 = detail_http_response(record("{\"id\":9}", None), &Ok((200, "{\"C\":1}".to_string())));
    let d2 = detail_http_response(record("{\"id\":9}", None), &Ok((200, "{\"C\":1}".to_string())));
    assert_eq!(d1.body, d2.body);
    assert_eq!(d1.status, d2.status);
}

#[test]
fn decimal_rendering_is_exact() {
    assert_eq!(u64_to_dec(0), "0");
    assert_eq!(u64_to_dec(7), "7");
    assert_eq!(u64_to_dec(207), "207");
    assert_eq!(u64_to_dec(u64::MAX), "18446744073709551615");
}

#[test]
fn json_escaping_is_exact() {
    assert_eq!(json_escape("plain"), "plain");
    assert_eq!(json_escape("a\"b"), "a\\\"b");
    assert_eq!(json_escape("a\\b"), "a\\\\b");
    assert_eq!(json_escape("a\nb\rc\td"), "a\\nb\\rc\\td");
    assert_eq!(json_escape("\u{1}\u{1f}"), "\\u0001\\u001f");
    assert_eq!(json_escape("héllo"), "héllo");
}

#[test]
fn language_names_are_escaped_in_output() {
    let repo = record("{\"id\":9}", None);
    let r = detail_http_response(repo, &Ok((200, "{\"C\\\"X\":4}".to_string())));
    assert_eq!(r.status, 200);
    assert_eq!(r.body, "{\"repo\":{\"id\":9},\"languages\":{\"C\\\"X\":4}}");
}
