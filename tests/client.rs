use raindrop::client::{
    handle_empty_response, handle_response, ApiRequest, HttpMethod, RaindropClient, ResponseBody,
    BASE_URL, INVALID_TOKEN_MESSAGE, MISSING_TOKEN_MESSAGE,
};
use raindrop::collection::CollectionResponse;
use raindrop::error::RaindropMcpError;
use raindrop::json::Json;
use raindrop::search::{DateRange, MediaFilter, SearchParams};
use raindrop::transfer::{ExportFormat, ExportOptions};
use raindrop::update::{BatchUpdate, BookmarkUpdate, CollectionUpdate};

const BASE: &str = "https://api.example.test/v1";

fn client() -> RaindropClient {
    RaindropClient::with_base_url(BASE.to_string(), Some("secret".to_string())).unwrap()
}

fn url(path: &str) -> String {
    format!("{BASE}{path}")
}

fn query(r: &ApiRequest) -> Vec<(&str, &str)> {
    r.query.iter().map(|(k, v)| (k.as_str(), v.as_str())).collect()
}

fn keys(j: &Json) -> Vec<String> {
    match j {
        Json::Object(fields) => fields.iter().map(|(k, _)| k.clone()).collect(),
        _ => panic!("expected an object"),
    }
}

fn read(text: &str, json: Result<Json, String>) -> ResponseBody {
    ResponseBody::Read { text: text.to_string(), json }
}

fn collection_item() -> Json {
    let s = |x: &str| Json::Str(x.to_string());
    let item = Json::Object(vec![
        ("_id".to_string(), Json::Int(5)),
        ("title".to_string(), s("Reading")),
        ("view".to_string(), s("grid")),
        ("sort".to_string(), Json::Int(1)),
        ("count".to_string(), Json::Int(2)),
        ("user".to_string(), Json::Object(vec![("$id".to_string(), Json::Int(9))])),
        ("created".to_string(), s("2023-01-01")),
        ("lastUpdate".to_string(), s("2023-01-02")),
    ]);
    Json::Object(vec![("item".to_string(), item)])
}

#[test]
fn construction_needs_a_token() {
    let err = RaindropClient::new(None).unwrap_err();
    match err {
        RaindropMcpError::EnvironmentVariable(m) => assert_eq!(m, MISSING_TOKEN_MESSAGE),
        other => panic!("unexpected {other:?}"),
    }
    assert!(RaindropClient::new(Some(String::new())).is_err());
    let c = RaindropClient::new(Some("t".to_string())).unwrap();
    assert_eq!(c.get_user_info().url, format!("{BASE_URL}/user"));
}

#[test]
fn default_headers_carry_the_bearer_token() {
    let headers = client().default_headers();
    assert_eq!(
        headers,
        vec![
            ("Authorization".to_string(), "Bearer secret".to_string()),
            ("Content-Type".to_string(), "application/json".to_string()),
        ]
    );
}

#[test]
fn read_requests_name_their_paths() {
    let c = client();
    assert_eq!(c.get_collections().url, url("/collections"));
    assert_eq!(c.get_collection(42).url, url("/collection/42"));
    assert_eq!(c.get_collection(-7).url, url("/collection/-7"));
    assert_eq!(c.get_child_collections(3).url, url("/collections/3/childrens"));
    assert_eq!(c.get_bookmark(1001).url, url("/raindrop/1001"));
    assert_eq!(c.get_tags(None).url, url("/tags"));
    assert_eq!(c.get_tags(Some(12)).url, url("/tags/12"));
    assert_eq!(c.get_highlights(8).url, url("/raindrop/8/highlights"));
    assert_eq!(c.get_user_stats(None).url, url("/user/stats"));
    assert_eq!(c.get_user_stats(Some(4)).url, url("/stats/collection/4"));
    assert_eq!(c.get_import_status().url, url("/import"));
    assert_eq!(c.get_export_status().url, url("/export"));
    assert_eq!(c.get_collection(i64::MIN).url, url("/collection/-9223372036854775808"));
    assert_eq!(c.get_collection(0).method, HttpMethod::Get);
    assert!(c.get_collection(0).body.is_none());
}

#[test]
fn bookmark_search_builds_its_query() {
    let params = SearchParams {
        search: Some("rust lang&more".to_string()),
        collection: Some(77),
        tags: Some(vec!["a".to_string(), "b".to_string()]),
        page: Some(2),
        per_page: Some(50),
        sort: Some("-created".to_string()),
        important: Some(true),
        ..SearchParams::default()
    };
    let r = client().get_bookmarks(&params);
    assert_eq!(r.url, url("/raindrops/77"));
    assert_eq!(
        query(&r),
        vec![
            ("search", "rust%20lang%26more"),
            ("collection", "77"),
            ("tag", "a"),
            ("tag", "b"),
            ("page", "2"),
            ("perpage", "50"),
            ("sort", "-created"),
            ("important", "true"),
        ]
    );
}

#[test]
fn bookmark_search_without_filters_lists_unsorted() {
    let r = client().get_bookmarks(&SearchParams::default());
    assert_eq!(r.url, url("/raindrops/0"));
    assert!(r.query.is_empty());
}

#[test]
fn all_highlights_are_paged() {
    let r = client().get_all_highlights(Some(1), None);
    assert_eq!(r.url, url("/highlights"));
    assert_eq!(query(&r), vec![("page", "1")]);
}

#[test]
fn create_collection_sends_title_and_visibility() {
    let r = client().create_collection("Reading".to_string(), true);
    assert_eq!(r.method, HttpMethod::Post);
    assert_eq!(r.url, url("/collection"));
    let body = r.body.unwrap();
    assert_eq!(keys(&body), vec!["title", "public"]);
    assert!(matches!(body.field("public"), Some(Json::Bool(true))));
}

#[test]
fn collection_update_sends_only_given_fields() {
    let updates = CollectionUpdate {
        title: Some("New".to_string()),
        public: None,
        view: Some("grid".to_string()),
        sort: None,
    };
    let r = client().update_collection(9, &updates);
    assert_eq!(r.method, HttpMethod::Put);
    assert_eq!(r.url, url("/collection/9"));
    assert_eq!(keys(&r.body.unwrap()), vec!["title", "view"]);
}

#[test]
fn share_collection_adds_emails_when_given() {
    let c = client();
    let r = c.share_collection(3, "viewer", None);
    assert_eq!(r.url, url("/collection/3/sharing"));
    assert_eq!(keys(r.body.as_ref().unwrap()), vec!["level"]);
    let r = c.share_collection(3, "member", Some(vec!["a@b.c".to_string()]));
    assert_eq!(keys(r.body.as_ref().unwrap()), vec!["level", "emails"]);
}

#[test]
fn create_bookmark_references_its_collection() {
    let r = client().create_bookmark(
        "https://example.com".to_string(),
        Some(0),
        Some("Example".to_string()),
        None,
        Some(vec!["x".to_string()]),
        None,
    );
    assert_eq!(r.url, url("/raindrop"));
    let body = r.body.unwrap();
    assert_eq!(keys(&body), vec!["link", "collection", "title", "tags"]);
    match body.field("collection") {
        Some(reference) => assert!(matches!(reference.field("$id"), Some(Json::Int(0)))),
        None => panic!("no collection"),
    }
}

#[test]
fn bookmark_update_omits_identity_and_unset_fields() {
    let updates = BookmarkUpdate {
        title: Some("T".to_string()),
        excerpt: None,
        note: Some("N".to_string()),
        tags: None,
        collection: Some(5),
        important: None,
    };
    let r = client().update_bookmark(31, &updates);
    assert_eq!(r.url, url("/raindrop/31"));
    let body = r.body.unwrap();
    assert_eq!(keys(&body), vec!["title", "note", "collection"]);
    assert!(body.field("id").is_none());
    assert!(body.field("_id").is_none());
}

#[test]
fn delete_bookmark_goes_to_trash_unless_permanent() {
    let c = client();
    assert_eq!(c.delete_bookmark(6, false).url, url("/raindrop/6/trash"));
    assert_eq!(c.delete_bookmark(6, true).url, url("/raindrop/6"));
    assert_eq!(c.delete_bookmark(6, true).method, HttpMethod::Delete);
}

#[test]
fn batch_delete_defaults_to_trash() {
    let c = client();
    let ids = vec![1, 2, 3];
    let soft = c.batch_delete_bookmarks(&ids, false);
    assert_eq!(soft.method, HttpMethod::Delete);
    assert_eq!(soft.url, url("/raindrops/trash"));
    match soft.body.unwrap().field("ids") {
        Some(Json::Array(items)) => assert_eq!(items.len(), 3),
        _ => panic!("no ids"),
    }
    assert_eq!(c.batch_delete_bookmarks(&ids, true).url, url("/raindrops"));
}

#[test]
fn batch_update_merges_ids_into_the_changes() {
    let updates = BatchUpdate { collection: Some(4), tags: None, important: Some(false) };
    let r = client().batch_update_bookmarks(&vec![10, 11], &updates);
    assert_eq!(r.method, HttpMethod::Put);
    assert_eq!(r.url, url("/raindrops"));
    assert_eq!(keys(&r.body.unwrap()), vec!["collection", "important", "ids"]);
}

#[test]
fn tag_operations_are_scoped_when_asked() {
    let c = client();
    let r = c.rename_tag("old".to_string(), "new".to_string(), Some(2));
    assert_eq!(r.url, url("/tags/2"));
    assert_eq!(keys(r.body.as_ref().unwrap()), vec!["replace", "tag"]);
    let r = c.delete_tags(vec!["gone".to_string()], None);
    assert_eq!(r.method, HttpMethod::Delete);
    assert_eq!(r.url, url("/tags"));
    assert_eq!(keys(r.body.as_ref().unwrap()), vec!["tags"]);
}

#[test]
fn empty_trash_targets_the_trash_collection() {
    let r = client().empty_trash();
    assert_eq!(r.method, HttpMethod::Delete);
    assert_eq!(r.url, url("/raindrops/-99"));
}

#[test]
fn export_sends_its_options() {
    let options = ExportOptions { collection: None, format: ExportFormat::Html, broken: None, duplicates: None };
    let r = client().export_bookmarks(&options);
    assert_eq!(r.method, HttpMethod::Post);
    assert_eq!(r.url, url("/export"));
    assert_eq!(keys(&r.body.unwrap()), vec!["collection", "format", "broken", "duplicates"]);
}

#[test]
fn success_decodes_the_body() {
    for status in [200u16, 201] {
        let r = handle_response::<CollectionResponse>(status, "u", &read("{}", Ok(collection_item())));
        assert_eq!(r.unwrap().item.id, 5);
    }
}

#[test]
fn unauthorized_names_the_url() {
    let r = handle_response::<CollectionResponse>(401, "https://x/y", &read("", Ok(Json::Null)));
    match r {
        Err(RaindropMcpError::Unauthorized(m)) => {
            assert_eq!(m, "Invalid or expired access token for https://x/y")
        },
        other => panic!("unexpected {other:?}"),
    }
}

#[test]
fn not_found_names_the_url() {
    let r = handle_response::<Json>(404, "https://x/z", &ResponseBody::Unreadable("e".to_string()));
    match r {
        Err(RaindropMcpError::NotFound(m)) => assert_eq!(m, "Resource not found: https://x/z"),
        other => panic!("unexpected {other:?}"),
    }
}

#[test]
fn other_statuses_quote_the_body() {
    let r = handle_response::<Json>(500, "u", &read("boom", Err("not json".to_string())));
    match r {
        Err(RaindropMcpError::RaindropApi(m, None)) => {
            assert_eq!(m, "API error (500 Internal Server Error): boom")
        },
        other => panic!("unexpected {other:?}"),
    }
    let r = handle_response::<Json>(429, "u", &ResponseBody::Unreadable("reset".to_string()));
    match r {
        Err(RaindropMcpError::RaindropApi(m, None)) => {
            assert_eq!(m, "API error (429 Too Many Requests): Unknown error")
        },
        other => panic!("unexpected {other:?}"),
    }
    let r = handle_response::<Json>(599, "u", &read("odd", Ok(Json::Null)));
    match r {
        Err(RaindropMcpError::RaindropApi(m, None)) => {
            assert_eq!(m, "API error (599 <unknown status code>): odd")
        },
        other => panic!("unexpected {other:?}"),
    }
}

#[test]
fn undecodable_success_is_a_serialization_error() {
    let r = handle_response::<CollectionResponse>(200, "u", &read("[]", Ok(Json::Array(vec![]))));
    assert!(matches!(r, Err(RaindropMcpError::JsonSerialization(_))));
    let r = handle_response::<CollectionResponse>(200, "u", &read("{", Err("EOF".to_string())));
    match r {
        Err(RaindropMcpError::JsonSerialization(m)) => assert_eq!(m, "EOF"),
        other => panic!("unexpected {other:?}"),
    }
    let r = handle_response::<Json>(201, "u", &ResponseBody::Unreadable("reset".to_string()));
    match r {
        Err(RaindropMcpError::HttpRequest(m)) => assert_eq!(m, "reset"),
        other => panic!("unexpected {other:?}"),
    }
}

#[test]
fn empty_success_skips_the_body() {
    assert!(handle_empty_response(200, "u", &read("OK", Err("x".to_string()))).is_ok());
    assert!(handle_empty_response(204, "u", &ResponseBody::Unreadable("x".to_string())).is_ok());
    assert!(handle_empty_response(201, "u", &read("{}", Ok(Json::Object(vec![])))).is_ok());
    assert!(handle_empty_response(201, "u", &read("?", Err("bad".to_string()))).is_err());
    assert!(matches!(
        handle_empty_response(404, "u", &read("", Ok(Json::Null))),
        Err(RaindropMcpError::NotFound(_))
    ));
}

#[test]
fn bookmark_search_sends_every_filter() {
    let params = SearchParams {
        media: Some(MediaFilter::Video),
        word: Some("exact phrase".to_string()),
        please_parse: Some(false),
        noparse: Some(true),
        since: Some("2024-01-01".to_string()),
        created: Some(DateRange { gte: Some("2023-01-01".to_string()), lte: Some("2023-12-31".to_string()) }),
        ..SearchParams::default()
    };
    let r = client().get_bookmarks(&params);
    assert_eq!(
        query(&r),
        vec![
            ("media", "video"),
            ("word", "exact%20phrase"),
            ("pleaseParse", "false"),
            ("noparse", "true"),
            ("since", "2024-01-01"),
            ("created%5B%24gte%5D", "2023-01-01"),
            ("created%5B%24lte%5D", "2023-12-31"),
        ]
    );
    let only_upper = SearchParams {
        created: Some(DateRange { gte: None, lte: Some("2023-12-31".to_string()) }),
        ..SearchParams::default()
    };
    assert_eq!(query(&client().get_bookmarks(&only_upper)), vec![("created%5B%24lte%5D", "2023-12-31")]);
}

#[test]
fn full_url_carries_the_encoded_query_once() {
    let params = SearchParams {
        search: Some("a b&c".to_string()),
        tags: Some(vec!["x y".to_string()]),
        ..SearchParams::default()
    };
    let r = client().get_bookmarks(&params);
    assert_eq!(r.full_url(), url("/raindrops/0?search=a%20b%26c&tag=x%20y"));
    assert_eq!(client().get_collections().full_url(), url("/collections"));
}

#[test]
fn new_bookmark_defaults_to_unsorted() {
    let r = client().create_bookmark("https://example.com".to_string(), None, None, None, None, None);
    match r.body.unwrap().field("collection") {
        Some(reference) => assert!(matches!(reference.field("$id"), Some(Json::Int(0)))),
        None => panic!("no collection"),
    }
}

#[test]
fn token_unfit_for_a_header_is_refused() {
    for bad in ["abc\ndef", "tab\u{7f}", "\u{1}x"] {
        match RaindropClient::new(Some(bad.to_string())) {
            Err(RaindropMcpError::EnvironmentVariable(m)) => assert_eq!(m, INVALID_TOKEN_MESSAGE),
            other => panic!("unexpected {other:?}"),
        }
    }
    assert!(RaindropClient::new(Some("with\ttab and caf\u{e9}".to_string())).is_ok());
}
