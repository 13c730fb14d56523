use app_store_reviews::export::{export_rows, header, App};
use app_store_reviews::review::{
    AppStoreReview, AppStoreReviewAuthor, AppStoreReviewEntry, AppStoreReviewFeed, AppStoreReviews,
    Review,
};
use app_store_reviews::json::{get_member, Json, Member};
use app_store_reviews::page::{page_envelope, page_reviews, PageNote, PageResult};
use app_store_reviews::scraper::{decimal_string, AppStoreScraper, Crawl};

fn to_json(v: serde_json::Value) -> Json {
    match v {
        serde_json::Value::Null => Json::Null,
        serde_json::Value::Bool(b) => Json::Bool(b),
        serde_json::Value::Number(n) => Json::Number(n.to_string()),
        serde_json::Value::String(s) => Json::Str(s),
        serde_json::Value::Array(a) => Json::Array(a.into_iter().map(to_json).collect()),
        serde_json::Value::Object(o) => Json::Object(
            o.into_iter().map(|(key, value)| Member { key, value: to_json(value) }).collect(),
        ),
    }
}

fn doc(text: &str) -> Option<Json> {
    serde_json::from_str::<serde_json::Value>(text).ok().map(to_json)
}

fn received(text: &str) -> PageResult {
    PageResult::Received(doc(text))
}

fn entries_json(n: usize) -> String {
    let items: Vec<String> = (0..n)
        .map(|i| format!(r#"{{"id":{{"label":"id{}"}},"im:rating":{{"label":"4"}}}}"#, i))
        .collect();
    format!(r#"{{"feed":{{"entry":[{}]}}}}"#, items.join(","))
}

fn label(s: &str) -> AppStoreReviewEntry {
    AppStoreReviewEntry { label: s.to_string() }
}

fn entry(id: &str, score: &str, name: &str, title: &str, content: &str, updated: &str) -> AppStoreReview {
    AppStoreReview {
        id: label(id),
        score: label(score),
        author: AppStoreReviewAuthor { name: label(name) },
        title: label(title),
        content: label(content),
        updated: label(updated),
    }
}

fn envelope(entries: Vec<AppStoreReview>) -> AppStoreReviews {
    AppStoreReviews { feed: AppStoreReviewFeed { entry: entries } }
}

fn fields(r: &Review) -> Vec<String> {
    r.fields()
}

fn strings(v: &[&str]) -> Vec<String> {
    v.iter().map(|s| s.to_string()).collect()
}

#[test]
fn single_entry_envelope_gives_one_record() {
    let body = r#"{"feed":{"entry":[{"id":{"label":"r1"},"im:rating":{"label":"5"},"author":{"name":{"label":"Alice"}},"title":{"label":"Great"},"content":{"label":"Loved it"},"updated":{"label":"2024-01-01"}}]}}"#;
    let reviews = page_reviews(&doc(body));
    assert_eq!(reviews.len(), 1);
    assert_eq!(
        fields(&reviews[0]),
        strings(&["r1", "5", "Alice", "Great", "Loved it", "2024-01-01", "App Store"])
    );
}

#[test]
fn entries_keep_their_order_and_absent_fields_are_empty() {
    let body = r#"{"feed":{"entry":[
        {"id":{"label":"r1"},"im:rating":{"label":"1"},"author":{"name":{"label":"A"}},"title":{"label":"t1"},"content":{"label":"c1"},"updated":{"label":"u1"}},
        {"id":{"label":"r2"},"score":{"label":"2"},"author":{"name":{"label":"B"},"uri":{"label":"x"}},"title":{"label":"t2"},"content":{"label":"c2","attributes":{"type":"text"}},"updated":{"label":"u2"}},
        {"id":{"label":"r3"},"author":{},"title":{}}
    ]}}"#;
    let reviews = page_reviews(&doc(body));
    assert_eq!(reviews.len(), 3);
    assert_eq!(fields(&reviews[0]), strings(&["r1", "1", "A", "t1", "c1", "u1", "App Store"]));
    assert_eq!(fields(&reviews[1]), strings(&["r2", "2", "B", "t2", "c2", "u2", "App Store"]));
    assert_eq!(fields(&reviews[2]), strings(&["r3", "", "", "", "", "", "App Store"]));
}

#[test]
fn rating_key_is_preferred_over_score() {
    let body = r#"{"feed":{"entry":[{"score":{"label":"1"},"im:rating":{"label":"3"}}]}}"#;
    let reviews = page_reviews(&doc(body));
    assert_eq!(reviews.len(), 1);
    assert_eq!(reviews[0].score, "3");
}

#[test]
fn empty_envelope_gives_no_records() {
    for body in [r#"{"feed":{"entry":[]}}"#, r#"{"feed":{}}"#, r#"{"feed":{"author":{}}}"#, r#"{}"#] {
        assert_eq!(page_reviews(&doc(body)).len(), 0);
        assert_eq!(page_envelope(&doc(body)).unwrap().feed.entry.len(), 0);
    }
    assert_eq!(AppStoreReviews::empty().to_reviews().len(), 0);
    assert_eq!(envelope(vec![]).to_reviews().len(), 0);
}

#[test]
fn unparsable_body_gives_no_records() {
    assert!(doc("<html>not json</html>").is_none());
    assert_eq!(page_reviews(&doc("<html>not json</html>")).len(), 0);
    assert_eq!(page_reviews(&doc("")).len(), 0);
    assert_eq!(page_reviews(&None).len(), 0);
}

#[test]
fn malformed_documents_give_no_records() {
    for body in [
        r#"[1, 2]"#,
        r#"{"feed":[]}"#,
        r#"{"feed":{"entry":{"id":{"label":"single"}}}}"#,
        r#"{"feed":{"entry":[{"id":{"label":"ok"}}, 7]}}"#,
        r#"{"feed":{"entry":[{"id":{"label":5}}]}}"#,
        r#"{"feed":{"entry":[{"author":{"name":"plain"}}]}}"#,
    ] {
        assert!(doc(body).is_some());
        assert!(page_envelope(&doc(body)).is_none());
        assert_eq!(page_reviews(&doc(body)).len(), 0);
    }
}

#[test]
fn member_lookup_finds_the_named_value() {
    let members = vec![
        Member { key: "a".to_string(), value: Json::Null },
        Member { key: "b".to_string(), value: Json::Str("x".to_string()) },
    ];
    assert!(matches!(get_member(&members, "b"), Some(Json::Str(s)) if s == "x"));
    assert!(matches!(get_member(&members, "a"), Some(Json::Null)));
    assert!(get_member(&members, "c").is_none());
}

#[test]
fn entries_map_to_records() {
    let reviews = envelope(vec![
        entry("r1", "1", "A", "t1", "c1", "u1"),
        entry("r2", "2", "B", "t2", "c2", "u2"),
    ])
    .to_reviews();
    assert_eq!(reviews.len(), 2);
    assert_eq!(fields(&reviews[1]), strings(&["r2", "2", "B", "t2", "c2", "u2", "App Store"]));
}

#[test]
fn record_notes_what_each_page_held() {
    let mut crawl = Crawl::new(AppStoreScraper::new("1".to_string()));
    let n = crawl.record(received(&entries_json(2)));
    assert!(matches!(n, Some(PageNote::Entries(2))));
    let n = crawl.record(received(r#"{"feed":{"entry":[]}}"#));
    assert!(matches!(n, Some(PageNote::NoEntries)));
    let n = crawl.record(received("not json"));
    assert!(matches!(n, Some(PageNote::Unreadable)));
    let n = crawl.record(received(r#"{"feed":7}"#));
    assert!(matches!(n, Some(PageNote::Unreadable)));
    assert_eq!(crawl.step, 4);
    assert_eq!(crawl.reviews.len(), 2);
}

#[test]
fn default_scraper_issues_thirty_requests_in_order() {
    let scraper = AppStoreScraper::new("1462608349".to_string());
    assert_eq!(scraper.regions, strings(&["cn", "us"]));
    assert_eq!(scraper.pages, 10);
    assert_eq!(scraper.request_total(), Some(30));
    let mut crawl = Crawl::new(scraper);
    let mut urls: Vec<String> = Vec::new();
    while let Some(req) = crawl.next_request() {
        urls.push(req.url);
        crawl.record(PageResult::Received(None));
    }
    assert_eq!(urls.len(), 30);
    for p in 1..=10 {
        assert_eq!(
            urls[p - 1],
            format!("https://itunes.apple.com/rss/customerreviews/id=1462608349/sortBy=mostRecent/page={}/json", p)
        );
        assert_eq!(
            urls[9 + p],
            format!("https://itunes.apple.com/cn/rss/customerreviews/id=1462608349/sortBy=mostRecent/page={}/json", p)
        );
        assert_eq!(
            urls[19 + p],
            format!("https://itunes.apple.com/us/rss/customerreviews/id=1462608349/sortBy=mostRecent/page={}/json", p)
        );
    }
    let reviews = crawl.finish().ok().unwrap();
    assert_eq!(reviews.len(), 0);
}

#[test]
fn requests_carry_region_and_page() {
    let scraper = AppStoreScraper::with_config("9".to_string(), strings(&["jp"]), 2);
    let mut crawl = Crawl::new(scraper);
    let mut seen: Vec<(Option<String>, u32)> = Vec::new();
    while let Some(req) = crawl.next_request() {
        seen.push((req.region, req.page));
        crawl.record(PageResult::Received(None));
    }
    assert_eq!(
        seen,
        vec![(None, 1), (None, 2), (Some("jp".to_string()), 1), (Some("jp".to_string()), 2)]
    );
}

#[test]
fn zero_pages_means_no_requests() {
    let scraper = AppStoreScraper::with_config("9".to_string(), strings(&["jp"]), 0);
    assert_eq!(scraper.request_total(), Some(0));
    let crawl = Crawl::new(scraper);
    assert!(crawl.next_request().is_none());
    assert_eq!(crawl.finish().ok().unwrap().len(), 0);
}

#[test]
fn output_has_header_and_one_row_per_fetched_record() {
    let scraper = AppStoreScraper::with_config("7".to_string(), strings(&["cn", "us"]), 2);
    let mut crawl = Crawl::new(scraper);
    let mut k = 0;
    while crawl.next_request().is_some() {
        // pages hold 0, 1, 2, 0, 1, 2 entries; the same id recurs across pages
        crawl.record(received(&entries_json(k % 3)));
        k += 1;
    }
    assert_eq!(k, 6);
    let reviews = crawl.finish().ok().unwrap();
    assert_eq!(reviews.len(), 6);
    let rows = export_rows(&reviews);
    assert_eq!(rows.len(), 7);
    assert_eq!(rows[0], strings(&["ID", "Score", "Name", "Title", "Text", "Updated", "Channel"]));
    assert_eq!(rows[1][0], "id0");
    assert_eq!(rows[2][0], "id0");
    assert_eq!(rows[3][0], "id1");
}

#[test]
fn exported_fields_are_verbatim() {
    let reviews = envelope(vec![entry(
        "r,1",
        "5",
        "Al \"the\" ice",
        "Line\nbreak",
        "",
        "2024-01-01T00:00:00-07:00",
    )])
    .to_reviews();
    let rows = export_rows(&reviews);
    assert_eq!(rows.len(), 2);
    assert_eq!(rows[0], header());
    assert_eq!(
        rows[1],
        strings(&["r,1", "5", "Al \"the\" ice", "Line\nbreak", "", "2024-01-01T00:00:00-07:00", "App Store"])
    );
}

#[test]
fn transport_failure_on_third_page_aborts_the_run() {
    let mut crawl = Crawl::new(AppStoreScraper::new("1462608349".to_string()));
    let first = crawl.next_request().unwrap();
    assert_eq!(first.page, 1);
    crawl.record(received(&entries_json(1)));
    crawl.next_request().unwrap();
    crawl.record(received(&entries_json(1)));
    assert_eq!(crawl.reviews.len(), 2);
    let third = crawl.next_request().unwrap();
    assert_eq!(third.page, 3);
    assert!(third.region.is_none());
    let note = crawl.record(PageResult::TransportFailed);
    assert!(note.is_none());
    assert!(crawl.next_request().is_none());
    assert_eq!(crawl.reviews.len(), 0);
    match crawl.finish() {
        Ok(_) => panic!("a failed run has no records"),
        Err(e) => {
            assert_eq!(e.app_id, "1462608349");
            assert_eq!(
                e.url,
                "https://itunes.apple.com/rss/customerreviews/id=1462608349/sortBy=mostRecent/page=3/json"
            );
        },
    }
}

#[test]
fn page_urls_for_both_shapes() {
    let s = AppStoreScraper::new("42".to_string());
    assert_eq!(
        s.page_url(&None, 12),
        "https://itunes.apple.com/rss/customerreviews/id=42/sortBy=mostRecent/page=12/json"
    );
    assert_eq!(
        s.page_url(&Some("de".to_string()), 1),
        "https://itunes.apple.com/de/rss/customerreviews/id=42/sortBy=mostRecent/page=1/json"
    );
}

#[test]
fn decimal_strings() {
    assert_eq!(decimal_string(0), "0");
    assert_eq!(decimal_string(7), "7");
    assert_eq!(decimal_string(10), "10");
    assert_eq!(decimal_string(305), "305");
    assert_eq!(decimal_string(4294967295), "4294967295");
}

#[test]
fn app_output_path_uses_display_name() {
    let app = App::new("1462608349", "Octofile");
    assert_eq!(app.id, "1462608349");
    assert_eq!(app.output_path(), "Octofile-reviews.csv");
}

#[test]
fn review_new_and_from_entry() {
    let r = Review::new(
        "i".to_string(),
        "s".to_string(),
        "n".to_string(),
        "t".to_string(),
        "x".to_string(),
        "u".to_string(),
        "c".to_string(),
    );
    assert_eq!(fields(&r), strings(&["i", "s", "n", "t", "x", "u", "c"]));
    let e = entry("i", "s", "n", "t", "x", "u");
    assert_eq!(fields(&Review::from(&e)), strings(&["i", "s", "n", "t", "x", "u", "App Store"]));
}
