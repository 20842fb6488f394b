use kavya::config::Config;
use kavya::error::SourceError;
use kavya::json::Json;
use kavya::mapper::{
    collect_labels, make_cover_url, make_page_url, map_chapter_pages, map_detail, map_series,
    map_series_list, publication_status,
};
use kavya::model::{CatalogEntry, Page, PublicationStatus};
use kavya::operation::map_listing_page;
use kavya::pagination::has_more;
use kavya::request::Method;
use kavya::router::{
    listing_kind, listing_spec, make_listing_body, make_listing_url, make_request_with_body, resolve,
    select_kind, ListingKind, PAGE_SIZE,
};

fn config() -> Config {
    Config { api_url: "http://host/api".to_string(), api_key: "abc".to_string() }
}

fn object(members: Vec<(&str, Json)>) -> Json {
    Json::Object(members.into_iter().map(|(k, v)| (k.to_string(), v)).collect())
}

fn text(s: &str) -> Json {
    Json::Text(s.to_string())
}

fn series(id: i64, name: &str) -> Json {
    object(vec![("id", Json::Int(id)), ("name", text(name))])
}

fn named(key: &str, names: &[&str]) -> Json {
    Json::Array(names.iter().map(|n| object(vec![(key, text(n))])).collect())
}

fn metadata(genres: &[&str], tags: &[&str], status: i64) -> Json {
    object(vec![
        ("pencillers", named("name", &["Ann", "Bob"])),
        ("writers", named("name", &["Cy"])),
        ("genres", named("title", genres)),
        ("tags", named("title", tags)),
        ("summary", text("A story.")),
        ("publicationStatus", Json::Int(status)),
    ])
}

fn listed(id: &str, title: &str) -> CatalogEntry {
    CatalogEntry {
        id: id.to_string(),
        title: title.to_string(),
        cover_url: format!("http://host/api/image/series-cover?seriesId={}&apiKey=abc", id),
        author: String::new(),
        artist: String::new(),
        description: String::new(),
        categories: Vec::new(),
        status: PublicationStatus::Unknown,
    }
}

#[test]
fn full_page_reports_more() {
    for kind in [ListingKind::All, ListingKind::OnDeck, ListingKind::NewlyAdded, ListingKind::WantToRead]
    {
        assert!(has_more(40, kind));
        for count in [0usize, 1, 39] {
            assert!(!has_more(count, kind));
        }
        assert!(!has_more(41, kind));
    }
}

#[test]
fn recently_updated_never_reports_more() {
    for count in [0usize, 1, 39, 40, 41, 400] {
        assert!(!has_more(count, ListingKind::RecentlyUpdated));
    }
}

#[test]
fn search_never_reports_more() {
    for count in [0usize, 39, 40, 41] {
        assert!(!has_more(count, ListingKind::Search));
    }
}

#[test]
fn page_size_is_forty() {
    assert_eq!(PAGE_SIZE, 40);
}

#[test]
fn maps_a_series_object() {
    let entry = map_series(&series(12, "Foo"), "id", "name", &config()).unwrap();
    assert_eq!(entry.id, "12");
    assert_eq!(entry.title, "Foo");
    assert_eq!(entry.cover_url, "http://host/api/image/series-cover?seriesId=12&apiKey=abc");
    assert_eq!(entry, listed("12", "Foo"));
}

#[test]
fn maps_a_series_object_through_other_field_names() {
    let json = object(vec![("seriesName", text("Bar")), ("seriesId", Json::Int(-3))]);
    assert_eq!(map_series(&json, "seriesId", "seriesName", &config()), Ok(listed("-3", "Bar")));
    assert_eq!(map_series(&json, "id", "name", &config()), Err(SourceError::Parse));
}

#[test]
fn series_object_must_hold_both_fields_with_their_types() {
    let c = config();
    assert_eq!(map_series(&object(vec![("id", Json::Int(1))]), "id", "name", &c), Err(SourceError::Parse));
    assert_eq!(map_series(&object(vec![("name", text("x"))]), "id", "name", &c), Err(SourceError::Parse));
    assert_eq!(
        map_series(&object(vec![("id", text("1")), ("name", text("x"))]), "id", "name", &c),
        Err(SourceError::Parse)
    );
    assert_eq!(
        map_series(&object(vec![("id", Json::Int(1)), ("name", Json::Null)]), "id", "name", &c),
        Err(SourceError::Parse)
    );
    assert_eq!(map_series(&Json::Array(vec![]), "id", "name", &c), Err(SourceError::Parse));
    assert_eq!(map_series(&Json::Other, "id", "name", &c), Err(SourceError::Parse));
}

#[test]
fn lookup_takes_the_first_member_of_a_name() {
    let json = object(vec![("id", Json::Int(1)), ("id", Json::Int(2)), ("name", text("x"))]);
    assert_eq!(map_series(&json, "id", "name", &config()).unwrap().id, "1");
    assert_eq!(json.get_int("id"), Some(1));
    assert_eq!(json.get_text("name"), Some("x"));
    assert_eq!(json.get_bool("name"), None);
    assert!(json.get("missing").is_none());
    assert!(json.get_array("id").is_none());
}

#[test]
fn maps_a_listing_in_order_or_not_at_all() {
    let c = config();
    let response = Json::Array(vec![series(1, "A"), series(2, "B"), series(3, "C")]);
    assert_eq!(
        map_series_list(&response, "id", "name", &c),
        Ok(vec![listed("1", "A"), listed("2", "B"), listed("3", "C")])
    );
    assert_eq!(map_series_list(&Json::Array(vec![]), "id", "name", &c), Ok(vec![]));
    let broken = Json::Array(vec![series(1, "A"), Json::Null, series(3, "C")]);
    assert_eq!(map_series_list(&broken, "id", "name", &c), Err(SourceError::Parse));
    assert_eq!(map_series_list(&series(1, "A"), "id", "name", &c), Err(SourceError::Parse));
}

#[test]
fn listing_page_carries_the_guess() {
    let c = config();
    let full = Json::Array((0..40).map(|i| series(i, "S")).collect());
    let page = map_listing_page(ListingKind::All, &full, &c).unwrap();
    assert_eq!(page.entries.len(), 40);
    assert!(page.has_more);
    assert!(!map_listing_page(ListingKind::Search, &full, &c).unwrap().has_more);
    let short = Json::Array((0..39).map(|i| series(i, "S")).collect());
    assert!(!map_listing_page(ListingKind::All, &short, &c).unwrap().has_more);
    let updated = Json::Array(
        (0..40)
            .map(|i| object(vec![("seriesId", Json::Int(i)), ("seriesName", text("S"))]))
            .collect(),
    );
    let page = map_listing_page(ListingKind::RecentlyUpdated, &updated, &c).unwrap();
    assert_eq!(page.entries.len(), 40);
    assert_eq!(page.entries[7].id, "7");
    assert!(!page.has_more);
    assert_eq!(map_listing_page(ListingKind::RecentlyUpdated, &full, &c), Err(SourceError::Parse));
}

#[test]
fn status_codes_map_to_their_status() {
    assert_eq!(publication_status(0), PublicationStatus::Ongoing);
    assert_eq!(publication_status(1), PublicationStatus::Hiatus);
    assert_eq!(publication_status(2), PublicationStatus::Completed);
    assert_eq!(publication_status(3), PublicationStatus::Cancelled);
    for code in [-1i64, 4, 5, 100, i64::MIN, i64::MAX] {
        assert_eq!(publication_status(code), PublicationStatus::Unknown);
    }
}

#[test]
fn categories_are_genres_then_tags() {
    let entry = map_detail("12", &series(12, "Foo"), &metadata(&["A", "B"], &["C"], 0), &config()).unwrap();
    assert_eq!(entry.categories, vec!["A".to_string(), "B".to_string(), "C".to_string()]);
}

#[test]
fn composes_the_full_entry() {
    let entry = map_detail("12", &series(12, "Foo"), &metadata(&["A"], &[], 2), &config()).unwrap();
    assert_eq!(
        entry,
        CatalogEntry {
            id: "12".to_string(),
            title: "Foo".to_string(),
            cover_url: "http://host/api/image/series-cover?seriesId=12&apiKey=abc".to_string(),
            author: "Ann, Bob".to_string(),
            artist: "Cy".to_string(),
            description: "A story.".to_string(),
            categories: vec!["A".to_string()],
            status: PublicationStatus::Completed,
        }
    );
}

#[test]
fn full_entry_needs_every_part() {
    let c = config();
    let good = metadata(&["A"], &["B"], 1);
    assert!(map_detail("1", &series(1, "Foo"), &good, &c).is_ok());
    assert_eq!(map_detail("1", &Json::Null, &good, &c), Err(SourceError::Parse));
    assert_eq!(map_detail("1", &series(1, "Foo"), &Json::Null, &c), Err(SourceError::Parse));
    for missing in ["pencillers", "writers", "genres", "tags", "summary", "publicationStatus"] {
        let members = match metadata(&["A"], &["B"], 1) {
            Json::Object(members) => members.into_iter().filter(|(k, _)| k != missing).collect(),
            _ => unreachable!(),
        };
        assert_eq!(
            map_detail("1", &series(1, "Foo"), &Json::Object(members), &c),
            Err(SourceError::Parse),
            "{}",
            missing
        );
    }
    let unnamed = object(vec![
        ("pencillers", Json::Array(vec![object(vec![("title", text("Ann"))])])),
        ("writers", named("name", &[])),
        ("genres", named("title", &[])),
        ("tags", named("title", &[])),
        ("summary", text("")),
        ("publicationStatus", Json::Int(0)),
    ]);
    assert_eq!(map_detail("1", &series(1, "Foo"), &unnamed, &c), Err(SourceError::Parse));
}

#[test]
fn collects_labels_in_order() {
    let items = match named("name", &["x", "y"]) {
        Json::Array(items) => items,
        _ => unreachable!(),
    };
    assert_eq!(collect_labels(&items, "name"), Some(vec!["x".to_string(), "y".to_string()]));
    assert_eq!(collect_labels(&items, "title"), None);
    assert_eq!(collect_labels(&Vec::new(), "name"), Some(vec![]));
}

#[test]
fn composes_image_addresses() {
    let c = config();
    assert_eq!(make_cover_url(&c, "12"), "http://host/api/image/series-cover?seriesId=12&apiKey=abc");
    assert_eq!(
        make_page_url(&c, "77", 0),
        "http://host/api/Reader/image?chapterId=77&page=0&apiKey=abc&extractPdf=true"
    );
}

#[test]
fn pages_are_addressed_from_zero_and_shown_from_one() {
    let c = config();
    let pages = map_chapter_pages(&object(vec![("pages", Json::Int(3))]), "77", &c).unwrap();
    let url = |i: i64| format!("http://host/api/Reader/image?chapterId=77&page={}&apiKey=abc&extractPdf=true", i);
    assert_eq!(
        pages,
        vec![
            Page { index: 1, url: url(0) },
            Page { index: 2, url: url(1) },
            Page { index: 3, url: url(2) },
        ]
    );
}

#[test]
fn a_chapter_without_pages_has_none() {
    let c = config();
    assert_eq!(map_chapter_pages(&object(vec![("pages", Json::Int(0))]), "77", &c), Ok(vec![]));
    assert_eq!(map_chapter_pages(&object(vec![("pages", Json::Int(-5))]), "77", &c), Ok(vec![]));
    assert_eq!(map_chapter_pages(&object(vec![("pages", text("3"))]), "77", &c), Err(SourceError::Parse));
    assert_eq!(map_chapter_pages(&object(vec![]), "77", &c), Err(SourceError::Parse));
    assert_eq!(map_chapter_pages(&Json::Null, "77", &c), Err(SourceError::Parse));
}

#[test]
fn listing_names_resolve_to_their_view() {
    assert_eq!(listing_kind("On Deck"), ListingKind::OnDeck);
    assert_eq!(listing_kind("Recently Updated"), ListingKind::RecentlyUpdated);
    assert_eq!(listing_kind("Newly Added"), ListingKind::NewlyAdded);
    assert_eq!(listing_kind("Want To Read"), ListingKind::WantToRead);
    assert_eq!(listing_kind("Something Else"), ListingKind::All);
    assert_eq!(listing_kind("on deck"), ListingKind::All);
    assert_eq!(listing_kind(""), ListingKind::All);
}

#[test]
fn a_query_wins_over_a_listing_name() {
    assert_eq!(select_kind("naruto", "On Deck"), ListingKind::Search);
    assert_eq!(select_kind("naruto", ""), ListingKind::Search);
    assert_eq!(select_kind("", "On Deck"), ListingKind::OnDeck);
    assert_eq!(select_kind("", ""), ListingKind::All);
    assert_eq!(select_kind("", "nonsense"), ListingKind::All);
}

#[test]
fn only_recently_updated_differs_in_its_fields() {
    for kind in [
        ListingKind::All,
        ListingKind::OnDeck,
        ListingKind::NewlyAdded,
        ListingKind::WantToRead,
        ListingKind::Search,
    ] {
        let spec = listing_spec(kind);
        assert_eq!((spec.id_field, spec.title_field, spec.paged), ("id", "name", true));
        assert_eq!(spec.method, Method::Post);
    }
    let spec = listing_spec(ListingKind::RecentlyUpdated);
    assert_eq!((spec.id_field, spec.title_field, spec.paged), ("seriesId", "seriesName", false));
    assert_eq!(spec.method, Method::Post);
}

#[test]
fn composes_listing_addresses() {
    let c = config();
    assert_eq!(make_listing_url(&c, ListingKind::All, 1), "http://host/api/Series/all?PageNumber=1&PageSize=40");
    assert_eq!(
        make_listing_url(&c, ListingKind::OnDeck, 2),
        "http://host/api/Series/on-deck?PageNumber=2&PageSize=40"
    );
    assert_eq!(
        make_listing_url(&c, ListingKind::RecentlyUpdated, 3),
        "http://host/api/Series/recently-updated-series"
    );
    assert_eq!(
        make_listing_url(&c, ListingKind::NewlyAdded, 4),
        "http://host/api/Series/recently-added?PageNumber=4&PageSize=40"
    );
    assert_eq!(
        make_listing_url(&c, ListingKind::WantToRead, 5),
        "http://host/api/want-to-read?PageNumber=5&PageSize=40"
    );
    assert_eq!(make_listing_url(&c, ListingKind::Search, -1), "http://host/api/Series?PageNumber=-1&PageSize=40");
}

#[test]
fn search_body_wraps_the_query() {
    assert_eq!(make_listing_body(ListingKind::Search, "one piece"), "{\"seriesNameQuery\":\"one piece\"}");
    assert_eq!(make_listing_body(ListingKind::All, "one piece"), "{}");
    assert_eq!(make_listing_body(ListingKind::RecentlyUpdated, ""), "{}");
}

#[test]
fn search_body_escapes_the_query() {
    let query = "say \"hi\"\\\n\tça";
    let body = make_listing_body(ListingKind::Search, query);
    assert_eq!(body, "{\"seriesNameQuery\":\"say \\\"hi\\\"\\\\\\n\\tça\"}");
    let parsed: serde_json::Value = serde_json::from_str(&body).unwrap();
    assert_eq!(parsed["seriesNameQuery"], serde_json::Value::String(query.to_string()));
    assert_eq!(parsed.as_object().unwrap().len(), 1);
}

#[test]
fn resolves_a_named_listing() {
    let request = resolve(&config(), "Bearer t", "", "Want To Read", 2);
    assert_eq!(request.method, Method::Post);
    assert_eq!(request.url, "http://host/api/want-to-read?PageNumber=2&PageSize=40");
    assert_eq!(request.authorization, Some("Bearer t".to_string()));
    assert_eq!(request.json_body, Some("{}".to_string()));
}

#[test]
fn resolves_a_search() {
    let request = resolve(&config(), "Bearer t", "foo", "Want To Read", 1);
    assert_eq!(request.method, Method::Post);
    assert_eq!(request.url, "http://host/api/Series?PageNumber=1&PageSize=40");
    assert_eq!(request.authorization, Some("Bearer t".to_string()));
    assert_eq!(request.json_body, Some("{\"seriesNameQuery\":\"foo\"}".to_string()));
}

#[test]
fn unknown_listing_falls_back_to_all_series() {
    let request = resolve(&config(), "Bearer t", "", "No Such Listing", 1);
    assert_eq!(request.url, "http://host/api/Series/all?PageNumber=1&PageSize=40");
    assert_eq!(request, resolve(&config(), "Bearer t", "", "", 1));
}

#[test]
fn request_is_assembled_around_the_body() {
    let request = make_request_with_body(&config(), "h", ListingKind::OnDeck, 9, "BODY".to_string());
    assert_eq!(request.url, "http://host/api/Series/on-deck?PageNumber=9&PageSize=40");
    assert_eq!(request.json_body, Some("BODY".to_string()));
    assert_eq!(request.authorization, Some("h".to_string()));
}
