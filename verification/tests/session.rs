use std::sync::Mutex;

use kavya::config::Config;
use kavya::error::SourceError;
use kavya::fetch::{accept_answer, check_status, resume, start, Action, Pending};
use kavya::json::Json;
use kavya::model::PublicationStatus;
use kavya::operation::{
    list_operation, make_metadata_request, make_opening_request, title_query, Filter, Operation, Output,
};
use kavya::request::{Method, Request, STATUS_OK};
use kavya::session::{make_auth_request, read_token, AuthStep, Session};

fn config() -> Config {
    Config { api_url: "http://host/api".to_string(), api_key: "abc".to_string() }
}

fn object(members: Vec<(&str, Json)>) -> Json {
    Json::Object(members.into_iter().map(|(k, v)| (k.to_string(), v)).collect())
}

fn text(s: &str) -> Json {
    Json::Text(s.to_string())
}

fn token_body(token: &str) -> Json {
    object(vec![("token", text(token))])
}

fn auth_request() -> Request {
    Request {
        method: Method::Post,
        url: "http://host/api/Plugin/authenticate?apiKey=abc&pluginName=Kavya".to_string(),
        authorization: None,
        json_body: None,
    }
}

fn get(url: &str, header: &str) -> Request {
    Request {
        method: Method::Get,
        url: url.to_string(),
        authorization: Some(header.to_string()),
        json_body: None,
    }
}

fn sent(action: Action) -> (Request, Pending) {
    match action {
        Action::Send(request, pending) => (request, pending),
        other => panic!("expected a request, got {:?}", other),
    }
}

fn done(action: Action) -> Result<Output, SourceError> {
    match action {
        Action::Done(outcome) => outcome,
        other => panic!("expected the end, got {:?}", other),
    }
}

#[test]
fn authenticate_request_carries_key_and_plugin_name() {
    assert_eq!(make_auth_request(&config()), auth_request());
}

#[test]
fn token_is_read_from_a_successful_answer_only() {
    assert_eq!(read_token(200, &token_body("t0k")), Some("t0k".to_string()));
    assert_eq!(read_token(401, &token_body("t0k")), None);
    assert_eq!(read_token(500, &token_body("t0k")), None);
    assert_eq!(read_token(200, &object(vec![])), None);
    assert_eq!(read_token(200, &object(vec![("token", Json::Int(5))])), None);
    assert_eq!(read_token(200, &Json::Null), None);
    assert_eq!(STATUS_OK, 200);
}

#[test]
fn two_callers_cause_one_acquisition_and_share_the_header() {
    let c = config();
    let mut session = Session::new();
    assert_eq!(session, Session::Empty);
    let first = session.begin(&c);
    assert_eq!(first, AuthStep::Acquire(auth_request()));
    let second = session.begin(&c);
    assert_eq!(second, AuthStep::Wait);
    assert_eq!(session.begin(&c), AuthStep::Wait);
    assert_eq!(session, Session::Acquiring);
    let header = session.complete(200, &token_body("t0k"));
    assert_eq!(header, Ok("Bearer t0k".to_string()));
    assert_eq!(session.begin(&c), AuthStep::Ready("Bearer t0k".to_string()));
    assert_eq!(session.begin(&c), AuthStep::Ready("Bearer t0k".to_string()));
    assert_eq!(session.header(), Some("Bearer t0k".to_string()));
}

#[test]
fn failed_acquisition_leaves_the_cache_empty() {
    let c = config();
    let mut session = Session::new();
    assert_eq!(session.begin(&c), AuthStep::Acquire(auth_request()));
    assert_eq!(session.complete(403, &token_body("t0k")), Err(SourceError::Auth));
    assert_eq!(session, Session::Empty);
    assert_eq!(session.header(), None);
    assert_eq!(session.begin(&c), AuthStep::Acquire(auth_request()));
    assert_eq!(session.complete(200, &Json::Null), Err(SourceError::Auth));
    assert_eq!(session, Session::Empty);
    assert_eq!(session.begin(&c), AuthStep::Acquire(auth_request()));
    assert_eq!(session.finish(None), Err(SourceError::Auth));
    assert_eq!(session, Session::Empty);
}

#[test]
fn invalidation_forces_a_new_acquisition() {
    let c = config();
    let mut session = Session::Ready("Bearer old".to_string());
    assert_eq!(session.begin(&c), AuthStep::Ready("Bearer old".to_string()));
    session.invalidate();
    assert_eq!(session, Session::Empty);
    assert_eq!(session.begin(&c), AuthStep::Acquire(auth_request()));
    session.invalidate();
    assert_eq!(session, Session::Acquiring);
    assert_eq!(session.finish(Some("new".to_string())), Ok("Bearer new".to_string()));
    assert_eq!(session, Session::Ready("Bearer new".to_string()));
}

#[test]
fn completion_outside_an_acquisition_changes_nothing() {
    let mut session = Session::Ready("Bearer kept".to_string());
    assert_eq!(session.complete(200, &token_body("other")), Ok("Bearer kept".to_string()));
    assert_eq!(session, Session::Ready("Bearer kept".to_string()));
    let mut session = Session::Empty;
    assert_eq!(session.complete(200, &token_body("other")), Err(SourceError::Auth));
    assert_eq!(session, Session::Empty);
}

#[test]
fn status_gate_invalidates_on_anything_but_200() {
    let mut session = Session::Ready("Bearer t".to_string());
    assert_eq!(check_status(&mut session, 200), Ok(()));
    assert_eq!(session, Session::Ready("Bearer t".to_string()));
    for status in [0, 199, 201, 204, 301, 401, 404, 500, -1] {
        let mut session = Session::Ready("Bearer t".to_string());
        assert_eq!(check_status(&mut session, status), Err(SourceError::Transport));
        assert_eq!(session, Session::Empty);
    }
}

#[test]
fn first_title_filter_is_the_query() {
    assert_eq!(title_query(&vec![]), "");
    assert_eq!(title_query(&vec![Filter::Other, Filter::Other]), "");
    assert_eq!(
        title_query(&vec![Filter::Other, Filter::Title("one".to_string()), Filter::Title("two".to_string())]),
        "one"
    );
    assert_eq!(title_query(&vec![Filter::Title(String::new()), Filter::Title("two".to_string())]), "");
    assert_eq!(
        list_operation(&vec![Filter::Title("one".to_string())], 3),
        Operation::MangaList { query: "one".to_string(), page: 3 }
    );
}

#[test]
fn opening_requests_of_the_operations() {
    let c = config();
    let h = "Bearer t";
    let list = make_opening_request(&Operation::MangaList { query: String::new(), page: 1 }, &c, h);
    assert_eq!(list.method, Method::Post);
    assert_eq!(list.url, "http://host/api/Series/all?PageNumber=1&PageSize=40");
    assert_eq!(list.json_body, Some("{}".to_string()));
    let search = make_opening_request(&Operation::MangaList { query: "foo".to_string(), page: 2 }, &c, h);
    assert_eq!(search.url, "http://host/api/Series?PageNumber=2&PageSize=40");
    assert_eq!(search.json_body, Some("{\"seriesNameQuery\":\"foo\"}".to_string()));
    let listing =
        make_opening_request(&Operation::MangaListing { name: "Recently Updated".to_string(), page: 5 }, &c, h);
    assert_eq!(listing.url, "http://host/api/Series/recently-updated-series");
    assert_eq!(listing.method, Method::Post);
    assert_eq!(
        make_opening_request(&Operation::MangaDetails { id: "12".to_string() }, &c, h),
        get("http://host/api/Series/12", h)
    );
    assert_eq!(
        make_opening_request(&Operation::ChapterList { id: "12".to_string() }, &c, h),
        get("http://host/api/Series/volumes?seriesId=12", h)
    );
    assert_eq!(
        make_opening_request(&Operation::PageList { chapter_id: "77".to_string() }, &c, h),
        get("http://host/api/Series/chapter?chapterId=77", h)
    );
    assert_eq!(make_metadata_request("12", &c, h), get("http://host/api/Series/metadata?seriesId=12", h));
}

#[test]
fn listing_runs_from_authentication_to_result() {
    let c = config();
    let mut session = Session::new();
    let op = Operation::MangaListing { name: "On Deck".to_string(), page: 1 };
    let (request, pending) = sent(start(&mut session, &c, &op));
    assert_eq!(request, auth_request());
    let (request, pending) = sent(resume(&mut session, &c, &op, pending, 200, token_body("t0k")));
    assert_eq!(request.url, "http://host/api/Series/on-deck?PageNumber=1&PageSize=40");
    assert_eq!(request.authorization, Some("Bearer t0k".to_string()));
    assert_eq!(request.json_body, Some("{}".to_string()));
    let body = Json::Array(vec![object(vec![("id", Json::Int(12)), ("name", text("Foo"))])]);
    match done(resume(&mut session, &c, &op, pending, 200, body)) {
        Ok(Output::Listing(page)) => {
            assert_eq!(page.entries.len(), 1);
            assert_eq!(page.entries[0].id, "12");
            assert_eq!(page.entries[0].title, "Foo");
            assert!(!page.has_more);
        }
        other => panic!("{:?}", other),
    }
    assert_eq!(session, Session::Ready("Bearer t0k".to_string()));
}

#[test]
fn cached_credential_skips_authentication() {
    let c = config();
    let mut session = Session::Ready("Bearer t".to_string());
    let op = Operation::PageList { chapter_id: "77".to_string() };
    let (request, pending) = sent(start(&mut session, &c, &op));
    assert_eq!(request, get("http://host/api/Series/chapter?chapterId=77", "Bearer t"));
    match done(resume(&mut session, &c, &op, pending, 200, object(vec![("pages", Json::Int(2))]))) {
        Ok(Output::Pages(pages)) => {
            assert_eq!(pages.len(), 2);
            assert_eq!(pages[0].index, 1);
            assert_eq!(pages[1].url, "http://host/api/Reader/image?chapterId=77&page=1&apiKey=abc&extractPdf=true");
        }
        other => panic!("{:?}", other),
    }
}

#[test]
fn an_operation_waits_while_another_acquires() {
    let c = config();
    let mut session = Session::new();
    let first = Operation::ChapterList { id: "1".to_string() };
    let second = Operation::ChapterList { id: "2".to_string() };
    let (request, pending) = sent(start(&mut session, &c, &first));
    assert_eq!(request, auth_request());
    assert!(matches!(start(&mut session, &c, &second), Action::Wait));
    let (request, _) = sent(resume(&mut session, &c, &first, pending, 200, token_body("t")));
    assert_eq!(request, get("http://host/api/Series/volumes?seriesId=1", "Bearer t"));
    let (request, _) = sent(start(&mut session, &c, &second));
    assert_eq!(request, get("http://host/api/Series/volumes?seriesId=2", "Bearer t"));
}

#[test]
fn failed_authentication_ends_the_operation() {
    let c = config();
    let mut session = Session::new();
    let op = Operation::MangaList { query: String::new(), page: 1 };
    let (_, pending) = sent(start(&mut session, &c, &op));
    assert_eq!(done(resume(&mut session, &c, &op, pending, 401, Json::Null)), Err(SourceError::Auth));
    assert_eq!(session, Session::Empty);
}

#[test]
fn rejected_request_invalidates_the_credential() {
    let c = config();
    let mut session = Session::Ready("Bearer t".to_string());
    let op = Operation::ChapterList { id: "12".to_string() };
    let (_, pending) = sent(start(&mut session, &c, &op));
    assert_eq!(done(resume(&mut session, &c, &op, pending, 401, Json::Null)), Err(SourceError::Transport));
    assert_eq!(session, Session::Empty);
    let (request, _) = sent(start(&mut session, &c, &op));
    assert_eq!(request, auth_request());
}

#[test]
fn details_take_two_answers() {
    let c = config();
    let mut session = Session::Ready("Bearer t".to_string());
    let op = Operation::MangaDetails { id: "12".to_string() };
    let (request, pending) = sent(start(&mut session, &c, &op));
    assert_eq!(request, get("http://host/api/Series/12", "Bearer t"));
    let series = object(vec![("id", Json::Int(12)), ("name", text("Foo"))]);
    let (request, pending) = sent(resume(&mut session, &c, &op, pending, 200, series));
    assert_eq!(request, get("http://host/api/Series/metadata?seriesId=12", "Bearer t"));
    let labels = |key: &str, names: &[&str]| {
        Json::Array(names.iter().map(|n| object(vec![(key, text(n))])).collect())
    };
    let metadata = object(vec![
        ("pencillers", labels("name", &["Ann"])),
        ("writers", labels("name", &["Bob", "Cy"])),
        ("genres", labels("title", &["A", "B"])),
        ("tags", labels("title", &["C"])),
        ("summary", text("S")),
        ("publicationStatus", Json::Int(1)),
    ]);
    match done(resume(&mut session, &c, &op, pending, 200, metadata)) {
        Ok(Output::Details(entry)) => {
            assert_eq!(entry.id, "12");
            assert_eq!(entry.title, "Foo");
            assert_eq!(entry.author, "Ann");
            assert_eq!(entry.artist, "Bob, Cy");
            assert_eq!(entry.categories, vec!["A".to_string(), "B".to_string(), "C".to_string()]);
            assert_eq!(entry.status, PublicationStatus::Hiatus);
            assert_eq!(entry.description, "S");
        }
        other => panic!("{:?}", other),
    }
    assert_eq!(session, Session::Ready("Bearer t".to_string()));
}

#[test]
fn details_fail_as_a_whole() {
    let c = config();
    let op = Operation::MangaDetails { id: "12".to_string() };
    let mut session = Session::Ready("Bearer t".to_string());
    let (_, pending) = sent(start(&mut session, &c, &op));
    assert_eq!(done(resume(&mut session, &c, &op, pending, 404, Json::Null)), Err(SourceError::Transport));
    assert_eq!(session, Session::Empty);

    let mut session = Session::Ready("Bearer t".to_string());
    let (_, pending) = sent(start(&mut session, &c, &op));
    let series = object(vec![("name", text("Foo"))]);
    let (_, pending) = sent(resume(&mut session, &c, &op, pending, 200, series));
    assert_eq!(done(resume(&mut session, &c, &op, pending, 500, Json::Null)), Err(SourceError::Transport));
    assert_eq!(session, Session::Empty);

    let mut session = Session::Ready("Bearer t".to_string());
    let (_, pending) = sent(start(&mut session, &c, &op));
    let (_, pending) = sent(resume(&mut session, &c, &op, pending, 200, Json::Null));
    assert_eq!(done(resume(&mut session, &c, &op, pending, 200, Json::Null)), Err(SourceError::Parse));
    assert_eq!(session, Session::Ready("Bearer t".to_string()));
}

#[test]
fn chapters_come_back_in_reading_order() {
    let c = config();
    let mut session = Session::Ready("Bearer t".to_string());
    let op = Operation::ChapterList { id: "12".to_string() };
    let (_, pending) = sent(start(&mut session, &c, &op));
    let chapter = |id: i64, number: &str| {
        object(vec![
            ("id", Json::Int(id)),
            ("titleName", text("")),
            ("number", text(number)),
            ("pages", Json::Int(1)),
            ("isSpecial", Json::Bool(false)),
        ])
    };
    let body = Json::Array(vec![
        object(vec![("name", text("0")), ("chapters", Json::Array(vec![chapter(50, "5")]))]),
        object(vec![("name", text("2")), ("chapters", Json::Array(vec![chapter(21, "1"), chapter(22, "2")]))]),
    ]);
    match done(resume(&mut session, &c, &op, pending, 200, body)) {
        Ok(Output::Chapters(chapters)) => {
            let ids: Vec<&str> = chapters.iter().map(|c| c.id.as_str()).collect();
            assert_eq!(ids, vec!["22", "21", "50"]);
        }
        other => panic!("{:?}", other),
    }
}

#[test]
fn search_results_are_taken_as_exhaustive() {
    let c = config();
    let full = || Json::Array((0..40).map(|i| object(vec![("id", Json::Int(i)), ("name", text("S"))])).collect());
    let search = Operation::MangaList { query: "s".to_string(), page: 1 };
    match done(accept_answer(&search, "Bearer t".to_string(), full(), &c)) {
        Ok(Output::Listing(page)) => assert!(!page.has_more && page.entries.len() == 40),
        other => panic!("{:?}", other),
    }
    let all = Operation::MangaList { query: String::new(), page: 1 };
    match done(accept_answer(&all, "Bearer t".to_string(), full(), &c)) {
        Ok(Output::Listing(page)) => assert!(page.has_more),
        other => panic!("{:?}", other),
    }
    let bad = Json::Array(vec![Json::Null]);
    assert_eq!(done(accept_answer(&all, "Bearer t".to_string(), bad, &c)), Err(SourceError::Parse));
}

fn run(
    session: &Mutex<Session>,
    op: Operation,
    answers: Vec<(i32, Json)>,
) -> (Vec<Request>, Result<Output, SourceError>) {
    let c = config();
    let mut answers = answers.into_iter();
    let mut requests = Vec::new();
    let mut action = start(&mut session.lock().unwrap(), &c, &op);
    loop {
        action = match action {
            Action::Send(request, pending) => {
                requests.push(request);
                let (status, body) = answers.next().expect("an answer for every request");
                resume(&mut session.lock().unwrap(), &c, &op, pending, status, body)
            }
            Action::Wait => panic!("nobody else is acquiring"),
            Action::Done(outcome) => return (requests, outcome),
        };
    }
}

#[test]
fn a_host_loop_runs_operations_to_their_end() {
    let session = Mutex::new(Session::Empty);
    let series = || Json::Array(vec![object(vec![("id", Json::Int(1)), ("name", text("A"))])]);
    let (requests, outcome) = run(
        &session,
        list_operation(&vec![Filter::Other], 1),
        vec![(200, token_body("t")), (200, series())],
    );
    assert_eq!(requests.len(), 2);
    assert_eq!(requests[0], auth_request());
    assert_eq!(requests[1].url, "http://host/api/Series/all?PageNumber=1&PageSize=40");
    assert!(matches!(outcome, Ok(Output::Listing(_))));

    let (requests, outcome) = run(
        &session,
        Operation::MangaListing { name: "Newly Added".to_string(), page: 2 },
        vec![(200, series())],
    );
    assert_eq!(requests.len(), 1);
    assert_eq!(requests[0].authorization, Some("Bearer t".to_string()));
    assert!(outcome.is_ok());

    let (requests, outcome) =
        run(&session, Operation::PageList { chapter_id: "7".to_string() }, vec![(503, Json::Null)]);
    assert_eq!(requests.len(), 1);
    assert_eq!(outcome, Err(SourceError::Transport));
    assert_eq!(*session.lock().unwrap(), Session::Empty);

    let (requests, outcome) = run(
        &session,
        Operation::PageList { chapter_id: "7".to_string() },
        vec![(200, token_body("u")), (200, object(vec![("pages", Json::Int(1))]))],
    );
    assert_eq!(requests.len(), 2);
    assert_eq!(requests[1].authorization, Some("Bearer u".to_string()));
    assert!(matches!(outcome, Ok(Output::Pages(pages)) if pages.len() == 1));
}
