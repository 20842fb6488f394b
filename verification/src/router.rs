//! The listing router: resolves a named catalogue view or a title search
//! into the request to send and the field names to read the answer with.

use vstd::prelude::*;
use vstd::string::*;
use crate::config::Config;
use crate::request::{Method, Request, RequestView};
use crate::text::{int_text, int_to_text, text_eq};

verus! {

/// How many series a full page of a listing holds.
pub const PAGE_SIZE: i64 = 40;

/// The catalogue views the server offers.
#[derive(Clone, Copy, Debug, PartialEq, Eq)]
pub enum ListingKind {
    /// Every series; also what an unknown listing name falls back to.
    All,
    OnDeck,
    RecentlyUpdated,
    NewlyAdded,
    WantToRead,
    /// A search by title.
    Search,
}

/// What the router knows of one catalogue view.
#[derive(Clone, Copy, Debug, PartialEq, Eq)]
pub struct ListingSpec {
    /// The endpoint, below the API base.
    pub path: &'static str,
    pub method: Method,
    /// The member that holds a series' identifier in this view's answers.
    pub id_field: &'static str,
    /// The member that holds a series' title in this view's answers.
    pub title_field: &'static str,
    /// Whether the endpoint takes a page number and a page size.
    pub paged: bool,
}

pub struct ListingSpecView {
    pub path: Seq<char>,
    pub method: Method,
    pub id_field: Seq<char>,
    pub title_field: Seq<char>,
    pub paged: bool,
}

impl View for ListingSpec {
    type V = ListingSpecView;

    open spec fn view(&self) -> ListingSpecView {
        ListingSpecView {
            path: self.path@,
            method: self.method,
            id_field: self.id_field@,
            title_field: self.title_field@,
            paged: self.paged,
        }
    }
}

/// The view that a listing name stands for; an unknown name stands for
/// the view of all series.
pub open spec fn kind_of_name(name: Seq<char>) -> ListingKind {
    if name == "On Deck"@ {
        ListingKind::OnDeck
    } else if name == "Recently Updated"@ {
        ListingKind::RecentlyUpdated
    } else if name == "Newly Added"@ {
        ListingKind::NewlyAdded
    } else if name == "Want To Read"@ {
        ListingKind::WantToRead
    } else {
        ListingKind::All
    }
}

/// The view to show: a non-empty title query is a search, whatever the
/// listing name; without one the name decides.
pub open spec fn kind_of(query: Seq<char>, name: Seq<char>) -> ListingKind {
    if query.len() > 0 {
        ListingKind::Search
    } else {
        kind_of_name(name)
    }
}

/// The table of views. Only the recently-updated view names its members
/// `seriesId` and `seriesName`, and only it takes no page parameters.
pub open spec fn spec_of(kind: ListingKind) -> ListingSpecView {
    match kind {
        ListingKind::All => ListingSpecView {
            path: "/Series/all"@,
            method: Method::Post,
            id_field: "id"@,
            title_field: "name"@,
            paged: true,
        },
        ListingKind::OnDeck => ListingSpecView {
            path: "/Series/on-deck"@,
            method: Method::Post,
            id_field: "id"@,
            title_field: "name"@,
            paged: true,
        },
        ListingKind::RecentlyUpdated => ListingSpecView {
            path: "/Series/recently-updated-series"@,
            method: Method::Post,
            id_field: "seriesId"@,
            title_field: "seriesName"@,
            paged: false,
        },
        ListingKind::NewlyAdded => ListingSpecView {
            path: "/Series/recently-added"@,
            method: Method::Post,
            id_field: "id"@,
            title_field: "name"@,
            paged: true,
        },
        ListingKind::WantToRead => ListingSpecView {
            path: "/want-to-read"@,
            method: Method::Post,
            id_field: "id"@,
            title_field: "name"@,
            paged: true,
        },
        ListingKind::Search => ListingSpecView {
            path: "/Series"@,
            method: Method::Post,
            id_field: "id"@,
            title_field: "name"@,
            paged: true,
        },
    }
}

/// The page parameters of a paged endpoint.
pub open spec fn page_query(page: int) -> Seq<char> {
    "?PageNumber="@ + int_text(page) + "&PageSize="@ + int_text(PAGE_SIZE as int)
}

/// The address of a view's page `page`.
pub open spec fn listing_url(api_url: Seq<char>, kind: ListingKind, page: int) -> Seq<char> {
    if spec_of(kind).paged {
        api_url + spec_of(kind).path + page_query(page)
    } else {
        api_url + spec_of(kind).path
    }
}

/// The text of the JSON object with the single member `key`, whose value is
/// the string `value`, as `serde_json` writes it in its compact form.
pub uninterp spec fn json_object_text(key: Seq<char>, value: Seq<char>) -> Seq<char>;

/// The body that goes with a view's request: the query wrapped in an
/// object for a search, the empty object otherwise.
pub open spec fn listing_body(kind: ListingKind, query: Seq<char>) -> Seq<char> {
    if kind == ListingKind::Search {
        json_object_text("seriesNameQuery"@, query)
    } else {
        "{}"@
    }
}

/// The request for page `page` of view `kind`, carrying `body`.
pub open spec fn request_with_body(
    api_url: Seq<char>,
    authorization: Seq<char>,
    kind: ListingKind,
    page: int,
    body: Seq<char>,
) -> RequestView {
    RequestView {
        method: spec_of(kind).method,
        url: listing_url(api_url, kind, page),
        authorization: Some(authorization),
        json_body: Some(body),
    }
}

/// The request that shows page `page` of what `query` and `name` select.
pub open spec fn listing_request(
    api_url: Seq<char>,
    authorization: Seq<char>,
    query: Seq<char>,
    name: Seq<char>,
    page: int,
) -> RequestView {
    request_with_body(
        api_url,
        authorization,
        kind_of(query, name),
        page,
        listing_body(kind_of(query, name), query),
    )
}

/// Calls `serde_json`: builds a `Map` with the one member `key`, a
/// `Value::String` of `value`, and renders the `Value::Object` through its
/// `Display` impl, which writes the compact form. Nothing is claimed of the
/// text but that it is the one `json_object_text` names.
#[verifier::external_body]
fn render_object(key: &str, value: &str) -> (text: String)
    ensures
        text@ == json_object_text(key@, value@),
{
    let mut object = serde_json::Map::new();
    object.insert(key.to_string(), serde_json::Value::String(value.to_string()));
    serde_json::Value::Object(object).to_string()
}

/// Resolves a listing name.
pub fn listing_kind(name: &str) -> (kind: ListingKind)
    ensures
        kind == kind_of_name(name@),
{
    if text_eq(name, "On Deck") {
        ListingKind::OnDeck
    } else if text_eq(name, "Recently Updated") {
        ListingKind::RecentlyUpdated
    } else if text_eq(name, "Newly Added") {
        ListingKind::NewlyAdded
    } else if text_eq(name, "Want To Read") {
        ListingKind::WantToRead
    } else {
        ListingKind::All
    }
}

/// Picks the view for a title query and a listing name.
pub fn select_kind(query: &str, name: &str) -> (kind: ListingKind)
    ensures
        kind == kind_of(query@, name@),
{
    if query.unicode_len() > 0 {
        ListingKind::Search
    } else {
        listing_kind(name)
    }
}

/// Looks a view up in the table.
pub fn listing_spec(kind: ListingKind) -> (spec: ListingSpec)
    ensures
        spec@ == spec_of(kind),
{
    match kind {
        ListingKind::All => ListingSpec {
            path: "/Series/all",
            method: Method::Post,
            id_field: "id",
            title_field: "name",
            paged: true,
        },
        ListingKind::OnDeck => ListingSpec {
            path: "/Series/on-deck",
            method: Method::Post,
            id_field: "id",
            title_field: "name",
            paged: true,
        },
        ListingKind::RecentlyUpdated => ListingSpec {
            path: "/Series/recently-updated-series",
            method: Method::Post,
            id_field: "seriesId",
            title_field: "seriesName",
            paged: false,
        },
        ListingKind::NewlyAdded => ListingSpec {
            path: "/Series/recently-added",
            method: Method::Post,
            id_field: "id",
            title_field: "name",
            paged: true,
        },
        ListingKind::WantToRead => ListingSpec {
            path: "/want-to-read",
            method: Method::Post,
            id_field: "id",
            title_field: "name",
            paged: true,
        },
        ListingKind::Search => ListingSpec {
            path: "/Series",
            method: Method::Post,
            id_field: "id",
            title_field: "name",
            paged: true,
        },
    }
}

/// Composes the address of a view's page.
pub fn make_listing_url(config: &Config, kind: ListingKind, page: i32) -> (url: String)
    ensures
        url@ == listing_url(config.api_url@, kind, page as int),
{
    let spec = listing_spec(kind);
    let mut url = config.api_url.clone();
    url.append(spec.path);
    if spec.paged {
        let ghost head = url@;
        let number = int_to_text(page as i64);
        let size = int_to_text(PAGE_SIZE);
        url.append("?PageNumber=");
        url.append(number.as_str());
        url.append("&PageSize=");
        url.append(size.as_str());
        assert(url@ =~= head + page_query(page as int));
    }
    url
}

/// Writes the body that goes with a view's request.
pub fn make_listing_body(kind: ListingKind, query: &str) -> (body: String)
    ensures
        body@ == listing_body(kind, query@),
{
    match kind {
        ListingKind::Search => render_object("seriesNameQuery", query),
        _ => String::from_str("{}"),
    }
}

/// Assembles the request for page `page` of view `kind` around a body.
pub fn make_request_with_body(
    config: &Config,
    authorization: &str,
    kind: ListingKind,
    page: i32,
    body: String,
) -> (request: Request)
    ensures
        request@ == request_with_body(
            config.api_url@,
            authorization@,
            kind,
            page as int,
            body@,
        ),
{
    let spec = listing_spec(kind);
    Request {
        method: spec.method,
        url: make_listing_url(config, kind, page),
        authorization: Some(String::from_str(authorization)),
        json_body: Some(body),
    }
}

/// Resolves a title query and a listing name into the request for page
/// `page`. A non-empty query wins over the name; an unknown name shows all
/// series.
pub fn resolve(config: &Config, authorization: &str, query: &str, name: &str, page: i32) -> (request:
    Request)
    ensures
        request@ == listing_request(
            config.api_url@,
            authorization@,
            query@,
            name@,
            page as int,
        ),
{
    let kind = select_kind(query, name);
    let body = make_listing_body(kind, query);
    make_request_with_body(config, authorization, kind, page, body)
}

} // verus!
