//! The catalogue operations offered to the host: what each one asks of the
//! server and what it makes of the answer.

use vstd::prelude::*;
use vstd::string::*;
use crate::config::Config;
use crate::error::SourceError;
use crate::json::Json;
use crate::mapper::{map_series_list, series_entries};
use crate::model::{
    CatalogEntry,
    Chapter,
    ChapterView,
    EntryView,
    MangaPage,
    MangaPageView,
    Page,
    PageView,
};
use crate::pagination::{has_more, more_expected};
use crate::request::{Method, Request, RequestView};
use crate::router::{listing_request, listing_spec, resolve, spec_of, ListingKind};

verus! {

/// One filter of a catalogue query. Only the title filter is honoured.
#[derive(Clone, Debug, PartialEq, Eq)]
pub enum Filter {
    Title(String),
    Other,
}

/// The title that the filters ask for: the value of the first title filter,
/// or nothing when there is none.
pub open spec fn title_of(filters: Seq<Filter>) -> Seq<char>
    decreases filters.len(),
{
    if filters.len() == 0 {
        Seq::empty()
    } else {
        match filters[0] {
            Filter::Title(title) => title@,
            Filter::Other => title_of(filters.drop_first()),
        }
    }
}

/// Finds the title that the filters ask for.
pub fn title_query(filters: &Vec<Filter>) -> (query: String)
    ensures
        query@ == title_of(filters@),
{
    let mut i: usize = 0;
    assert(filters@.skip(0) =~= filters@);
    while i < filters.len()
        invariant
            i <= filters.len(),
            title_of(filters@) == title_of(filters@.skip(i as int)),
        decreases filters.len() - i,
    {
        assert(filters@.skip(i as int)[0] == filters@[i as int]);
        match &filters[i] {
            Filter::Title(title) => {
                return title.clone();
            },
            Filter::Other => {},
        }
        assert(filters@.skip(i as int).drop_first() =~= filters@.skip(i + 1));
        i = i + 1;
    }
    String::new()
}

/// One request of the host.
#[derive(Clone, Debug, PartialEq, Eq)]
pub enum Operation {
    /// A page of all series, or of those whose title matches `query` when
    /// that is not empty.
    MangaList { query: String, page: i32 },
    /// A page of a named listing.
    MangaListing { name: String, page: i32 },
    /// The full entry of a series.
    MangaDetails { id: String },
    /// The chapters of a series.
    ChapterList { id: String },
    /// The pages of a chapter.
    PageList { chapter_id: String },
}

pub enum OperationView {
    MangaList { query: Seq<char>, page: int },
    MangaListing { name: Seq<char>, page: int },
    MangaDetails { id: Seq<char> },
    ChapterList { id: Seq<char> },
    PageList { chapter_id: Seq<char> },
}

impl View for Operation {
    type V = OperationView;

    open spec fn view(&self) -> OperationView {
        match self {
            Operation::MangaList { query, page } => OperationView::MangaList {
                query: query@,
                page: *page as int,
            },
            Operation::MangaListing { name, page } => OperationView::MangaListing {
                name: name@,
                page: *page as int,
            },
            Operation::MangaDetails { id } => OperationView::MangaDetails { id: id@ },
            Operation::ChapterList { id } => OperationView::ChapterList { id: id@ },
            Operation::PageList { chapter_id } => OperationView::PageList {
                chapter_id: chapter_id@,
            },
        }
    }
}

/// The listing operation that a set of filters and a page number ask for.
pub fn list_operation(filters: &Vec<Filter>, page: i32) -> (op: Operation)
    ensures
        op@ == (OperationView::MangaList { query: title_of(filters@), page: page as int }),
{
    Operation::MangaList { query: title_query(filters), page }
}

/// What an operation hands back.
#[derive(Clone, Debug, PartialEq, Eq)]
pub enum Output {
    Listing(MangaPage),
    Details(CatalogEntry),
    Chapters(Vec<Chapter>),
    Pages(Vec<Page>),
}

pub enum OutputView {
    Listing(MangaPageView),
    Details(EntryView),
    Chapters(Seq<ChapterView>),
    Pages(Seq<PageView>),
}

impl View for Output {
    type V = OutputView;

    open spec fn view(&self) -> OutputView {
        match self {
            Output::Listing(page) => OutputView::Listing(page@),
            Output::Details(entry) => OutputView::Details(entry@),
            Output::Chapters(chapters) => OutputView::Chapters(chapters.deep_view()),
            Output::Pages(pages) => OutputView::Pages(pages.deep_view()),
        }
    }
}

/// The view of a fallible result.
pub open spec fn outcome_view(outcome: Result<Output, SourceError>) -> Result<
    OutputView,
    SourceError,
> {
    match outcome {
        Ok(output) => Ok(output@),
        Err(e) => Err(e),
    }
}

/// A request that only reads: `GET` with the credential and no body.
pub open spec fn read_request(url: Seq<char>, authorization: Seq<char>) -> RequestView {
    RequestView {
        method: Method::Get,
        url,
        authorization: Some(authorization),
        json_body: None,
    }
}

/// The request that an operation opens with.
pub open spec fn opening_request(
    op: OperationView,
    api_url: Seq<char>,
    authorization: Seq<char>,
) -> RequestView {
    match op {
        OperationView::MangaList { query, page } => listing_request(
            api_url,
            authorization,
            query,
            Seq::empty(),
            page,
        ),
        OperationView::MangaListing { name, page } => listing_request(
            api_url,
            authorization,
            Seq::empty(),
            name,
            page,
        ),
        OperationView::MangaDetails { id } => read_request(
            api_url + "/Series/"@ + id,
            authorization,
        ),
        OperationView::ChapterList { id } => read_request(
            api_url + "/Series/volumes?seriesId="@ + id,
            authorization,
        ),
        OperationView::PageList { chapter_id } => read_request(
            api_url + "/Series/chapter?chapterId="@ + chapter_id,
            authorization,
        ),
    }
}

/// The request for the extended metadata of series `id`.
pub open spec fn metadata_request(
    id: Seq<char>,
    api_url: Seq<char>,
    authorization: Seq<char>,
) -> RequestView {
    read_request(api_url + "/Series/metadata?seriesId="@ + id, authorization)
}

/// The page of entries that the answer to a listing of view `kind` holds,
/// with the guess whether another page follows.
pub open spec fn listing_page(
    kind: ListingKind,
    body: Json,
    api_url: Seq<char>,
    api_key: Seq<char>,
) -> Result<MangaPageView, SourceError> {
    match series_entries(body, spec_of(kind).id_field, spec_of(kind).title_field, api_url, api_key) {
        Ok(entries) => Ok(
            MangaPageView { entries, has_more: more_expected(entries.len() as int, kind) },
        ),
        Err(e) => Err(e),
    }
}

/// Composes a request that only reads.
pub fn make_read_request(
    config: &Config,
    path: &str,
    id: &str,
    authorization: &str,
) -> (request: Request)
    ensures
        request@ == read_request(config.api_url@ + path@ + id@, authorization@),
{
    let mut url = config.api_url.clone();
    url.append(path);
    url.append(id);
    Request {
        method: Method::Get,
        url,
        authorization: Some(String::from_str(authorization)),
        json_body: None,
    }
}

/// Composes the request that `op` opens with.
pub fn make_opening_request(op: &Operation, config: &Config, authorization: &str) -> (request:
    Request)
    ensures
        request@ == opening_request(op@, config.api_url@, authorization@),
{
    match op {
        Operation::MangaList { query, page } => {
            let name = String::new();
            resolve(config, authorization, query.as_str(), name.as_str(), *page)
        },
        Operation::MangaListing { name, page } => {
            let query = String::new();
            resolve(config, authorization, query.as_str(), name.as_str(), *page)
        },
        Operation::MangaDetails { id } => make_read_request(
            config,
            "/Series/",
            id.as_str(),
            authorization,
        ),
        Operation::ChapterList { id } => make_read_request(
            config,
            "/Series/volumes?seriesId=",
            id.as_str(),
            authorization,
        ),
        Operation::PageList { chapter_id } => make_read_request(
            config,
            "/Series/chapter?chapterId=",
            chapter_id.as_str(),
            authorization,
        ),
    }
}

/// Composes the request for the extended metadata of series `id`.
pub fn make_metadata_request(id: &str, config: &Config, authorization: &str) -> (request: Request)
    ensures
        request@ == metadata_request(id@, config.api_url@, authorization@),
{
    make_read_request(config, "/Series/metadata?seriesId=", id, authorization)
}

/// Maps the answer to a listing of view `kind` and notes whether another
/// page is likely.
pub fn map_listing_page(kind: ListingKind, body: &Json, config: &Config) -> (mapped: Result<
    MangaPage,
    SourceError,
>)
    ensures
        match mapped {
            Ok(page) => listing_page(kind, *body, config.api_url@, config.api_key@) == Ok::<
                _,
                SourceError,
            >(page@),
            Err(e) => listing_page(kind, *body, config.api_url@, config.api_key@) == Err::<
                MangaPageView,
                _,
            >(e),
        },
{
    let spec = listing_spec(kind);
    match map_series_list(body, spec.id_field, spec.title_field, config) {
        Ok(entries) => {
            let more = has_more(entries.len(), kind);
            Ok(MangaPage { entries, has_more: more })
        },
        Err(e) => Err(e),
    }
}

} // verus!
