//! The catalogue mapper: turns the server's series, metadata and chapter
//! objects into catalogue entries and page descriptors.

use vstd::prelude::*;
use vstd::string::*;
use crate::config::Config;
use crate::error::SourceError;
use crate::json::Json;
use crate::model::{CatalogEntry, EntryView, Page, PageView, PublicationStatus};
use crate::text::{int_text, int_to_text, join_texts, joined};

verus! {

/// The address of a series' cover image. The cover endpoint takes the key
/// as a parameter and no `Authorization` header.
pub open spec fn cover_url(api_url: Seq<char>, id: Seq<char>, api_key: Seq<char>) -> Seq<char> {
    api_url + "/image/series-cover?seriesId="@ + id + "&apiKey="@ + api_key
}

/// The address of one page image; `page` counts from zero.
pub open spec fn page_url(
    api_url: Seq<char>,
    chapter_id: Seq<char>,
    page: int,
    api_key: Seq<char>,
) -> Seq<char> {
    api_url + "/Reader/image?chapterId="@ + chapter_id + "&page="@ + int_text(page) + "&apiKey="@
        + api_key + "&extractPdf=true"@
}

/// The publication status behind the server's code.
pub open spec fn status_for(code: int) -> PublicationStatus {
    if code == 0 {
        PublicationStatus::Ongoing
    } else if code == 1 {
        PublicationStatus::Hiatus
    } else if code == 2 {
        PublicationStatus::Completed
    } else if code == 3 {
        PublicationStatus::Cancelled
    } else {
        PublicationStatus::Unknown
    }
}

/// An entry as a listing shows it: identifier, title and cover only.
pub open spec fn listed_entry(id: Seq<char>, title: Seq<char>, cover: Seq<char>) -> EntryView {
    EntryView {
        id,
        title,
        cover_url: cover,
        author: Seq::empty(),
        artist: Seq::empty(),
        description: Seq::empty(),
        categories: Seq::empty(),
        status: PublicationStatus::Unknown,
    }
}

/// The entry that one series object of a listing describes, read through
/// the listing's field names.
pub open spec fn series_entry(
    series: Json,
    id_field: Seq<char>,
    title_field: Seq<char>,
    api_url: Seq<char>,
    api_key: Seq<char>,
) -> Result<EntryView, SourceError> {
    match (series.int_field(id_field), series.text_field(title_field)) {
        (Some(id), Some(title)) => Ok(
            listed_entry(int_text(id), title, cover_url(api_url, int_text(id), api_key)),
        ),
        _ => Err(SourceError::Parse),
    }
}

/// The entries of a listing response: one per series object, in order, or
/// no entry at all when the response is no array or one object fails.
pub open spec fn series_entries(
    response: Json,
    id_field: Seq<char>,
    title_field: Seq<char>,
    api_url: Seq<char>,
    api_key: Seq<char>,
) -> Result<Seq<EntryView>, SourceError> {
    match response.items() {
        Some(items) => if forall|i: int|
            0 <= i < items.len() ==> (#[trigger] series_entry(
                items[i],
                id_field,
                title_field,
                api_url,
                api_key,
            )) is Ok {
            Ok(
                Seq::new(
                    items.len(),
                    |i: int| series_entry(items[i], id_field, title_field, api_url, api_key)->Ok_0,
                ),
            )
        } else {
            Err(SourceError::Parse)
        },
        None => Err(SourceError::Parse),
    }
}

/// The string member `key` of every object in `items`, in order; none when
/// one of them lacks it.
pub open spec fn labels_of(items: Seq<Json>, key: Seq<char>) -> Option<Seq<Seq<char>>> {
    if forall|i: int| 0 <= i < items.len() ==> (#[trigger] items[i].text_field(key)) is Some {
        Some(Seq::new(items.len(), |i: int| items[i].text_field(key)->0))
    } else {
        None
    }
}

/// The labels of the array member `list` of `metadata`.
pub open spec fn labels_in(metadata: Json, list: Seq<char>, key: Seq<char>) -> Option<
    Seq<Seq<char>>,
> {
    match metadata.array_field(list) {
        Some(items) => labels_of(items, key),
        None => None,
    }
}

/// The full entry of series `id`, composed from the series object and its
/// metadata object. Pencillers make the author line and writers the artist
/// line, each joined by `", "`; the categories are the genres followed by
/// the tags.
pub open spec fn detail_entry(
    id: Seq<char>,
    series: Json,
    metadata: Json,
    api_url: Seq<char>,
    api_key: Seq<char>,
) -> Result<EntryView, SourceError> {
    match (
        labels_in(metadata, "pencillers"@, "name"@),
        labels_in(metadata, "writers"@, "name"@),
        labels_in(metadata, "genres"@, "title"@),
        labels_in(metadata, "tags"@, "title"@),
        series.text_field("name"@),
        metadata.text_field("summary"@),
        metadata.int_field("publicationStatus"@),
    ) {
        (
            Some(pencillers),
            Some(writers),
            Some(genres),
            Some(tags),
            Some(title),
            Some(summary),
            Some(code),
        ) => Ok(
            EntryView {
                id,
                title,
                cover_url: cover_url(api_url, id, api_key),
                author: joined(pencillers, ", "@),
                artist: joined(writers, ", "@),
                description: summary,
                categories: genres + tags,
                status: status_for(code),
            },
        ),
        _ => Err(SourceError::Parse),
    }
}

/// The pages of a chapter with `count` pages: addressed from zero, shown
/// from one. A count below one gives no page.
pub open spec fn pages_for(
    count: int,
    api_url: Seq<char>,
    chapter_id: Seq<char>,
    api_key: Seq<char>,
) -> Seq<PageView> {
    Seq::new(
        (if count > 0 {
            count
        } else {
            0
        }) as nat,
        |i: int| PageView { index: i + 1, url: page_url(api_url, chapter_id, i, api_key) },
    )
}

/// The pages that a chapter response describes.
pub open spec fn page_list(
    response: Json,
    api_url: Seq<char>,
    chapter_id: Seq<char>,
    api_key: Seq<char>,
) -> Result<Seq<PageView>, SourceError> {
    match response.int_field("pages"@) {
        Some(count) => Ok(pages_for(count, api_url, chapter_id, api_key)),
        None => Err(SourceError::Parse),
    }
}

/// The categories of a full entry are the genre titles followed by the tag
/// titles, each list in the order of the metadata.
pub proof fn lemma_categories_genres_then_tags(
    id: Seq<char>,
    series: Json,
    metadata: Json,
    api_url: Seq<char>,
    api_key: Seq<char>,
)
    requires
        detail_entry(id, series, metadata, api_url, api_key) is Ok,
    ensures
        labels_in(metadata, "genres"@, "title"@) is Some,
        labels_in(metadata, "tags"@, "title"@) is Some,
        detail_entry(id, series, metadata, api_url, api_key)->Ok_0.categories == labels_in(
            metadata,
            "genres"@,
            "title"@,
        )->0 + labels_in(metadata, "tags"@, "title"@)->0,
{
}

/// Maps the server's status code; every code outside 0..=3 is unknown.
pub fn publication_status(code: i64) -> (status: PublicationStatus)
    ensures
        status == status_for(code as int),
        code == 0 ==> status == PublicationStatus::Ongoing,
        code == 1 ==> status == PublicationStatus::Hiatus,
        code == 2 ==> status == PublicationStatus::Completed,
        code == 3 ==> status == PublicationStatus::Cancelled,
        code < 0 || code > 3 ==> status == PublicationStatus::Unknown,
{
    match code {
        0 => PublicationStatus::Ongoing,
        1 => PublicationStatus::Hiatus,
        2 => PublicationStatus::Completed,
        3 => PublicationStatus::Cancelled,
        _ => PublicationStatus::Unknown,
    }
}

/// Composes the address of a series' cover image.
pub fn make_cover_url(config: &Config, id: &str) -> (url: String)
    ensures
        url@ == cover_url(config.api_url@, id@, config.api_key@),
{
    let mut url = config.api_url.clone();
    url.append("/image/series-cover?seriesId=");
    url.append(id);
    url.append("&apiKey=");
    url.append(config.api_key.as_str());
    url
}

/// Composes the address of the page image `page`, counted from zero.
pub fn make_page_url(config: &Config, chapter_id: &str, page: i64) -> (url: String)
    ensures
        url@ == page_url(config.api_url@, chapter_id@, page as int, config.api_key@),
{
    let mut url = config.api_url.clone();
    url.append("/Reader/image?chapterId=");
    url.append(chapter_id);
    url.append("&page=");
    let number = int_to_text(page);
    url.append(number.as_str());
    url.append("&apiKey=");
    url.append(config.api_key.as_str());
    url.append("&extractPdf=true");
    url
}

/// Maps one series object of a listing.
pub fn map_series(series: &Json, id_field: &str, title_field: &str, config: &Config) -> (mapped:
    Result<CatalogEntry, SourceError>)
    ensures
        match mapped {
            Ok(entry) => series_entry(
                *series,
                id_field@,
                title_field@,
                config.api_url@,
                config.api_key@,
            ) == Ok::<_, SourceError>(entry@),
            Err(e) => series_entry(
                *series,
                id_field@,
                title_field@,
                config.api_url@,
                config.api_key@,
            ) == Err::<EntryView, _>(e),
        },
{
    match (series.get_int(id_field), series.get_text(title_field)) {
        (Some(id), Some(title)) => {
            let id = int_to_text(id);
            let cover_url = make_cover_url(config, id.as_str());
            let categories: Vec<String> = Vec::new();
            assert(categories.deep_view() =~= Seq::<Seq<char>>::empty());
            Ok(
                CatalogEntry {
                    id,
                    title: String::from_str(title),
                    cover_url,
                    author: String::new(),
                    artist: String::new(),
                    description: String::new(),
                    categories,
                    status: PublicationStatus::Unknown,
                },
            )
        },
        _ => Err(SourceError::Parse),
    }
}

/// Maps a listing response, all series objects or none.
pub fn map_series_list(
    response: &Json,
    id_field: &str,
    title_field: &str,
    config: &Config,
) -> (mapped: Result<Vec<CatalogEntry>, SourceError>)
    ensures
        match mapped {
            Ok(entries) => series_entries(
                *response,
                id_field@,
                title_field@,
                config.api_url@,
                config.api_key@,
            ) == Ok::<_, SourceError>(entries.deep_view()),
            Err(e) => series_entries(
                *response,
                id_field@,
                title_field@,
                config.api_url@,
                config.api_key@,
            ) == Err::<Seq<EntryView>, _>(e),
        },
{
    let items = match response.as_array() {
        Some(items) => items,
        None => {
            return Err(SourceError::Parse);
        },
    };
    let mut entries: Vec<CatalogEntry> = Vec::new();
    let mut i: usize = 0;
    while i < items.len()
        invariant
            i <= items.len(),
            response.items() == Some(items@),
            entries.len() == i,
            forall|k: int|
                0 <= k < i ==> (#[trigger] series_entry(
                    items@[k],
                    id_field@,
                    title_field@,
                    config.api_url@,
                    config.api_key@,
                )) == Ok::<_, SourceError>(entries@[k]@),
        decreases items.len() - i,
    {
        match map_series(&items[i], id_field, title_field, config) {
            Ok(entry) => {
                entries.push(entry);
            },
            Err(e) => {
                return Err(e);
            },
        }
        i = i + 1;
    }
    assert(entries.deep_view() =~= Seq::new(
        items@.len(),
        |i: int|
            series_entry(items@[i], id_field@, title_field@, config.api_url@, config.api_key@)->Ok_0,
    ));
    Ok(entries)
}

/// Collects the string member `key` of every object in `items`.
pub fn collect_labels(items: &Vec<Json>, key: &str) -> (labels: Option<Vec<String>>)
    ensures
        match labels {
            Some(list) => labels_of(items@, key@) == Some(list.deep_view()),
            None => labels_of(items@, key@) is None,
        },
{
    let mut list: Vec<String> = Vec::new();
    let mut i: usize = 0;
    while i < items.len()
        invariant
            i <= items.len(),
            list.len() == i,
            forall|k: int|
                0 <= k < i ==> (#[trigger] items@[k].text_field(key@)) == Some(list@[k]@),
        decreases items.len() - i,
    {
        match items[i].get_text(key) {
            Some(label) => {
                list.push(String::from_str(label));
            },
            None => {
                return None;
            },
        }
        i = i + 1;
    }
    assert(list.deep_view() =~= Seq::new(items@.len(), |i: int| items@[i].text_field(key@)->0));
    Some(list)
}

/// Collects the labels of the array member `list` of `metadata`.
pub fn collect_labels_in(metadata: &Json, list: &str, key: &str) -> (labels: Option<Vec<String>>)
    ensures
        match labels {
            Some(found) => labels_in(*metadata, list@, key@) == Some(found.deep_view()),
            None => labels_in(*metadata, list@, key@) is None,
        },
{
    match metadata.get_array(list) {
        Some(items) => collect_labels(items, key),
        None => None,
    }
}

/// Composes the full entry of series `id` from its two responses.
pub fn map_detail(id: &str, series: &Json, metadata: &Json, config: &Config) -> (mapped: Result<
    CatalogEntry,
    SourceError,
>)
    ensures
        match mapped {
            Ok(entry) => detail_entry(id@, *series, *metadata, config.api_url@, config.api_key@)
                == Ok::<_, SourceError>(entry@),
            Err(e) => detail_entry(id@, *series, *metadata, config.api_url@, config.api_key@)
                == Err::<EntryView, _>(e),
        },
{
    let pencillers = collect_labels_in(metadata, "pencillers", "name");
    let writers = collect_labels_in(metadata, "writers", "name");
    let genres = collect_labels_in(metadata, "genres", "title");
    let tags = collect_labels_in(metadata, "tags", "title");
    let title = series.get_text("name");
    let summary = metadata.get_text("summary");
    let code = metadata.get_int("publicationStatus");
    match (pencillers, writers, genres, tags, title, summary, code) {
        (
            Some(pencillers),
            Some(writers),
            Some(genres),
            Some(tags),
            Some(title),
            Some(summary),
            Some(code),
        ) => {
            let mut categories = genres;
            let mut tags = tags;
            let ghost genre_labels = categories.deep_view();
            let ghost tag_labels = tags.deep_view();
            categories.append(&mut tags);
            assert(categories.deep_view() =~= genre_labels + tag_labels);
            Ok(
                CatalogEntry {
                    id: String::from_str(id),
                    title: String::from_str(title),
                    cover_url: make_cover_url(config, id),
                    author: join_texts(&pencillers, ", "),
                    artist: join_texts(&writers, ", "),
                    description: String::from_str(summary),
                    categories,
                    status: publication_status(code),
                },
            )
        },
        _ => Err(SourceError::Parse),
    }
}

/// Lists the pages of a chapter from the chapter response.
pub fn map_chapter_pages(response: &Json, chapter_id: &str, config: &Config) -> (mapped: Result<
    Vec<Page>,
    SourceError,
>)
    ensures
        match mapped {
            Ok(pages) => page_list(*response, config.api_url@, chapter_id@, config.api_key@)
                == Ok::<_, SourceError>(pages.deep_view()),
            Err(e) => page_list(*response, config.api_url@, chapter_id@, config.api_key@) == Err::<
                Seq<PageView>,
                _,
            >(e),
        },
{
    let count = match response.get_int("pages") {
        Some(count) => count,
        None => {
            return Err(SourceError::Parse);
        },
    };
    let mut pages: Vec<Page> = Vec::new();
    let mut i: i64 = 0;
    while i < count
        invariant
            0 <= i,
            count >= 0 ==> i <= count,
            count < 0 ==> i == 0,
            pages.len() == i,
            forall|k: int|
                0 <= k < i ==> (#[trigger] pages@[k])@ == (PageView {
                    index: k + 1,
                    url: page_url(config.api_url@, chapter_id@, k, config.api_key@),
                }),
        decreases count - i,
    {
        pages.push(Page { index: i + 1, url: make_page_url(config, chapter_id, i) });
        i = i + 1;
    }
    assert(pages.deep_view() =~= pages_for(
        count as int,
        config.api_url@,
        chapter_id@,
        config.api_key@,
    ));
    Ok(pages)
}

} // verus!
