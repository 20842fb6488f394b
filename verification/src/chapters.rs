//! The chapter aggregator: flattens the volumes of a series into one list
//! of chapters and puts it into reading order.

use vstd::prelude::*;
use vstd::string::*;
use crate::error::SourceError;
use crate::json::Json;
use crate::model::{Chapter, ChapterView};
use crate::number::{decimal_value, parse_decimal, Decimal};
use crate::reading_order::{reading_order, sort_for_reading};
use crate::text::{int_text, int_to_text};

verus! {

/// The note shown with a chapter: its page count, and a mark on specials.
pub open spec fn chapter_info(pages: int, special: bool) -> Seq<char> {
    if special {
        int_text(pages) + " Page · Specials"@
    } else {
        int_text(pages) + " Page"@
    }
}

/// The display title of a chapter; empty where the server sent none.
pub open spec fn chapter_title(chapter: Json) -> Seq<char> {
    match chapter.text_field("titleName"@) {
        Some(title) => title,
        None => Seq::empty(),
    }
}

/// The chapter that one chapter object describes, within volume `volume`.
///
/// `id`, `number`, `pages` and `isSpecial` must be there with their types,
/// else the object does not parse; a `number` that is no decimal number is
/// a mapping ambiguity.
pub open spec fn chapter_of(chapter: Json, volume: int) -> Result<ChapterView, SourceError> {
    match (
        chapter.int_field("id"@),
        chapter.text_field("number"@),
        chapter.int_field("pages"@),
        chapter.bool_field("isSpecial"@),
    ) {
        (Some(id), Some(number), Some(pages), Some(special)) => match decimal_value(number) {
            Some(value) => Ok(
                ChapterView {
                    id: int_text(id),
                    title: chapter_title(chapter),
                    volume,
                    chapter: value,
                    info: chapter_info(pages, special),
                },
            ),
            None => Err(SourceError::MappingAmbiguity),
        },
        _ => Err(SourceError::Parse),
    }
}

/// The chapters of one volume in document order; the first chapter object
/// that fails decides the error.
pub open spec fn chapters_of(items: Seq<Json>, volume: int) -> Result<
    Seq<ChapterView>,
    SourceError,
>
    decreases items.len(),
{
    if items.len() == 0 {
        Ok(Seq::empty())
    } else {
        match chapters_of(items.drop_last(), volume) {
            Err(e) => Err(e),
            Ok(front) => match chapter_of(items.last(), volume) {
                Err(e) => Err(e),
                Ok(chapter) => Ok(front.push(chapter)),
            },
        }
    }
}

/// The chapters of one volume object, each carrying the volume's number.
pub open spec fn volume_chapters(volume: Json) -> Result<Seq<ChapterView>, SourceError> {
    match (volume.text_field("name"@), volume.array_field("chapters"@)) {
        (Some(name), Some(items)) => match decimal_value(name) {
            Some(number) => chapters_of(items, number),
            None => Err(SourceError::MappingAmbiguity),
        },
        _ => Err(SourceError::Parse),
    }
}

/// The chapters of all volumes, volume after volume; the first volume that
/// fails decides the error.
pub open spec fn flattened(volumes: Seq<Json>) -> Result<Seq<ChapterView>, SourceError>
    decreases volumes.len(),
{
    if volumes.len() == 0 {
        Ok(Seq::empty())
    } else {
        match flattened(volumes.drop_last()) {
            Err(e) => Err(e),
            Ok(front) => match volume_chapters(volumes.last()) {
                Err(e) => Err(e),
                Ok(chapters) => Ok(front + chapters),
            },
        }
    }
}

/// The chapter list of a series: all chapters of its volumes, in reading
/// order. A response that is no array does not parse.
pub open spec fn chapter_list(response: Json) -> Result<Seq<ChapterView>, SourceError> {
    match response.items() {
        Some(volumes) => match flattened(volumes) {
            Ok(chapters) => Ok(reading_order(chapters)),
            Err(e) => Err(e),
        },
        None => Err(SourceError::Parse),
    }
}

/// Writes the note shown with a chapter.
pub fn make_chapter_info(pages: i64, special: bool) -> (info: String)
    ensures
        info@ == chapter_info(pages as int, special),
{
    let mut info = int_to_text(pages);
    if special {
        info.append(" Page · Specials");
    } else {
        info.append(" Page");
    }
    info
}

/// Maps one chapter object of volume `volume`.
pub fn map_chapter(chapter: &Json, volume: Decimal) -> (mapped: Result<Chapter, SourceError>)
    ensures
        match mapped {
            Ok(c) => chapter_of(*chapter, volume.billionths as int) == Ok::<_, SourceError>(c@),
            Err(e) => chapter_of(*chapter, volume.billionths as int) == Err::<ChapterView, _>(e),
        },
{
    let id = chapter.get_int("id");
    let number = chapter.get_text("number");
    let pages = chapter.get_int("pages");
    let special = chapter.get_bool("isSpecial");
    match (id, number, pages, special) {
        (Some(id), Some(number), Some(pages), Some(special)) => match parse_decimal(number) {
            Some(value) => {
                let title = match chapter.get_text("titleName") {
                    Some(text) => String::from_str(text),
                    None => String::new(),
                };
                Ok(
                    Chapter {
                        id: int_to_text(id),
                        title,
                        volume,
                        chapter: value,
                        info: make_chapter_info(pages, special),
                    },
                )
            },
            None => Err(SourceError::MappingAmbiguity),
        },
        _ => Err(SourceError::Parse),
    }
}

/// Maps the chapters of one volume object.
pub fn map_volume(volume: &Json) -> (mapped: Result<Vec<Chapter>, SourceError>)
    ensures
        match mapped {
            Ok(list) => volume_chapters(*volume) == Ok::<_, SourceError>(list.deep_view()),
            Err(e) => volume_chapters(*volume) == Err::<Seq<ChapterView>, _>(e),
        },
{
    let name = volume.get_text("name");
    let items = volume.get_array("chapters");
    match (name, items) {
        (Some(name), Some(items)) => match parse_decimal(name) {
            Some(number) => {
                let mut list: Vec<Chapter> = Vec::new();
                let mut i: usize = 0;
                assert(items@.take(0) =~= Seq::<Json>::empty());
                assert(list.deep_view() =~= Seq::<ChapterView>::empty());
                while i < items.len()
                    invariant
                        i <= items.len(),
                        volume_chapters(*volume) == chapters_of(
                            items@,
                            number.billionths as int,
                        ),
                        chapters_of(items@.take(i as int), number.billionths as int) == Ok::<
                            _,
                            SourceError,
                        >(list.deep_view()),
                    decreases items.len() - i,
                {
                    assert(items@.take(i + 1).drop_last() =~= items@.take(i as int));
                    assert(items@.take(i + 1).last() == items@[i as int]);
                    let ghost before = list.deep_view();
                    match map_chapter(&items[i], number) {
                        Ok(chapter) => {
                            list.push(chapter);
                            assert(list.deep_view() =~= before.push(chapter@));
                        },
                        Err(e) => {
                            proof {
                                lemma_chapters_error_stays(
                                    items@,
                                    number.billionths as int,
                                    i + 1,
                                );
                            }
                            return Err(e);
                        },
                    }
                    i = i + 1;
                }
                assert(items@.take(items.len() as int) =~= items@);
                Ok(list)
            },
            None => Err(SourceError::MappingAmbiguity),
        },
        _ => Err(SourceError::Parse),
    }
}

/// An error among the first `k` chapter objects is the error of the whole.
proof fn lemma_chapters_error_stays(items: Seq<Json>, volume: int, k: int)
    requires
        0 <= k <= items.len(),
        chapters_of(items.take(k), volume) is Err,
    ensures
        chapters_of(items, volume) == chapters_of(items.take(k), volume),
    decreases items.len(),
{
    if k == items.len() {
        assert(items.take(k) =~= items);
    } else {
        assert(items.drop_last().take(k) =~= items.take(k));
        lemma_chapters_error_stays(items.drop_last(), volume, k);
    }
}

/// An error among the first `k` volumes is the error of the whole.
proof fn lemma_flattened_error_stays(volumes: Seq<Json>, k: int)
    requires
        0 <= k <= volumes.len(),
        flattened(volumes.take(k)) is Err,
    ensures
        flattened(volumes) == flattened(volumes.take(k)),
    decreases volumes.len(),
{
    if k == volumes.len() {
        assert(volumes.take(k) =~= volumes);
    } else {
        assert(volumes.drop_last().take(k) =~= volumes.take(k));
        lemma_flattened_error_stays(volumes.drop_last(), k);
    }
}

/// Maps the chapters of all volumes, volume after volume.
pub fn flatten_volumes(volumes: &Vec<Json>) -> (mapped: Result<Vec<Chapter>, SourceError>)
    ensures
        match mapped {
            Ok(list) => flattened(volumes@) == Ok::<_, SourceError>(list.deep_view()),
            Err(e) => flattened(volumes@) == Err::<Seq<ChapterView>, _>(e),
        },
{
    let mut list: Vec<Chapter> = Vec::new();
    let mut i: usize = 0;
    assert(volumes@.take(0) =~= Seq::<Json>::empty());
    assert(list.deep_view() =~= Seq::<ChapterView>::empty());
    while i < volumes.len()
        invariant
            i <= volumes.len(),
            flattened(volumes@.take(i as int)) == Ok::<_, SourceError>(list.deep_view()),
        decreases volumes.len() - i,
    {
        assert(volumes@.take(i + 1).drop_last() =~= volumes@.take(i as int));
        assert(volumes@.take(i + 1).last() == volumes@[i as int]);
        let ghost before = list.deep_view();
        match map_volume(&volumes[i]) {
            Ok(chapters) => {
                let mut chapters = chapters;
                let ghost added = chapters.deep_view();
                list.append(&mut chapters);
                assert(list.deep_view() =~= before + added);
            },
            Err(e) => {
                proof {
                    lemma_flattened_error_stays(volumes@, i + 1);
                }
                return Err(e);
            },
        }
        i = i + 1;
    }
    assert(volumes@.take(volumes.len() as int) =~= volumes@);
    Ok(list)
}

/// Builds the chapter list of a series from the server's volume listing.
pub fn build_chapter_list(response: &Json) -> (built: Result<Vec<Chapter>, SourceError>)
    ensures
        match built {
            Ok(list) => chapter_list(*response) == Ok::<_, SourceError>(list.deep_view()),
            Err(e) => chapter_list(*response) == Err::<Seq<ChapterView>, _>(e),
        },
{
    match response.as_array() {
        Some(volumes) => match flatten_volumes(volumes) {
            Ok(chapters) => Ok(sort_for_reading(chapters)),
            Err(e) => Err(e),
        },
        None => Err(SourceError::Parse),
    }
}

} // verus!
