//! The normalized catalogue entities, each with its mathematical view.

use vstd::prelude::*;
use crate::number::Decimal;

verus! {

/// Where a series stands in its publication.
#[derive(Clone, Copy, Debug, PartialEq, Eq)]
pub enum PublicationStatus {
    Ongoing,
    Hiatus,
    Completed,
    Cancelled,
    Unknown,
}

/// One series of the catalogue.
#[derive(Clone, Debug, PartialEq, Eq)]
pub struct CatalogEntry {
    /// The server's numeric identifier, in decimal.
    pub id: String,
    pub title: String,
    pub cover_url: String,
    pub author: String,
    pub artist: String,
    pub description: String,
    pub categories: Vec<String>,
    pub status: PublicationStatus,
}

pub struct EntryView {
    pub id: Seq<char>,
    pub title: Seq<char>,
    pub cover_url: Seq<char>,
    pub author: Seq<char>,
    pub artist: Seq<char>,
    pub description: Seq<char>,
    pub categories: Seq<Seq<char>>,
    pub status: PublicationStatus,
}

impl View for CatalogEntry {
    type V = EntryView;

    open spec fn view(&self) -> EntryView {
        EntryView {
            id: self.id@,
            title: self.title@,
            cover_url: self.cover_url@,
            author: self.author@,
            artist: self.artist@,
            description: self.description@,
            categories: self.categories.deep_view(),
            status: self.status,
        }
    }
}

impl DeepView for CatalogEntry {
    type V = EntryView;

    open spec fn deep_view(&self) -> EntryView {
        self@
    }
}

/// One readable chapter. `volume` and `chapter` are in billionths; volume
/// zero marks a chapter outside any volume.
#[derive(Clone, Debug, PartialEq, Eq)]
pub struct Chapter {
    pub id: String,
    pub title: String,
    pub volume: Decimal,
    pub chapter: Decimal,
    /// A note for the reader: the page count, and whether it is a special.
    pub info: String,
}

pub struct ChapterView {
    pub id: Seq<char>,
    pub title: Seq<char>,
    pub volume: int,
    pub chapter: int,
    pub info: Seq<char>,
}

impl View for Chapter {
    type V = ChapterView;

    open spec fn view(&self) -> ChapterView {
        ChapterView {
            id: self.id@,
            title: self.title@,
            volume: self.volume.billionths as int,
            chapter: self.chapter.billionths as int,
            info: self.info@,
        }
    }
}

impl DeepView for Chapter {
    type V = ChapterView;

    open spec fn deep_view(&self) -> ChapterView {
        self@
    }
}

/// One page image of a chapter.
#[derive(Clone, Debug, PartialEq, Eq)]
pub struct Page {
    /// The display position, counted from one.
    pub index: i64,
    pub url: String,
}

pub struct PageView {
    pub index: int,
    pub url: Seq<char>,
}

impl View for Page {
    type V = PageView;

    open spec fn view(&self) -> PageView {
        PageView { index: self.index as int, url: self.url@ }
    }
}

impl DeepView for Page {
    type V = PageView;

    open spec fn deep_view(&self) -> PageView {
        self@
    }
}

/// One page of a listing, with the guess whether another page follows.
#[derive(Clone, Debug, PartialEq, Eq)]
pub struct MangaPage {
    pub entries: Vec<CatalogEntry>,
    pub has_more: bool,
}

pub struct MangaPageView {
    pub entries: Seq<EntryView>,
    pub has_more: bool,
}

impl View for MangaPage {
    type V = MangaPageView;

    open spec fn view(&self) -> MangaPageView {
        MangaPageView { entries: self.entries.deep_view(), has_more: self.has_more }
    }
}

} // verus!
