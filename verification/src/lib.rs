//! A read-only catalogue adapter for a self-hosted library server.
//!
//! The adapter shows the server's series, volumes, chapters and pages as a
//! paginated, searchable catalogue. It performs no I/O itself: [`fetch`]
//! says which request to send next and what to make of each answer, and the
//! host sends the requests.
//!
//! - [`session`] keeps the one bearer credential and sees to it that a
//!   single acquisition is in flight at a time.
//! - [`router`] resolves a listing name or a title search into a request.
//! - [`mapper`] turns series, metadata and chapter objects into entries and
//!   pages; [`chapters`] flattens volumes into chapters, and
//!   [`reading_order`] sorts them for the reader.
//! - [`pagination`] guesses whether a listing has another page.
//! - [`json`], [`number`] and [`text`] hold the data these work on.

pub mod chapters;
pub mod config;
pub mod error;
pub mod fetch;
pub mod json;
pub mod mapper;
pub mod model;
pub mod number;
pub mod operation;
pub mod pagination;
pub mod reading_order;
pub mod request;
pub mod router;
pub mod session;
pub mod text;
