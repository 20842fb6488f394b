//! The course of one catalogue operation: which request to send next and
//! what to make of each answer. The host performs the requests; every
//! decision between them is taken here.

use vstd::prelude::*;
use vstd::string::*;
use crate::chapters::{build_chapter_list, chapter_list};
use crate::config::Config;
use crate::error::SourceError;
use crate::json::Json;
use crate::mapper::{detail_entry, map_chapter_pages, map_detail, page_list};
use crate::operation::{
    listing_page,
    outcome_view,
    make_metadata_request,
    make_opening_request,
    map_listing_page,
    metadata_request,
    opening_request,
    Operation,
    OperationView,
    Output,
    OutputView,
};
use crate::request::{Request, RequestView, STATUS_OK};
use crate::router::{kind_of, select_kind};
use crate::session::{
    after,
    completion,
    granted_token,
    step_in,
    AuthStep,
    AuthStepView,
    Session,
    SessionEvent,
    SessionView,
};

verus! {

/// What an operation is waiting for while a request is under way.
#[derive(Debug)]
pub enum Pending {
    /// The answer to the authenticate request.
    Token,
    /// The answer to the operation's opening request, sent with `header`.
    Answer { header: String },
    /// The metadata of series `id`, whose series object has arrived.
    Metadata { id: String, series: Json },
}

pub enum PendingView {
    Token,
    Answer { header: Seq<char> },
    Metadata { id: Seq<char>, series: Json },
}

impl View for Pending {
    type V = PendingView;

    open spec fn view(&self) -> PendingView {
        match self {
            Pending::Token => PendingView::Token,
            Pending::Answer { header } => PendingView::Answer { header: header@ },
            Pending::Metadata { id, series } => PendingView::Metadata { id: id@, series: *series },
        }
    }
}

/// What the host is to do next.
#[derive(Debug)]
pub enum Action {
    /// Send the request and come back with the answer and `Pending`.
    Send(Request, Pending),
    /// Another operation is acquiring the credential: wait for it, then
    /// start again.
    Wait,
    /// The operation has ended.
    Done(Result<Output, SourceError>),
}

pub enum ActionView {
    Send(RequestView, PendingView),
    Wait,
    Done(Result<OutputView, SourceError>),
}

impl View for Action {
    type V = ActionView;

    open spec fn view(&self) -> ActionView {
        match self {
            Action::Send(request, pending) => ActionView::Send(request@, pending@),
            Action::Wait => ActionView::Wait,
            Action::Done(outcome) => ActionView::Done(outcome_view(*outcome)),
        }
    }
}

/// The first move of an operation: with a cached credential its opening
/// request; with none, and nobody fetching one, the authenticate request;
/// otherwise a wait.
pub open spec fn first_action(
    session: SessionView,
    op: OperationView,
    api_url: Seq<char>,
    api_key: Seq<char>,
) -> ActionView {
    match step_in(session, api_url, api_key) {
        AuthStepView::Ready(header) => ActionView::Send(
            opening_request(op, api_url, header),
            PendingView::Answer { header },
        ),
        AuthStepView::Acquire(request) => ActionView::Send(request, PendingView::Token),
        AuthStepView::Wait => ActionView::Wait,
    }
}

/// What an operation makes of the body of a successful answer to its
/// opening request: a listing, chapter or page operation ends with the
/// mapped body; a details operation goes on to ask for the metadata.
pub open spec fn answer_action(
    op: OperationView,
    header: Seq<char>,
    body: Json,
    api_url: Seq<char>,
    api_key: Seq<char>,
) -> ActionView {
    match op {
        OperationView::MangaList { query, page } => ActionView::Done(
            match listing_page(kind_of(query, Seq::empty()), body, api_url, api_key) {
                Ok(listing) => Ok(OutputView::Listing(listing)),
                Err(e) => Err(e),
            },
        ),
        OperationView::MangaListing { name, page } => ActionView::Done(
            match listing_page(kind_of(Seq::empty(), name), body, api_url, api_key) {
                Ok(listing) => Ok(OutputView::Listing(listing)),
                Err(e) => Err(e),
            },
        ),
        OperationView::MangaDetails { id } => ActionView::Send(
            metadata_request(id, api_url, header),
            PendingView::Metadata { id, series: body },
        ),
        OperationView::ChapterList { id } => ActionView::Done(
            match chapter_list(body) {
                Ok(chapters) => Ok(OutputView::Chapters(chapters)),
                Err(e) => Err(e),
            },
        ),
        OperationView::PageList { chapter_id } => ActionView::Done(
            match page_list(body, api_url, chapter_id, api_key) {
                Ok(pages) => Ok(OutputView::Pages(pages)),
                Err(e) => Err(e),
            },
        ),
    }
}

/// The move that follows an answer with status `status` and body `body`.
///
/// An answer to the authenticate request either yields the header, with
/// which the opening request goes out, or ends the operation with an
/// authentication error. Any other answer must have status 200, else the
/// operation ends with a transport error; a details operation ends with the
/// entry composed from both of its answers.
pub open spec fn next_action(
    session: SessionView,
    op: OperationView,
    pending: PendingView,
    status: int,
    body: Json,
    api_url: Seq<char>,
    api_key: Seq<char>,
) -> ActionView {
    match pending {
        PendingView::Token => match completion(session, granted_token(status, body)) {
            Ok(header) => ActionView::Send(
                opening_request(op, api_url, header),
                PendingView::Answer { header },
            ),
            Err(e) => ActionView::Done(Err(e)),
        },
        PendingView::Answer { header } => if status == STATUS_OK {
            answer_action(op, header, body, api_url, api_key)
        } else {
            ActionView::Done(Err(SourceError::Transport))
        },
        PendingView::Metadata { id, series } => if status == STATUS_OK {
            ActionView::Done(
                match detail_entry(id, series, body, api_url, api_key) {
                    Ok(entry) => Ok(OutputView::Details(entry)),
                    Err(e) => Err(e),
                },
            )
        } else {
            ActionView::Done(Err(SourceError::Transport))
        },
    }
}

/// The session after an answer: an answer to the authenticate request
/// completes the acquisition; any other answer with a status other than
/// 200 invalidates the credential; a successful one changes nothing.
pub open spec fn session_after(
    session: SessionView,
    pending: PendingView,
    status: int,
    body: Json,
) -> SessionView {
    match pending {
        PendingView::Token => after(session, SessionEvent::Complete(granted_token(status, body))),
        _ => if status == STATUS_OK {
            session
        } else {
            after(session, SessionEvent::Invalidate)
        },
    }
}

/// An answer to a catalogue request with a status other than 200 ends the
/// operation with a transport error and leaves no credential in the cache,
/// so that the next operation acquires a new one.
pub proof fn lemma_rejection_invalidates(
    session: SessionView,
    op: OperationView,
    pending: PendingView,
    status: int,
    body: Json,
    api_url: Seq<char>,
    api_key: Seq<char>,
)
    requires
        !(pending is Token),
        status != STATUS_OK,
    ensures
        next_action(session, op, pending, status, body, api_url, api_key) == ActionView::Done(
            Err(SourceError::Transport),
        ),
        !(session_after(session, pending, status, body) is Ready),
{
}

/// A failed acquisition ends the operation with an authentication error
/// and leaves the cache empty.
pub proof fn lemma_failed_acquisition_ends(
    op: OperationView,
    status: int,
    body: Json,
    api_url: Seq<char>,
    api_key: Seq<char>,
)
    requires
        granted_token(status, body) is None,
    ensures
        next_action(
            SessionView::Acquiring,
            op,
            PendingView::Token,
            status,
            body,
            api_url,
            api_key,
        ) == ActionView::Done(Err(SourceError::Auth)),
        session_after(SessionView::Acquiring, PendingView::Token, status, body) is Empty,
{
}

/// Lets an answer through if its status is 200; any other status
/// invalidates the credential and is a transport error.
pub fn check_status(session: &mut Session, status: i32) -> (passed: Result<(), SourceError>)
    ensures
        status == STATUS_OK ==> passed is Ok && final(session)@ == old(session)@,
        status != STATUS_OK ==> passed == Err::<(), _>(SourceError::Transport) && final(session)@
            == after(old(session)@, SessionEvent::Invalidate),
{
    if status == STATUS_OK {
        Ok(())
    } else {
        session.invalidate();
        Err(SourceError::Transport)
    }
}

/// Makes the first move of `op`.
pub fn start(session: &mut Session, config: &Config, op: &Operation) -> (action: Action)
    ensures
        action@ == first_action(old(session)@, op@, config.api_url@, config.api_key@),
        final(session)@ == after(old(session)@, SessionEvent::Begin),
{
    match session.begin(config) {
        AuthStep::Ready(header) => {
            let request = make_opening_request(op, config, header.as_str());
            Action::Send(request, Pending::Answer { header })
        },
        AuthStep::Acquire(request) => Action::Send(request, Pending::Token),
        AuthStep::Wait => Action::Wait,
    }
}

/// Decides what follows the body of a successful answer to the opening
/// request of `op`.
pub fn accept_answer(op: &Operation, header: String, body: Json, config: &Config) -> (action:
    Action)
    ensures
        action@ == answer_action(op@, header@, body, config.api_url@, config.api_key@),
{
    match op {
        Operation::MangaList { query, page } => {
            let name = String::new();
            let kind = select_kind(query.as_str(), name.as_str());
            match map_listing_page(kind, &body, config) {
                Ok(listing) => Action::Done(Ok(Output::Listing(listing))),
                Err(e) => Action::Done(Err(e)),
            }
        },
        Operation::MangaListing { name, page } => {
            let query = String::new();
            let kind = select_kind(query.as_str(), name.as_str());
            match map_listing_page(kind, &body, config) {
                Ok(listing) => Action::Done(Ok(Output::Listing(listing))),
                Err(e) => Action::Done(Err(e)),
            }
        },
        Operation::MangaDetails { id } => {
            let request = make_metadata_request(id.as_str(), config, header.as_str());
            Action::Send(request, Pending::Metadata { id: id.clone(), series: body })
        },
        Operation::ChapterList { id } => match build_chapter_list(&body) {
            Ok(chapters) => Action::Done(Ok(Output::Chapters(chapters))),
            Err(e) => Action::Done(Err(e)),
        },
        Operation::PageList { chapter_id } => match map_chapter_pages(
            &body,
            chapter_id.as_str(),
            config,
        ) {
            Ok(pages) => Action::Done(Ok(Output::Pages(pages))),
            Err(e) => Action::Done(Err(e)),
        },
    }
}

/// Makes the move that follows an answer.
pub fn resume(
    session: &mut Session,
    config: &Config,
    op: &Operation,
    pending: Pending,
    status: i32,
    body: Json,
) -> (action: Action)
    ensures
        action@ == next_action(
            old(session)@,
            op@,
            pending@,
            status as int,
            body,
            config.api_url@,
            config.api_key@,
        ),
        final(session)@ == session_after(old(session)@, pending@, status as int, body),
{
    match pending {
        Pending::Token => match session.complete(status, &body) {
            Ok(header) => {
                let request = make_opening_request(op, config, header.as_str());
                Action::Send(request, Pending::Answer { header })
            },
            Err(e) => Action::Done(Err(e)),
        },
        Pending::Answer { header } => match check_status(session, status) {
            Ok(()) => accept_answer(op, header, body, config),
            Err(e) => Action::Done(Err(e)),
        },
        Pending::Metadata { id, series } => match check_status(session, status) {
            Ok(()) => match map_detail(id.as_str(), &series, &body, config) {
                Ok(entry) => Action::Done(Ok(Output::Details(entry))),
                Err(e) => Action::Done(Err(e)),
            },
            Err(e) => Action::Done(Err(e)),
        },
    }
}

} // verus!
