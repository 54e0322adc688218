//! The request handlers, as decisions around the outside work.
//!
//! A handler first plans: it names the one piece of outside work that
//! the request needs, a search or a store command, and remembers which
//! answer is pending. The caller does the work and reports what came of
//! it as an event. [`respond`] then settles the response.

use crate::fault::Fault;
use crate::movie::{rows_to_movies, Movie, MovieRow, MovieView, RowView};
use crate::search::{term_of, OmdbSearchParams, OmdbSearchResult, SearchResultView};
use crate::store::{holds, lists, table_sound, CommandView, StoreCommand, Table};
use crate::user::User;
use vstd::prelude::*;

verus! {

/// The status of a response that serves the request.
pub const STATUS_OK: u16 = 200;

/// The status of every response that reports a failure.
pub const STATUS_SERVER_FAULT: u16 = 500;

pub const UNABLE_TO_GET_CLIENT: &'static str = "unable to get postgres client";

pub const UNABLE_TO_FETCH_MOVIES: &'static str = "unable to fetch movies";

pub const UNABLE_TO_DELETE_MOVIE: &'static str = "unable to delete movie";

pub const UNABLE_TO_FETCH_USERS: &'static str = "unable to fetch users";

/// Which answer a request is waiting for.
#[derive(Clone, Copy, Debug, PartialEq, Eq, Structural)]
pub enum Pending {
    /// The movies found by the metadata service.
    Search,
    /// The stored movies.
    MovieList,
    /// The completion of an upsert.
    Upsert,
    /// The completion of a delete.
    Delete,
    /// The stored users.
    UserList,
}

/// The outside work that a request needs.
#[derive(Clone, Debug, PartialEq, Eq)]
pub enum Action {
    /// Ask the metadata service for the movies that match the term.
    Search(String),
    /// Run the command on a pooled connection to the store.
    Execute(StoreCommand),
}

/// What an [`Action`] holds, as plain mathematical values.
pub enum ActionView {
    Search(Seq<char>),
    Execute(CommandView),
}

impl View for Action {
    type V = ActionView;

    open spec fn view(&self) -> ActionView {
        match self {
            Action::Search(term) => ActionView::Search(term@),
            Action::Execute(command) => ActionView::Execute(command@),
        }
    }
}

impl ActionView {
    /// Whether the action reaches the store.
    pub open spec fn touches_store(self) -> bool {
        self is Execute
    }
}

/// What a handler decides on receiving a request.
#[derive(Clone, Debug, PartialEq, Eq)]
pub struct Plan {
    pub pending: Pending,
    pub action: Action,
}

/// What a [`Plan`] holds, as plain mathematical values.
pub struct PlanView {
    pub pending: Pending,
    pub action: ActionView,
}

impl View for Plan {
    type V = PlanView;

    open spec fn view(&self) -> PlanView {
        PlanView { pending: self.pending, action: self.action@ }
    }
}

/// What came of the outside work.
#[derive(Clone, Debug, PartialEq, Eq)]
pub enum Event {
    /// The work failed.
    Failed(Fault),
    /// The metadata service answered, and the answer decoded.
    Searched(OmdbSearchResult),
    /// The store answered a movie listing with these rows.
    Movies(Vec<MovieRow>),
    /// The store answered a user listing with these records.
    Users(Vec<String>),
    /// The store completed a command that yields no rows.
    Done,
}

/// What an [`Event`] holds, as plain mathematical values.
pub enum EventView {
    Failed(Fault),
    Searched(SearchResultView),
    Movies(Seq<RowView>),
    Users(Seq<Seq<char>>),
    Done,
}

impl View for Event {
    type V = EventView;

    open spec fn view(&self) -> EventView {
        match self {
            Event::Failed(fault) => EventView::Failed(*fault),
            Event::Searched(result) => EventView::Searched(result@),
            Event::Movies(rows) => EventView::Movies(rows.deep_view()),
            Event::Users(records) => EventView::Users(records.deep_view()),
            Event::Done => EventView::Done,
        }
    }
}

/// The body of a response, before it is written as JSON.
#[derive(Clone, Debug, PartialEq, Eq)]
pub enum Body {
    /// An array of movies.
    Movies(Vec<Movie>),
    /// An array of users.
    Users(Vec<User>),
    /// A short message, as a JSON string.
    Message(&'static str),
    /// JSON `null`.
    Null,
}

/// What a [`Body`] holds, as plain mathematical values.
pub enum BodyView {
    Movies(Seq<MovieView>),
    Users(Seq<Seq<char>>),
    Message(Seq<char>),
    Null,
}

impl View for Body {
    type V = BodyView;

    open spec fn view(&self) -> BodyView {
        match self {
            Body::Movies(movies) => BodyView::Movies(movies.deep_view()),
            Body::Users(users) => BodyView::Users(users.deep_view()),
            Body::Message(message) => BodyView::Message(message@),
            Body::Null => BodyView::Null,
        }
    }
}

/// The response to a request.
#[derive(Clone, Debug, PartialEq, Eq)]
pub struct Response {
    pub status: u16,
    pub body: Body,
    /// What went wrong, for the diagnostic log. It is no part of what
    /// the client is sent.
    pub fault: Option<Fault>,
}

/// What a [`Response`] holds, as plain mathematical values.
pub struct ResponseView {
    pub status: u16,
    pub body: BodyView,
    pub fault: Option<Fault>,
}

impl View for Response {
    type V = ResponseView;

    open spec fn view(&self) -> ResponseView {
        ResponseView { status: self.status, body: self.body@, fault: self.fault }
    }
}

/// The plan for a request for the list of movies: a search where the
/// request names a title of at least one character, else a listing of
/// the store.
pub open spec fn list_movies_plan(title: Option<Seq<char>>) -> PlanView {
    match term_of(title) {
        Some(term) => PlanView { pending: Pending::Search, action: ActionView::Search(term) },
        None => PlanView {
            pending: Pending::MovieList,
            action: ActionView::Execute(CommandView::SelectMovies),
        },
    }
}

/// The message sent when the answer awaited as `pending` fails with
/// `fault`.
pub open spec fn failure_message(pending: Pending, fault: Fault) -> Seq<char> {
    if fault == Fault::ConnectionAcquisition {
        UNABLE_TO_GET_CLIENT@
    } else {
        match pending {
            Pending::Search => UNABLE_TO_FETCH_MOVIES@,
            Pending::MovieList => UNABLE_TO_FETCH_MOVIES@,
            Pending::Upsert => UNABLE_TO_FETCH_MOVIES@,
            Pending::Delete => UNABLE_TO_DELETE_MOVIE@,
            Pending::UserList => UNABLE_TO_FETCH_USERS@,
        }
    }
}

/// The response that reports `fault`.
pub open spec fn failure(pending: Pending, fault: Fault) -> ResponseView {
    ResponseView {
        status: STATUS_SERVER_FAULT,
        body: BodyView::Message(failure_message(pending, fault)),
        fault: Some(fault),
    }
}

/// The response that serves the request with `body`.
pub open spec fn success(body: BodyView) -> ResponseView {
    ResponseView { status: STATUS_OK, body, fault: None }
}

/// The fault behind an event that cannot be the answer awaited as
/// `pending`: the party that should have answered did not keep to its
/// part.
pub open spec fn misplaced(pending: Pending) -> Fault {
    match pending {
        Pending::Search => Fault::ExternalProtocol,
        _ => Fault::Storage,
    }
}

/// The response to a request that awaits `pending`, once `event` is in.
pub open spec fn response_to(pending: Pending, event: EventView) -> ResponseView {
    match (pending, event) {
        (_, EventView::Failed(fault)) => failure(pending, fault),
        (Pending::Search, EventView::Searched(result)) => match result.movies() {
            Ok(movies) => success(BodyView::Movies(movies)),
            Err(fault) => failure(pending, fault),
        },
        (Pending::MovieList, EventView::Movies(rows)) => match rows_to_movies(rows) {
            Some(movies) => success(BodyView::Movies(movies)),
            None => failure(pending, Fault::CorruptRecord),
        },
        (Pending::Upsert, EventView::Done) => success(BodyView::Null),
        (Pending::Delete, EventView::Done) => success(BodyView::Null),
        (Pending::UserList, EventView::Users(records)) => success(BodyView::Users(records)),
        _ => failure(pending, misplaced(pending)),
    }
}

/// Plans a request for the list of movies.
pub fn list_movies(search: &OmdbSearchParams) -> (plan: Plan)
    ensures
        plan@ == list_movies_plan(search@),
{
    match search.term() {
        Some(term) => Plan { pending: Pending::Search, action: Action::Search(term.to_owned()) },
        None => Plan { pending: Pending::MovieList, action: Action::Execute(Movie::select_all()) },
    }
}

/// Plans a request, received at the time `now`, to store `movie`.
pub fn upsert_movies(movie: &Movie, now: &str) -> (plan: Plan)
    ensures
        plan.pending == Pending::Upsert,
        plan.action@ == ActionView::Execute(CommandView::UpsertMovie(movie@.to_row(now@))),
{
    Plan { pending: Pending::Upsert, action: Action::Execute(movie.upsert(now)) }
}

/// Plans a request to delete the movie stored under `imdb_id`.
pub fn delete_movie(imdb_id: String) -> (plan: Plan)
    ensures
        plan.pending == Pending::Delete,
        plan.action@ == ActionView::Execute(CommandView::DeleteMovie(imdb_id@)),
{
    Plan { pending: Pending::Delete, action: Action::Execute(Movie::delete(imdb_id)) }
}

/// Plans a request for the list of users.
pub fn list_users() -> (plan: Plan)
    ensures
        plan.pending == Pending::UserList,
        plan.action@ == ActionView::Execute(CommandView::SelectUsers),
{
    Plan { pending: Pending::UserList, action: Action::Execute(User::select_all()) }
}

fn fail(pending: Pending, fault: Fault) -> (response: Response)
    ensures
        response@ == failure(pending, fault),
{
    let message = match fault {
        Fault::ConnectionAcquisition => UNABLE_TO_GET_CLIENT,
        _ => match pending {
            Pending::Search => UNABLE_TO_FETCH_MOVIES,
            Pending::MovieList => UNABLE_TO_FETCH_MOVIES,
            Pending::Upsert => UNABLE_TO_FETCH_MOVIES,
            Pending::Delete => UNABLE_TO_DELETE_MOVIE,
            Pending::UserList => UNABLE_TO_FETCH_USERS,
        },
    };
    Response { status: STATUS_SERVER_FAULT, body: Body::Message(message), fault: Some(fault) }
}

fn serve(body: Body) -> (response: Response)
    ensures
        response@ == success(body@),
{
    Response { status: STATUS_OK, body, fault: None }
}

/// Settles the response to a request that awaits `pending`, now that
/// `event` is in.
pub fn respond(pending: Pending, event: Event) -> (response: Response)
    ensures
        response@ == response_to(pending, event@),
{
    match event {
        Event::Failed(fault) => fail(pending, fault),
        Event::Searched(result) => match pending {
            Pending::Search => match Movie::search(result) {
                Ok(movies) => serve(Body::Movies(movies)),
                Err(fault) => fail(pending, fault),
            },
            _ => fail(pending, Fault::Storage),
        },
        Event::Movies(rows) => match pending {
            Pending::MovieList => match Movie::all(rows) {
                Ok(movies) => serve(Body::Movies(movies)),
                Err(fault) => fail(pending, fault),
            },
            Pending::Search => fail(pending, Fault::ExternalProtocol),
            _ => fail(pending, Fault::Storage),
        },
        Event::Users(records) => match pending {
            Pending::UserList => serve(Body::Users(User::all(records))),
            Pending::Search => fail(pending, Fault::ExternalProtocol),
            _ => fail(pending, Fault::Storage),
        },
        Event::Done => match pending {
            Pending::Upsert => serve(Body::Null),
            Pending::Delete => serve(Body::Null),
            Pending::Search => fail(pending, Fault::ExternalProtocol),
            _ => fail(pending, Fault::Storage),
        },
    }
}

/// A request for the list of movies that names no title, or an empty
/// one, reads the store and changes nothing in it. Where every stored
/// row decodes, the response holds exactly the movies that the store
/// holds, each once and with its timestamp, in the order in which the
/// store listed them.
pub proof fn law_list_answers_with_the_store(
    title: Option<Seq<char>>,
    table: Table,
    rows: Seq<RowView>,
)
    requires
        term_of(title) is None,
        table_sound(table),
        lists(rows, table),
    ensures
        list_movies_plan(title).pending == Pending::MovieList,
        list_movies_plan(title).action == ActionView::Execute(CommandView::SelectMovies),
        CommandView::SelectMovies.effect(table) == table,
        response_to(Pending::MovieList, EventView::Movies(rows)).status == STATUS_OK,
        response_to(Pending::MovieList, EventView::Movies(rows)).body matches BodyView::Movies(
            movies,
        ) && movies.len() == rows.len() && movies.no_duplicates() && (forall|movie: MovieView|
            movies.contains(movie) <==> holds(table, movie)) && forall|i: int|
            0 <= i < movies.len() ==> (#[trigger] movies[i]).updated_at is Some,
{
    assert(rows_to_movies(rows) is Some);
    let movies = rows_to_movies(rows).unwrap();
    assert forall|i: int, j: int| 0 <= i < movies.len() && 0 <= j < movies.len() && i != j
        implies movies[i] != movies[j] by {
        assert(movies[i].imdb_id == rows[i].imdb_id);
        assert(movies[j].imdb_id == rows[j].imdb_id);
        if i < j {
            assert(rows[i].imdb_id != rows[j].imdb_id);
        } else {
            assert(rows[j].imdb_id != rows[i].imdb_id);
        }
    }
    assert forall|movie: MovieView| movies.contains(movie) <==> holds(table, movie) by {
        if movies.contains(movie) {
            let i = choose|i: int| 0 <= i < movies.len() && movies[i] == movie;
            assert(rows[i].to_movie() == Some(movie));
        }
        if holds(table, movie) {
            let i = choose|i: int|
                0 <= i < rows.len() && (#[trigger] rows[i]).imdb_id == movie.imdb_id;
            assert(movies[i] == movie);
        }
    }
}

/// A request for the list of movies that names a title of at least one
/// character is planned as a search for that title and never as a store
/// command. Where the metadata service reports that it found nothing,
/// the response serves an empty list and reports no fault.
pub proof fn law_search_leaves_the_store_alone(title: Seq<char>, result: SearchResultView)
    requires
        title.len() > 0,
    ensures
        list_movies_plan(Some(title)).pending == Pending::Search,
        list_movies_plan(Some(title)).action == ActionView::Search(title),
        !list_movies_plan(Some(title)).action.touches_store(),
        result.response == "False"@ ==> response_to(Pending::Search, EventView::Searched(result))
            == success(BodyView::Movies(Seq::empty())),
{
    reveal_strlit("True");
    reveal_strlit("False");
    assert("True"@.len() == 4);
    assert("False"@.len() == 5);
}

/// Every failure of the outside work is answered with a server fault
/// that carries a message: a transport failure, a payload that does not
/// decode, a connection that could not be had, a statement that the
/// store refused.
pub proof fn law_failure_is_a_server_fault(pending: Pending, fault: Fault)
    ensures
        response_to(pending, EventView::Failed(fault)).status == STATUS_SERVER_FAULT,
        response_to(pending, EventView::Failed(fault)).body is Message,
        response_to(pending, EventView::Failed(fault)).fault == Some(fault),
{
}

/// Whatever the event, there is a response, and it either serves the
/// request with status 200 and no fault or reports a fault with status
/// 500 and a message.
pub proof fn law_every_event_is_answered(pending: Pending, event: EventView)
    ensures
        ({
            let response = response_to(pending, event);
            ||| response.status == STATUS_OK && response.fault is None && !(response.body is Message)
            ||| response.status == STATUS_SERVER_FAULT && response.fault is Some
                && response.body is Message
        }),
{
}

/// Deleting an `imdb_id` that the store does not hold leaves the store
/// as it was, and the completed delete is answered as any other: with
/// success.
pub proof fn law_delete_of_absent_movie(table: Table, imdb_id: Seq<char>)
    requires
        !table.contains_key(imdb_id),
    ensures
        CommandView::DeleteMovie(imdb_id).effect(table) == table,
        response_to(Pending::Delete, EventView::Done) == success(BodyView::Null),
{
    assert(table.remove(imdb_id) =~= table);
}

} // verus!
