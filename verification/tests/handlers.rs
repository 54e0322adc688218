use backend::handler::{
    delete_movie, list_movies, list_users, respond, upsert_movies, Action, Body, Event, Pending,
    Plan, Response, STATUS_OK, STATUS_SERVER_FAULT,
};
use backend::movie::{Movie, MovieRow, MovieType};
use backend::search::{OmdbSearchParams, OmdbSearchResult};
use backend::store::StoreCommand;
use backend::user::User;
use backend::Fault;

fn alien() -> Movie {
    Movie {
        imdb_id: "tt0078748".to_string(),
        title: "Alien".to_string(),
        year: "1979".to_string(),
        movie_type: MovieType::Movie,
        poster_url: "https://example.org/alien.jpg".to_string(),
        updated_at: Some("2024-03-04 05:06:07".to_string()),
    }
}

const NOW: &str = "2024-07-08 09:10:11";

fn corrupt_row() -> MovieRow {
    let mut row = alien().to_row(NOW);
    row.movie_type = "film".to_string();
    row
}

fn fault_response(message: &'static str, fault: Fault) -> Response {
    Response { status: 500, body: Body::Message(message), fault: Some(fault) }
}

fn served(body: Body) -> Response {
    Response { status: 200, body, fault: None }
}

#[test]
fn statuses_are_200_and_500() {
    assert_eq!(STATUS_OK, 200);
    assert_eq!(STATUS_SERVER_FAULT, 500);
}

#[test]
fn list_movies_with_a_title_plans_a_search() {
    let plan = list_movies(&OmdbSearchParams { title: Some("alien".to_string()) });
    assert_eq!(
        plan,
        Plan { pending: Pending::Search, action: Action::Search("alien".to_string()) }
    );
}

#[test]
fn list_movies_without_a_title_plans_a_listing() {
    let listing =
        Plan { pending: Pending::MovieList, action: Action::Execute(StoreCommand::SelectMovies) };
    assert_eq!(list_movies(&OmdbSearchParams { title: None }), listing);
    assert_eq!(list_movies(&OmdbSearchParams { title: Some(String::new()) }), listing);
}

#[test]
fn upsert_movies_plans_one_upsert() {
    assert_eq!(
        upsert_movies(&alien(), NOW),
        Plan {
            pending: Pending::Upsert,
            action: Action::Execute(StoreCommand::UpsertMovie(alien().to_row(NOW))),
        }
    );
}

#[test]
fn upsert_movies_stamps_a_movie_without_timestamp() {
    let mut found = alien();
    found.updated_at = None;
    let mut stored = alien().to_row(NOW);
    stored.updated_at = NOW.to_string();
    assert_eq!(
        upsert_movies(&found, NOW),
        Plan {
            pending: Pending::Upsert,
            action: Action::Execute(StoreCommand::UpsertMovie(stored)),
        }
    );
}

#[test]
fn delete_movie_plans_one_delete() {
    assert_eq!(
        delete_movie("tt0078748".to_string()),
        Plan {
            pending: Pending::Delete,
            action: Action::Execute(StoreCommand::DeleteMovie("tt0078748".to_string())),
        }
    );
}

#[test]
fn list_users_plans_a_listing() {
    assert_eq!(
        list_users(),
        Plan { pending: Pending::UserList, action: Action::Execute(StoreCommand::SelectUsers) }
    );
}

#[test]
fn search_that_found_movies_serves_them() {
    let result = OmdbSearchResult {
        search: Some(vec![alien()]),
        response: "True".to_string(),
        error: None,
    };
    assert_eq!(
        respond(Pending::Search, Event::Searched(result)),
        served(Body::Movies(vec![alien()]))
    );
}

#[test]
fn search_that_found_nothing_serves_an_empty_list() {
    let result = OmdbSearchResult {
        search: None,
        response: "False".to_string(),
        error: Some("Movie not found!".to_string()),
    };
    assert_eq!(
        respond(Pending::Search, Event::Searched(result)),
        served(Body::Movies(Vec::new()))
    );
}

#[test]
fn search_with_an_unknown_status_is_a_server_fault() {
    let result =
        OmdbSearchResult { search: None, response: "Perhaps".to_string(), error: None };
    assert_eq!(
        respond(Pending::Search, Event::Searched(result)),
        fault_response("unable to fetch movies", Fault::ExternalProtocol)
    );
}

#[test]
fn search_success_without_a_list_is_a_server_fault() {
    let result = OmdbSearchResult { search: None, response: "True".to_string(), error: None };
    assert_eq!(
        respond(Pending::Search, Event::Searched(result)),
        fault_response("unable to fetch movies", Fault::ExternalDecode)
    );
}

#[test]
fn malformed_payload_is_a_server_fault() {
    assert_eq!(
        respond(Pending::Search, Event::Failed(Fault::ExternalDecode)),
        fault_response("unable to fetch movies", Fault::ExternalDecode)
    );
}

#[test]
fn transport_failure_is_a_server_fault() {
    assert_eq!(
        respond(Pending::Search, Event::Failed(Fault::ExternalTransport)),
        fault_response("unable to fetch movies", Fault::ExternalTransport)
    );
}

#[test]
fn listed_rows_are_served_as_movies() {
    let mut series = alien();
    series.imdb_id = "tt0000002".to_string();
    series.movie_type = MovieType::Series;
    series.updated_at = Some("2024-01-01".to_string());
    let rows = vec![series.to_row(NOW), alien().to_row(NOW)];
    assert_eq!(
        respond(Pending::MovieList, Event::Movies(rows)),
        served(Body::Movies(vec![series, alien()]))
    );
    assert_eq!(
        respond(Pending::MovieList, Event::Movies(Vec::new())),
        served(Body::Movies(Vec::new()))
    );
}

#[test]
fn corrupt_row_is_a_server_fault() {
    assert_eq!(
        respond(Pending::MovieList, Event::Movies(vec![alien().to_row(NOW), corrupt_row()])),
        fault_response("unable to fetch movies", Fault::CorruptRecord)
    );
}

#[test]
fn completed_upsert_and_delete_serve_null() {
    assert_eq!(respond(Pending::Upsert, Event::Done), served(Body::Null));
    assert_eq!(respond(Pending::Delete, Event::Done), served(Body::Null));
}

#[test]
fn listed_users_are_served_unchanged() {
    let records = vec!["{\"id\":7}".to_string(), "{\"id\":8}".to_string()];
    assert_eq!(
        respond(Pending::UserList, Event::Users(records)),
        served(Body::Users(vec![
            User { record: "{\"id\":7}".to_string() },
            User { record: "{\"id\":8}".to_string() },
        ]))
    );
}

#[test]
fn missing_connection_has_its_own_message() {
    for pending in [
        Pending::Search,
        Pending::MovieList,
        Pending::Upsert,
        Pending::Delete,
        Pending::UserList,
    ] {
        assert_eq!(
            respond(pending, Event::Failed(Fault::ConnectionAcquisition)),
            fault_response("unable to get postgres client", Fault::ConnectionAcquisition)
        );
    }
}

#[test]
fn storage_failure_message_follows_the_request() {
    let expected = [
        (Pending::Search, "unable to fetch movies"),
        (Pending::MovieList, "unable to fetch movies"),
        (Pending::Upsert, "unable to fetch movies"),
        (Pending::Delete, "unable to delete movie"),
        (Pending::UserList, "unable to fetch users"),
    ];
    for (pending, message) in expected {
        assert_eq!(
            respond(pending, Event::Failed(Fault::Storage)),
            fault_response(message, Fault::Storage)
        );
    }
}

#[test]
fn every_fault_is_answered_with_500() {
    let faults = [
        Fault::ConnectionAcquisition,
        Fault::Storage,
        Fault::ExternalTransport,
        Fault::ExternalDecode,
        Fault::ExternalProtocol,
        Fault::CorruptRecord,
    ];
    for pending in [
        Pending::Search,
        Pending::MovieList,
        Pending::Upsert,
        Pending::Delete,
        Pending::UserList,
    ] {
        for fault in faults {
            let response = respond(pending, Event::Failed(fault));
            assert_eq!(response.status, 500);
            assert_eq!(response.fault, Some(fault));
            assert!(matches!(response.body, Body::Message(_)));
        }
    }
}

#[test]
fn misplaced_event_is_a_server_fault() {
    assert_eq!(
        respond(Pending::Search, Event::Done),
        fault_response("unable to fetch movies", Fault::ExternalProtocol)
    );
    assert_eq!(
        respond(Pending::Search, Event::Movies(vec![alien().to_row(NOW)])),
        fault_response("unable to fetch movies", Fault::ExternalProtocol)
    );
    assert_eq!(
        respond(Pending::Search, Event::Users(Vec::new())),
        fault_response("unable to fetch movies", Fault::ExternalProtocol)
    );
    assert_eq!(
        respond(Pending::MovieList, Event::Done),
        fault_response("unable to fetch movies", Fault::Storage)
    );
    assert_eq!(
        respond(Pending::Upsert, Event::Movies(Vec::new())),
        fault_response("unable to fetch movies", Fault::Storage)
    );
    assert_eq!(
        respond(Pending::Delete, Event::Users(Vec::new())),
        fault_response("unable to delete movie", Fault::Storage)
    );
    assert_eq!(
        respond(Pending::UserList, Event::Movies(Vec::new())),
        fault_response("unable to fetch users", Fault::Storage)
    );
    let result = OmdbSearchResult { search: None, response: "False".to_string(), error: None };
    assert_eq!(
        respond(Pending::Delete, Event::Searched(result)),
        fault_response("unable to delete movie", Fault::Storage)
    );
}
