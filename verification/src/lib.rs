//! The request-handling and persistence rules of a favourite-movies
//! backend, free of I/O: what to ask of the store or of the metadata
//! service for a request, and what to answer once the reply is in.

pub mod fault;
pub mod handler;
pub mod movie;
pub mod search;
pub mod store;
pub mod text;
pub mod user;

pub use fault::Fault;
pub use handler::{
    delete_movie, list_movies, list_users, respond, upsert_movies, Action, Body, Event, Pending,
    Plan, Response,
};
pub use movie::{Movie, MovieRow, MovieType};
pub use search::{OmdbSearchParams, OmdbSearchResult};
pub use store::StoreCommand;
pub use user::User;
