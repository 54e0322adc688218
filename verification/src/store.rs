//! What the library asks of the store, and what those requests mean.
//!
//! The store itself is reached by the caller. This module fixes the
//! statement and parameters of every request, and models the `movies`
//! table as a map from `imdb_id` to row, so that the meaning of a
//! request can be stated and reasoned about.

use crate::movie::{law_row_round_trip, rows_to_movies, MovieRow, MovieView, RowView};
use vstd::prelude::*;

verus! {

/// Reads every row of the `movies` table; the order is left open.
pub const SELECT_MOVIES: &'static str =
    "SELECT title, year, imdb_id, movie_type, poster_url, updated_at FROM movies";

/// Writes one movie in a single statement: a new row, or on a row with
/// the same `imdb_id` the other five columns in place. All six values
/// are bound; the statement computes none.
pub const UPSERT_MOVIE: &'static str =
    "INSERT INTO movies (title, year, imdb_id, movie_type, poster_url, updated_at) \
     VALUES ($1, $2, $3, $4, $5, $6) \
     ON CONFLICT (imdb_id) DO UPDATE SET \
     title = $1, year = $2, movie_type = $4, poster_url = $5, updated_at = $6";

/// Removes the row with the given `imdb_id`, if there is one.
pub const DELETE_MOVIE: &'static str = "DELETE FROM movies WHERE imdb_id = $1";

/// Reads every row of the `users` table, each as one opaque record.
pub const SELECT_USERS: &'static str = "SELECT row_to_json(u)::text FROM users u";

/// One request to the store.
#[derive(Clone, Debug, PartialEq, Eq)]
pub enum StoreCommand {
    SelectMovies,
    UpsertMovie(MovieRow),
    DeleteMovie(String),
    SelectUsers,
}

/// What a [`StoreCommand`] holds, as plain mathematical values.
pub enum CommandView {
    SelectMovies,
    UpsertMovie(RowView),
    DeleteMovie(Seq<char>),
    SelectUsers,
}

impl View for StoreCommand {
    type V = CommandView;

    open spec fn view(&self) -> CommandView {
        match self {
            StoreCommand::SelectMovies => CommandView::SelectMovies,
            StoreCommand::UpsertMovie(row) => CommandView::UpsertMovie(row@),
            StoreCommand::DeleteMovie(imdb_id) => CommandView::DeleteMovie(imdb_id@),
            StoreCommand::SelectUsers => CommandView::SelectUsers,
        }
    }
}

impl DeepView for StoreCommand {
    type V = CommandView;

    open spec fn deep_view(&self) -> CommandView {
        self@
    }
}

/// The `movies` table: its rows by `imdb_id`, the primary key.
pub type Table = Map<Seq<char>, RowView>;

impl CommandView {
    /// The text of the statement.
    pub open spec fn sql(self) -> Seq<char> {
        match self {
            CommandView::SelectMovies => SELECT_MOVIES@,
            CommandView::UpsertMovie(_) => UPSERT_MOVIE@,
            CommandView::DeleteMovie(_) => DELETE_MOVIE@,
            CommandView::SelectUsers => SELECT_USERS@,
        }
    }

    /// The values bound to `$1`, `$2`, ... in that order. Each is a
    /// text; no command binds NULL.
    pub open spec fn params(self) -> Seq<Seq<char>> {
        match self {
            CommandView::SelectMovies => Seq::empty(),
            CommandView::UpsertMovie(row) => seq![
                row.title,
                row.year,
                row.imdb_id,
                row.movie_type,
                row.poster_url,
                row.updated_at,
            ],
            CommandView::DeleteMovie(imdb_id) => seq![imdb_id],
            CommandView::SelectUsers => Seq::empty(),
        }
    }

    /// The `movies` table after the command, given the table before it.
    /// An upsert puts its row, timestamp included, under the row's
    /// `imdb_id`, in place of any row that was there.
    pub open spec fn effect(self, table: Table) -> Table {
        match self {
            CommandView::UpsertMovie(row) => table.insert(row.imdb_id, row),
            CommandView::DeleteMovie(imdb_id) => table.remove(imdb_id),
            _ => table,
        }
    }
}

impl StoreCommand {
    /// The text of the statement to prepare.
    pub fn sql(&self) -> (sql: &'static str)
        ensures
            sql@ == self@.sql(),
    {
        match self {
            StoreCommand::SelectMovies => SELECT_MOVIES,
            StoreCommand::UpsertMovie(_) => UPSERT_MOVIE,
            StoreCommand::DeleteMovie(_) => DELETE_MOVIE,
            StoreCommand::SelectUsers => SELECT_USERS,
        }
    }

    /// The values to bind to the statement, in the order of its
    /// placeholders.
    pub fn params(&self) -> (params: Vec<String>)
        ensures
            params.deep_view() == self@.params(),
    {
        let mut params: Vec<String> = Vec::new();
        match self {
            StoreCommand::UpsertMovie(row) => {
                params.push(row.title.clone());
                params.push(row.year.clone());
                params.push(row.imdb_id.clone());
                params.push(row.movie_type.clone());
                params.push(row.poster_url.clone());
                params.push(row.updated_at.clone());
            },
            StoreCommand::DeleteMovie(imdb_id) => {
                params.push(imdb_id.clone());
            },
            _ => {},
        }
        assert(params.deep_view() =~= self@.params());
        params
    }
}

/// Each row of the table is stored under its own `imdb_id`.
pub open spec fn table_wf(table: Table) -> bool {
    forall|key: Seq<char>| table.contains_key(key) ==> (#[trigger] table[key]).imdb_id == key
}

/// `rows` is one way to list `table`: every row of the table, each once,
/// and no other, in any order.
pub open spec fn lists(rows: Seq<RowView>, table: Table) -> bool {
    &&& forall|i: int|
        0 <= i < rows.len() ==> table.contains_key((#[trigger] rows[i]).imdb_id)
            && table[rows[i].imdb_id] == rows[i]
    &&& forall|key: Seq<char>| #[trigger]
        table.contains_key(key) ==> exists|i: int|
            0 <= i < rows.len() && (#[trigger] rows[i]).imdb_id == key
    &&& forall|i: int, j: int|
        0 <= i < j < rows.len() ==> (#[trigger] rows[i]).imdb_id != (#[trigger] rows[j]).imdb_id
}

/// Whether the table holds `movie`: a row under its `imdb_id` that
/// decodes to it.
pub open spec fn holds(table: Table, movie: MovieView) -> bool {
    table.contains_key(movie.imdb_id) && table[movie.imdb_id].to_movie() == Some(movie)
}

/// Whether `movies` holds `movie` at exactly one place, and there alone
/// a movie with its `imdb_id`.
pub open spec fn holds_once(movies: Seq<MovieView>, movie: MovieView) -> bool {
    exists|i: int|
        0 <= i < movies.len() && #[trigger] movies[i] == movie && forall|j: int|
            0 <= j < movies.len() && (#[trigger] movies[j]).imdb_id == movie.imdb_id ==> j == i
}

/// Whether every row of the table decodes to a movie.
pub open spec fn table_sound(table: Table) -> bool {
    forall|key: Seq<char>| table.contains_key(key) ==> (#[trigger] table[key]).to_movie() is Some
}

/// The empty table is well formed and sound. Every command keeps a
/// table well formed, and keeps it sound unless it writes a row that
/// does not decode.
pub proof fn law_table_stays_well_formed(command: CommandView, table: Table)
    ensures
        table_wf(Map::<Seq<char>, RowView>::empty()),
        table_sound(Map::<Seq<char>, RowView>::empty()),
        table_wf(table) ==> table_wf(command.effect(table)),
        table_sound(table) && (command matches CommandView::UpsertMovie(row)
            ==> row.to_movie() is Some) ==> table_sound(command.effect(table)),
{
}

/// After a movie is upserted at the time `now`, every listing of the
/// table holds exactly one row with its `imdb_id`, and that row decodes
/// to the movie as stored. So a listing that decodes holds the stored
/// movie, with every field as written, and no other movie with its
/// `imdb_id`; for a movie that has a timestamp the stored movie is the
/// movie itself. The listing does decode where the table was sound
/// before.
pub proof fn law_upsert_then_list(
    table: Table,
    movie: MovieView,
    now: Seq<char>,
    rows: Seq<RowView>,
)
    requires
        lists(rows, CommandView::UpsertMovie(movie.to_row(now)).effect(table)),
    ensures
        exists|i: int|
            0 <= i < rows.len() && (#[trigger] rows[i]).to_movie() == Some(movie.stored(now))
                && forall|j: int|
                0 <= j < rows.len() && (#[trigger] rows[j]).imdb_id == movie.imdb_id ==> j == i,
        rows_to_movies(rows) matches Some(movies) ==> holds_once(movies, movie.stored(now)),
        movie.updated_at is Some ==> movie.stored(now) == movie,
        table_sound(table) ==> rows_to_movies(rows) is Some,
{
    let after = CommandView::UpsertMovie(movie.to_row(now)).effect(table);
    assert(after.contains_key(movie.imdb_id));
    let i = choose|i: int| 0 <= i < rows.len() && (#[trigger] rows[i]).imdb_id == movie.imdb_id;
    assert(rows[i] == movie.to_row(now));
    law_row_round_trip(movie, now);
    assert forall|j: int| 0 <= j < rows.len() && (#[trigger] rows[j]).imdb_id == movie.imdb_id
        implies j == i by {
        if j < i {
            assert(rows[j].imdb_id != rows[i].imdb_id);
        } else if i < j {
            assert(rows[i].imdb_id != rows[j].imdb_id);
        }
    }
    if let Some(movies) = rows_to_movies(rows) {
        assert(movies[i] == movie.stored(now));
        assert forall|j: int|
            0 <= j < movies.len() && (#[trigger] movies[j]).imdb_id == movie.imdb_id implies j
            == i by {
            assert(rows[j].imdb_id == movies[j].imdb_id);
        }
    }
    if table_sound(table) {
        law_table_stays_well_formed(CommandView::UpsertMovie(movie.to_row(now)), table);
        assert forall|k: int| 0 <= k < rows.len() implies (#[trigger] rows[k]).to_movie() is Some by {
            assert(after.contains_key(rows[k].imdb_id));
        }
    }
}

/// A command changes no row but the one under the `imdb_id` that it
/// names: every other `imdb_id` keeps its row, or stays without one.
pub proof fn law_other_rows_stay(command: CommandView, table: Table, key: Seq<char>)
    requires
        command matches CommandView::UpsertMovie(row) ==> row.imdb_id != key,
        command matches CommandView::DeleteMovie(imdb_id) ==> imdb_id != key,
    ensures
        command.effect(table).contains_key(key) == table.contains_key(key),
        table.contains_key(key) ==> command.effect(table)[key] == table[key],
{
}

/// Upserting is idempotent, and of two upserts under one `imdb_id` the
/// later one wins.
pub proof fn law_upsert_last_write_wins(
    table: Table,
    first: MovieView,
    earlier: Seq<char>,
    last: MovieView,
    later: Seq<char>,
)
    requires
        first.imdb_id == last.imdb_id,
    ensures
        CommandView::UpsertMovie(last.to_row(later)).effect(
            CommandView::UpsertMovie(first.to_row(earlier)).effect(table),
        ) == CommandView::UpsertMovie(last.to_row(later)).effect(table),
        CommandView::UpsertMovie(last.to_row(later)).effect(
            CommandView::UpsertMovie(last.to_row(later)).effect(table),
        ) == CommandView::UpsertMovie(last.to_row(later)).effect(table),
{
    let once = CommandView::UpsertMovie(last.to_row(later)).effect(table);
    assert(CommandView::UpsertMovie(last.to_row(later)).effect(
        CommandView::UpsertMovie(first.to_row(earlier)).effect(table),
    ) =~= once);
    assert(CommandView::UpsertMovie(last.to_row(later)).effect(once) =~= once);
}

/// After an `imdb_id` is deleted, no listing of the table holds a row
/// with it, and so no movie of a decoded listing has it.
pub proof fn law_delete_then_list(table: Table, imdb_id: Seq<char>, rows: Seq<RowView>)
    requires
        lists(rows, CommandView::DeleteMovie(imdb_id).effect(table)),
    ensures
        forall|i: int| 0 <= i < rows.len() ==> (#[trigger] rows[i]).imdb_id != imdb_id,
        rows_to_movies(rows) matches Some(movies) ==> forall|i: int|
            0 <= i < movies.len() ==> (#[trigger] movies[i]).imdb_id != imdb_id,
        table_sound(table) ==> rows_to_movies(rows) is Some,
{
    let after = CommandView::DeleteMovie(imdb_id).effect(table);
    if let Some(movies) = rows_to_movies(rows) {
        assert forall|i: int| 0 <= i < movies.len() implies (#[trigger] movies[i]).imdb_id
            != imdb_id by {
            assert(rows[i].imdb_id == movies[i].imdb_id);
        }
    }
    if table_sound(table) {
        assert forall|k: int| 0 <= k < rows.len() implies (#[trigger] rows[k]).to_movie() is Some by {
            assert(after.contains_key(rows[k].imdb_id));
        }
    }
}

} // verus!
