//! Movies, their stored rows, and the mapping between the two.

use crate::fault::Fault;
use crate::store::{CommandView, StoreCommand};
use crate::text::text_eq;
use vstd::prelude::*;

verus! {

/// The closed set of kinds a movie record can have.
#[derive(Clone, Copy, Debug, PartialEq, Eq, Structural)]
pub enum MovieType {
    Movie,
    Series,
    Episode,
}

impl MovieType {
    /// The lowercase text under which a movie type is stored.
    pub open spec fn name(self) -> Seq<char> {
        match self {
            MovieType::Movie => "movie"@,
            MovieType::Series => "series"@,
            MovieType::Episode => "episode"@,
        }
    }

    /// The movie type stored under `name`, if there is one.
    pub open spec fn named(name: Seq<char>) -> Option<MovieType> {
        if name == "movie"@ {
            Some(MovieType::Movie)
        } else if name == "series"@ {
            Some(MovieType::Series)
        } else if name == "episode"@ {
            Some(MovieType::Episode)
        } else {
            None
        }
    }

    /// The three names differ, so every movie type is found again under
    /// its own name.
    pub proof fn lemma_named_name(self)
        ensures
            MovieType::named(self.name()) == Some(self),
    {
        reveal_strlit("movie");
        reveal_strlit("series");
        reveal_strlit("episode");
        assert("movie"@.len() == 5);
        assert("series"@.len() == 6);
        assert("episode"@.len() == 7);
    }

    /// A name that is found belongs to the movie type it is found for.
    pub proof fn lemma_name_named(name: Seq<char>)
        ensures
            MovieType::named(name) matches Some(t) ==> t.name() == name,
    {
    }

    /// The name under which this movie type is stored.
    pub fn as_str(self) -> (name: &'static str)
        ensures
            name@ == self.name(),
    {
        match self {
            MovieType::Movie => "movie",
            MovieType::Series => "series",
            MovieType::Episode => "episode",
        }
    }

    /// The movie type stored under `name`; none for any text but the
    /// three names.
    pub fn parse(name: &str) -> (parsed: Option<MovieType>)
        ensures
            parsed == MovieType::named(name@),
    {
        if text_eq(name, "movie") {
            Some(MovieType::Movie)
        } else if text_eq(name, "series") {
            Some(MovieType::Series)
        } else if text_eq(name, "episode") {
            Some(MovieType::Episode)
        } else {
            None
        }
    }
}

/// A movie as the handlers see it. `year` is text end to end: the
/// metadata service sends text, and the store keeps it as text.
#[derive(Clone, Debug, PartialEq, Eq)]
pub struct Movie {
    /// The key under which the movie is stored.
    pub imdb_id: String,
    pub title: String,
    pub year: String,
    pub movie_type: MovieType,
    pub poster_url: String,
    /// When the movie was last written. Every movie read from the store
    /// has it; a movie that came from a search and was never saved has
    /// none.
    pub updated_at: Option<String>,
}

/// What a [`Movie`] holds, as plain mathematical values.
pub struct MovieView {
    pub imdb_id: Seq<char>,
    pub title: Seq<char>,
    pub year: Seq<char>,
    pub movie_type: MovieType,
    pub poster_url: Seq<char>,
    pub updated_at: Option<Seq<char>>,
}

impl View for Movie {
    type V = MovieView;

    open spec fn view(&self) -> MovieView {
        MovieView {
            imdb_id: self.imdb_id@,
            title: self.title@,
            year: self.year@,
            movie_type: self.movie_type,
            poster_url: self.poster_url@,
            updated_at: self.updated_at.deep_view(),
        }
    }
}

impl DeepView for Movie {
    type V = MovieView;

    open spec fn deep_view(&self) -> MovieView {
        self@
    }
}

/// One row of the `movies` table: its six columns in table order. These
/// are also the six parameters of the statement that writes the row.
/// No column is ever NULL: a stored movie always has its timestamp.
#[derive(Clone, Debug, PartialEq, Eq)]
pub struct MovieRow {
    pub title: String,
    pub year: String,
    pub imdb_id: String,
    pub movie_type: String,
    pub poster_url: String,
    pub updated_at: String,
}

/// What a [`MovieRow`] holds, as plain mathematical values.
pub struct RowView {
    pub title: Seq<char>,
    pub year: Seq<char>,
    pub imdb_id: Seq<char>,
    pub movie_type: Seq<char>,
    pub poster_url: Seq<char>,
    pub updated_at: Seq<char>,
}

impl View for MovieRow {
    type V = RowView;

    open spec fn view(&self) -> RowView {
        RowView {
            title: self.title@,
            year: self.year@,
            imdb_id: self.imdb_id@,
            movie_type: self.movie_type@,
            poster_url: self.poster_url@,
            updated_at: self.updated_at@,
        }
    }
}

impl DeepView for MovieRow {
    type V = RowView;

    open spec fn deep_view(&self) -> RowView {
        self@
    }
}

impl MovieView {
    /// The timestamp under which this movie is written at the time
    /// `now`: its own where it has one, else `now`.
    pub open spec fn stamp(self, now: Seq<char>) -> Seq<char> {
        match self.updated_at {
            Some(updated_at) => updated_at,
            None => now,
        }
    }

    /// This movie as the store holds it once it is written at the time
    /// `now`: the same movie, with its timestamp present.
    pub open spec fn stored(self, now: Seq<char>) -> MovieView {
        MovieView {
            imdb_id: self.imdb_id,
            title: self.title,
            year: self.year,
            movie_type: self.movie_type,
            poster_url: self.poster_url,
            updated_at: Some(self.stamp(now)),
        }
    }

    /// The row that stores this movie when it is written at the time
    /// `now`. The row always carries a timestamp: the statement that
    /// writes it fills in nothing.
    pub open spec fn to_row(self, now: Seq<char>) -> RowView {
        RowView {
            title: self.title,
            year: self.year,
            imdb_id: self.imdb_id,
            movie_type: self.movie_type.name(),
            poster_url: self.poster_url,
            updated_at: self.stamp(now),
        }
    }
}

impl RowView {
    /// The movie that this row stores, each field from its own column
    /// and the timestamp present; none where the stored movie type is
    /// outside the closed set.
    pub open spec fn to_movie(self) -> Option<MovieView> {
        match MovieType::named(self.movie_type) {
            Some(movie_type) => Some(
                MovieView {
                    imdb_id: self.imdb_id,
                    title: self.title,
                    year: self.year,
                    movie_type,
                    poster_url: self.poster_url,
                    updated_at: Some(self.updated_at),
                },
            ),
            None => None,
        }
    }
}

/// The movies that `rows` store, in the same order; none where one of
/// the rows does not decode.
pub open spec fn rows_to_movies(rows: Seq<RowView>) -> Option<Seq<MovieView>> {
    if forall|i: int| 0 <= i < rows.len() ==> (#[trigger] rows[i]).to_movie() is Some {
        Some(Seq::new(rows.len(), |i: int| rows[i].to_movie().unwrap()))
    } else {
        None
    }
}

/// Writing a movie and reading the row back gives the movie as stored,
/// whatever its movie type: the movie itself where it has a timestamp,
/// and else the movie with the time of writing as its timestamp.
pub proof fn law_row_round_trip(movie: MovieView, now: Seq<char>)
    ensures
        movie.to_row(now).to_movie() == Some(movie.stored(now)),
        movie.updated_at is Some ==> movie.to_row(now).to_movie() == Some(movie),
{
    movie.movie_type.lemma_named_name();
}

/// A row that decodes is the row that stores the decoded movie, at any
/// time of writing: no two rows stand for the same movie.
pub proof fn law_movie_round_trip(row: RowView, now: Seq<char>)
    ensures
        row.to_movie() matches Some(movie) ==> movie.to_row(now) == row,
{
    MovieType::lemma_name_named(row.movie_type);
}

/// A movie read from the store has its timestamp, alone or in a
/// listing.
pub proof fn law_stored_movie_has_timestamp(rows: Seq<RowView>, i: int)
    requires
        0 <= i < rows.len(),
    ensures
        rows[i].to_movie() matches Some(movie) ==> movie.updated_at == Some(rows[i].updated_at),
        rows_to_movies(rows) matches Some(movies) ==> movies[i].updated_at == Some(
            rows[i].updated_at,
        ),
{
}

impl Movie {
    /// The row that stores this movie when it is written at the time
    /// `now`. A movie that has a timestamp keeps it; one that has none
    /// gets `now`.
    pub fn to_row(&self, now: &str) -> (row: MovieRow)
        ensures
            row@ == self@.to_row(now@),
    {
        let updated_at = match &self.updated_at {
            Some(updated_at) => updated_at.clone(),
            None => now.to_owned(),
        };
        MovieRow {
            title: self.title.clone(),
            year: self.year.clone(),
            imdb_id: self.imdb_id.clone(),
            movie_type: self.movie_type.as_str().to_owned(),
            poster_url: self.poster_url.clone(),
            updated_at,
        }
    }

    /// Decodes one stored row. The movie has its timestamp. A movie
    /// type outside the closed set means that the store is corrupt, and
    /// is reported as such.
    pub fn from_row(row: MovieRow) -> (decoded: Result<Movie, Fault>)
        ensures
            match row@.to_movie() {
                Some(movie) => decoded matches Ok(m) && m@ == movie,
                None => decoded == Err::<Movie, Fault>(Fault::CorruptRecord),
            },
            decoded matches Ok(m) ==> m.updated_at == Some(row.updated_at),
    {
        match MovieType::parse(row.movie_type.as_str()) {
            Some(movie_type) => Ok(
                Movie {
                    imdb_id: row.imdb_id,
                    title: row.title,
                    year: row.year,
                    movie_type,
                    poster_url: row.poster_url,
                    updated_at: Some(row.updated_at),
                },
            ),
            None => Err(Fault::CorruptRecord),
        }
    }

    /// The request that reads every stored movie. Its reply goes to
    /// [`Movie::all`].
    pub fn select_all() -> (command: StoreCommand)
        ensures
            command@ == CommandView::SelectMovies,
    {
        StoreCommand::SelectMovies
    }

    /// Decodes the reply to [`Movie::select_all`]: every row, in the
    /// order in which the store gave them, each movie with its
    /// timestamp. One corrupt row fails the whole listing.
    pub fn all(rows: Vec<MovieRow>) -> (listed: Result<Vec<Movie>, Fault>)
        ensures
            match rows_to_movies(rows.deep_view()) {
                Some(movies) => listed matches Ok(list) && list.deep_view() == movies,
                None => listed == Err::<Vec<Movie>, Fault>(Fault::CorruptRecord),
            },
            listed matches Ok(list) ==> forall|i: int|
                0 <= i < list.len() ==> (#[trigger] list[i]).updated_at is Some,
    {
        let ghost stored = rows.deep_view();
        let mut movies: Vec<Movie> = Vec::new();
        for row in it: rows.into_iter()
            invariant
                stored == rows.deep_view(),
                it.seq().len() == stored.len(),
                forall|k: int| 0 <= k < stored.len() ==> (#[trigger] it.seq()[k])@ == stored[k],
                movies.len() == it.index(),
                forall|k: int|
                    0 <= k < it.index() ==> (#[trigger] stored[k]).to_movie() == Some(movies[k]@),
                forall|k: int| 0 <= k < it.index() ==> (#[trigger] movies[k]).updated_at is Some,
        {
            match Movie::from_row(row) {
                Ok(movie) => {
                    movies.push(movie);
                },
                Err(fault) => {
                    assert(stored[it.index() as int].to_movie() is None);
                    return Err(fault);
                },
            }
        }
        assert(movies.deep_view() =~= rows_to_movies(stored).unwrap());
        Ok(movies)
    }

    /// The request that stores this movie at the time `now`: one
    /// statement that inserts the row, or replaces the row already
    /// stored under the same `imdb_id`. The row carries the movie's
    /// timestamp, or `now` where the movie has none.
    pub fn upsert(&self, now: &str) -> (command: StoreCommand)
        ensures
            command@ == CommandView::UpsertMovie(self@.to_row(now@)),
    {
        StoreCommand::UpsertMovie(self.to_row(now))
    }

    /// The request that removes the movie stored under `imdb_id`. It
    /// asks for no check that such a movie exists.
    pub fn delete(imdb_id: String) -> (command: StoreCommand)
        ensures
            command@ == CommandView::DeleteMovie(imdb_id@),
    {
        StoreCommand::DeleteMovie(imdb_id)
    }
}

} // verus!
