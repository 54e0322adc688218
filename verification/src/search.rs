//! The search against the movie-metadata service: the address to ask,
//! and the reading of its answer.

use crate::fault::Fault;
use crate::movie::{Movie, MovieView};
use vstd::prelude::*;
use vstd::string::*;

verus! {

/// The query parameters of a request for the list of movies.
#[derive(Clone, Debug, PartialEq, Eq)]
pub struct OmdbSearchParams {
    pub title: Option<String>,
}

impl View for OmdbSearchParams {
    type V = Option<Seq<char>>;

    /// The title asked for, if the request names one.
    open spec fn view(&self) -> Option<Seq<char>> {
        self.title.deep_view()
    }
}

/// The term to search for under the given `title` parameter: the title
/// itself where it is there and holds at least one character.
pub open spec fn term_of(title: Option<Seq<char>>) -> Option<Seq<char>> {
    match title {
        Some(term) if term.len() > 0 => Some(term),
        _ => None,
    }
}

impl OmdbSearchParams {
    /// The term to search for, if the request asks for a search.
    pub fn term(&self) -> (term: Option<&str>)
        ensures
            term.deep_view() == term_of(self@),
    {
        match &self.title {
            Some(title) => {
                if title.as_str().is_empty() {
                    None
                } else {
                    Some(title.as_str())
                }
            },
            None => None,
        }
    }
}

/// The answer of the metadata service, decoded.
#[derive(Clone, Debug, PartialEq, Eq)]
pub struct OmdbSearchResult {
    /// The movies found; the service sends them when it reports success.
    pub search: Option<Vec<Movie>>,
    /// The status: `"True"` for success, `"False"` for nothing found.
    pub response: String,
    /// What the service says went wrong, if anything.
    pub error: Option<String>,
}

/// What an [`OmdbSearchResult`] holds, as plain mathematical values.
pub struct SearchResultView {
    pub search: Option<Seq<MovieView>>,
    pub response: Seq<char>,
    pub error: Option<Seq<char>>,
}

impl View for OmdbSearchResult {
    type V = SearchResultView;

    open spec fn view(&self) -> SearchResultView {
        SearchResultView {
            search: self.search.deep_view(),
            response: self.response@,
            error: self.error.deep_view(),
        }
    }
}

impl DeepView for OmdbSearchResult {
    type V = SearchResultView;

    open spec fn deep_view(&self) -> SearchResultView {
        self@
    }
}

impl SearchResultView {
    /// What the answer amounts to. Success gives the movies sent, and is
    /// a decoding fault where none were sent. Failure means that nothing
    /// was found, which is no fault. Any other status breaks the
    /// protocol.
    pub open spec fn movies(self) -> Result<Seq<MovieView>, Fault> {
        if self.response == "True"@ {
            match self.search {
                Some(movies) => Ok(movies),
                None => Err(Fault::ExternalDecode),
            }
        } else if self.response == "False"@ {
            Ok(Seq::empty())
        } else {
            Err(Fault::ExternalProtocol)
        }
    }
}

/// The address that answers a search for `term`, asked with `api_key`.
pub open spec fn search_url_of(api_key: Seq<char>, term: Seq<char>) -> Seq<char> {
    "http://www.omdbapi.com/?apikey="@ + api_key + "&s="@ + term
}

impl Movie {
    /// The address to fetch for a search for `term`.
    pub fn search_url(api_key: &str, term: &str) -> (url: String)
        ensures
            url@ == search_url_of(api_key@, term@),
    {
        let mut url = "http://www.omdbapi.com/?apikey=".to_owned();
        url.append(api_key);
        url.append("&s=");
        url.append(term);
        url
    }

    /// Reads the decoded answer to a search.
    pub fn search(result: OmdbSearchResult) -> (found: Result<Vec<Movie>, Fault>)
        ensures
            match result@.movies() {
                Ok(movies) => found matches Ok(list) && list.deep_view() == movies,
                Err(fault) => found == Err::<Vec<Movie>, Fault>(fault),
            },
    {
        if crate::text::text_eq(result.response.as_str(), "True") {
            match result.search {
                Some(movies) => Ok(movies),
                None => Err(Fault::ExternalDecode),
            }
        } else if crate::text::text_eq(result.response.as_str(), "False") {
            let nothing: Vec<Movie> = Vec::new();
            assert(nothing.deep_view() =~= Seq::<MovieView>::empty());
            Ok(nothing)
        } else {
            Err(Fault::ExternalProtocol)
        }
    }
}

} // verus!
