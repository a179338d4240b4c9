//! The desktop client's movie search: the query text for a genre and a
//! filter, and the parameters bound to it. Values are always bound, never
//! spliced into the text.
use crate::catalog::{genre_label, view_name, SearchFilter, SearchGenre};
use vstd::prelude::*;

verus! {

/// The lower-case form of a text, as `str::to_lowercase` gives it.
pub uninterp spec fn lower_of(s: Seq<char>) -> Seq<char>;

/// Relies on std's `str::to_lowercase`, whose result depends on the
/// characters of the text alone.
#[verifier::external_body]
fn lowercase(s: &str) -> (r: String)
    ensures
        r@ == lower_of(s@),
{
    s.to_lowercase()
}

/// The clause that narrows a search to a genre, bound as the second
/// parameter; nothing for all genres.
pub open spec fn genre_clause(g: SearchGenre) -> Seq<char> {
    if g == SearchGenre::All {
        Seq::empty()
    } else {
        " AND DBMS_LOB.INSTR(genres, :2) > 0"@
    }
}

/// The text of a movie search on the view of `filter`, narrowed to `genre`.
pub open spec fn short_movies_text(genre: SearchGenre, filter: SearchFilter) -> Seq<char> {
    "SELECT movie_id, tmdb_id, title, vote_average, poster_path FROM "@ + view_name(filter)
        + " WHERE LOWER(title) LIKE :1"@ + genre_clause(genre) + " FETCH FIRST 100 ROWS ONLY"@
}

/// The LIKE pattern that finds an already lower-cased query anywhere in a
/// lower-cased title.
pub fn like_pattern(lowered: &str) -> (r: String)
    ensures
        r@ == seq!['%'] + lowered@ + seq!['%'],
{
    proof {
        reveal_strlit("%");
    }
    let mut s = String::from_str("%");
    s.append(lowered);
    s.append("%");
    s
}

/// The LIKE pattern of a user's query: the query in lower case, anywhere in
/// the title.
pub fn search_pattern(query: &str) -> (r: String)
    ensures
        r@ == seq!['%'] + lower_of(query@) + seq!['%'],
{
    let lowered = lowercase(query);
    like_pattern(lowered.as_str())
}

/// The query text of a movie search.
pub fn short_movies_query(genre: SearchGenre, filter: SearchFilter) -> (r: String)
    ensures
        r@ == short_movies_text(genre, filter),
{
    let mut s = String::from_str("SELECT movie_id, tmdb_id, title, vote_average, poster_path FROM ");
    s.append(filter.to_view_name());
    s.append(" WHERE LOWER(title) LIKE :1");
    if genre != SearchGenre::All {
        s.append(" AND DBMS_LOB.INSTR(genres, :2) > 0");
    }
    s.append(" FETCH FIRST 100 ROWS ONLY");
    proof {
        if genre == SearchGenre::All {
            assert(s@ =~= short_movies_text(genre, filter));
        }
    }
    s
}

/// The parameters of a movie search, in placeholder order: the pattern of
/// the query, then the genre's name when the search is narrowed to one.
pub fn search_parameters(query: &str, genre: SearchGenre) -> (params: Vec<String>)
    ensures
        params@.len() == if genre_label(genre) is Some {
            2nat
        } else {
            1nat
        },
        params@[0]@ == seq!['%'] + lower_of(query@) + seq!['%'],
        genre_label(genre) matches Some(label) ==> params@[1]@ == label,
{
    let mut params: Vec<String> = Vec::new();
    params.push(search_pattern(query));
    match genre.as_str() {
        Some(label) => params.push(String::from_str(label)),
        None => {},
    }
    params
}

} // verus!
