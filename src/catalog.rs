//! The types that the desktop client's queries take and return.
use vstd::prelude::*;

verus! {

/// A genre to narrow a movie search to, or all of them.
#[derive(Clone, Copy, Debug, PartialEq, Eq, Structural)]
pub enum SearchGenre {
    All,
    Action,
    Adventure,
    Animation,
    Comedy,
    Crime,
    Documentary,
    Drama,
    Family,
    Fantasy,
    History,
    Horror,
    Music,
    Mystery,
    Romance,
    ScienceFiction,
    Thriller,
    TVMovie,
    War,
    Western,
}

/// The name under which a genre is listed in a movie's genres, if any.
pub open spec fn genre_label(g: SearchGenre) -> Option<Seq<char>> {
    match g {
        SearchGenre::All => None,
        SearchGenre::Action => Some("Action"@),
        SearchGenre::Adventure => Some("Adventure"@),
        SearchGenre::Animation => Some("Animation"@),
        SearchGenre::Comedy => Some("Comedy"@),
        SearchGenre::Crime => Some("Crime"@),
        SearchGenre::Documentary => Some("Documentary"@),
        SearchGenre::Drama => Some("Drama"@),
        SearchGenre::Family => Some("Family"@),
        SearchGenre::Fantasy => Some("Fantasy"@),
        SearchGenre::History => Some("History"@),
        SearchGenre::Horror => Some("Horror"@),
        SearchGenre::Music => Some("Music"@),
        SearchGenre::Mystery => Some("Mystery"@),
        SearchGenre::Romance => Some("Romance"@),
        SearchGenre::ScienceFiction => Some("Science Fiction"@),
        SearchGenre::Thriller => Some("Thriller"@),
        SearchGenre::TVMovie => Some("TV Movie"@),
        SearchGenre::War => Some("War"@),
        SearchGenre::Western => Some("Western"@),
    }
}

impl SearchGenre {
    /// The genre's name as the movies list it; none for `All`.
    pub fn as_str(&self) -> (r: Option<&'static str>)
        ensures
            match r {
                Some(s) => genre_label(*self) == Some(s@),
                None => genre_label(*self) is None,
            },
    {
        match self {
            SearchGenre::All => None,
            SearchGenre::Action => Some("Action"),
            SearchGenre::Adventure => Some("Adventure"),
            SearchGenre::Animation => Some("Animation"),
            SearchGenre::Comedy => Some("Comedy"),
            SearchGenre::Crime => Some("Crime"),
            SearchGenre::Documentary => Some("Documentary"),
            SearchGenre::Drama => Some("Drama"),
            SearchGenre::Family => Some("Family"),
            SearchGenre::Fantasy => Some("Fantasy"),
            SearchGenre::History => Some("History"),
            SearchGenre::Horror => Some("Horror"),
            SearchGenre::Music => Some("Music"),
            SearchGenre::Mystery => Some("Mystery"),
            SearchGenre::Romance => Some("Romance"),
            SearchGenre::ScienceFiction => Some("Science Fiction"),
            SearchGenre::Thriller => Some("Thriller"),
            SearchGenre::TVMovie => Some("TV Movie"),
            SearchGenre::War => Some("War"),
            SearchGenre::Western => Some("Western"),
        }
    }
}

/// The order, or the selection, of a movie search.
#[derive(Clone, Copy, Debug, PartialEq, Eq, Structural)]
pub enum SearchFilter {
    Alphabetical,
    Popular,
    Latest,
    TopRated,
    NoFilter,
    Unknow,
}

/// The view that a search reads.
pub open spec fn view_name(f: SearchFilter) -> Seq<char> {
    match f {
        SearchFilter::Alphabetical => "MovieShortView_Alphabetical"@,
        SearchFilter::Popular => "MovieShortView_ByPopularity"@,
        SearchFilter::Latest => "MovieShortView_ByReleaseDate"@,
        SearchFilter::TopRated => "MovieShortView_ByRating"@,
        _ => "MovieShortView"@,
    }
}

impl SearchFilter {
    /// The view that a search with this filter reads.
    pub fn to_view_name(&self) -> (r: &'static str)
        ensures
            r@ == view_name(*self),
    {
        match self {
            SearchFilter::Alphabetical => "MovieShortView_Alphabetical",
            SearchFilter::Popular => "MovieShortView_ByPopularity",
            SearchFilter::Latest => "MovieShortView_ByReleaseDate",
            SearchFilter::TopRated => "MovieShortView_ByRating",
            _ => "MovieShortView",
        }
    }
}

/// What a user signs in with.
#[derive(Clone, Debug)]
pub struct SqlUserCredentials {
    pub username: String,
    pub password: String,
}

/// A database account of the application.
#[derive(Clone, Debug)]
pub struct SqlUser {
    pub username: String,
    pub is_admin: bool,
    pub created_at: String,
}

/// One tag of a movie, as the client shows it.
#[derive(Clone, Debug)]
pub struct MovieTag {
    pub user_id: i32,
    pub tag: String,
    pub timestamp: i64,
}

/// How many movies carry a genre.
#[derive(Clone, Debug)]
pub struct MovieGenreCountStats {
    pub genre_name: String,
    pub genre_count: u32,
}

/// The sizes of the loaded datasets.
#[derive(Clone, Debug)]
pub struct CountStats {
    pub total_movies: u32,
    pub total_users: u32,
    pub total_ratings: u32,
    pub total_tags: u32,
    pub genre_count: Vec<MovieGenreCountStats>,
}

/// One of the most active users.
#[derive(Clone, Copy, Debug, PartialEq, Eq, Structural)]
pub struct TopUserItem {
    pub user_id: i32,
    pub num_ratings: i32,
    pub num_tags: i32,
}

/// One of the most profitable movies.
#[derive(Clone, Debug)]
pub struct TopMovieProfit {
    pub movie_id: i32,
    pub title: String,
    pub poster_path: String,
    pub profit: i64,
}

/// The statistics page of the client.
#[derive(Clone, Debug)]
pub struct Stats {
    pub count: CountStats,
    pub top_users: Vec<TopUserItem>,
    pub top_profits_movies: Vec<TopMovieProfit>,
}

} // verus!
