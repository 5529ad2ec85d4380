//! Request builders, and how they render the URL of their request.
use vstd::prelude::*;
use vstd::string::*;

use crate::error::ApiError;

verus! {

/// The text of one decimal digit.
pub open spec fn digit_text(d: nat) -> Seq<char> {
    if d == 0 {
        "0"@
    } else if d == 1 {
        "1"@
    } else if d == 2 {
        "2"@
    } else if d == 3 {
        "3"@
    } else if d == 4 {
        "4"@
    } else if d == 5 {
        "5"@
    } else if d == 6 {
        "6"@
    } else if d == 7 {
        "7"@
    } else if d == 8 {
        "8"@
    } else {
        "9"@
    }
}

/// The decimal text of `n`, without leading zeros.
pub open spec fn decimal(n: nat) -> Seq<char>
    decreases n,
{
    if n < 10 {
        digit_text(n)
    } else {
        decimal(n / 10) + digit_text(n % 10)
    }
}

fn digit_str(d: u64) -> (r: &'static str)
    requires
        d < 10,
    ensures
        r@ == digit_text(d as nat),
{
    if d == 0 {
        "0"
    } else if d == 1 {
        "1"
    } else if d == 2 {
        "2"
    } else if d == 3 {
        "3"
    } else if d == 4 {
        "4"
    } else if d == 5 {
        "5"
    } else if d == 6 {
        "6"
    } else if d == 7 {
        "7"
    } else if d == 8 {
        "8"
    } else {
        "9"
    }
}

/// Appends the decimal text of `n`.
pub fn push_decimal(s: &mut String, n: u64)
    ensures
        final(s)@ == old(s)@ + decimal(n as nat),
    decreases n,
{
    if n >= 10 {
        push_decimal(s, n / 10);
    }
    s.append(digit_str(n % 10));
    proof {
        if n >= 10 {
            assert(final(s)@ =~= old(s)@ + decimal(n as nat));
        }
    }
}

/// The text of a flag.
pub open spec fn bool_text(b: bool) -> Seq<char> {
    if b {
        "true"@
    } else {
        "false"@
    }
}

fn bool_str(b: bool) -> (r: &'static str)
    ensures
        r@ == bool_text(b),
{
    if b {
        "true"
    } else {
        "false"
    }
}

/// The text of one query parameter: `name=value&`.
pub open spec fn param(name: Seq<char>, value: Seq<char>) -> Seq<char> {
    name + "="@ + value + "&"@
}

/// The text of a query parameter that may be unset: nothing where it is.
pub open spec fn opt_param(name: Seq<char>, value: Option<Seq<char>>) -> Seq<char> {
    match value {
        Some(v) => param(name, v),
        None => Seq::empty(),
    }
}

/// Appends the parameter `name=value&` where a value is given.
fn add_query(url: &mut String, name: &str, value: Option<&str>)
    ensures
        final(url)@ == old(url)@ + opt_param(
            name@,
            match value {
                Some(v) => Some(v@),
                None => None,
            },
        ),
{
    if let Some(v) = value {
        url.append(name);
        url.append("=");
        url.append(v);
        url.append("&");
        proof {
            assert(final(url)@ =~= old(url)@ + param(name@, v@));
        }
    } else {
        assert(final(url)@ =~= old(url)@ + Seq::<char>::empty());
    }
}

/// Appends the parameter `name=n&` where a number is given.
fn add_query_number(url: &mut String, name: &str, value: Option<u64>)
    ensures
        final(url)@ == old(url)@ + opt_param(
            name@,
            match value {
                Some(n) => Some(decimal(n as nat)),
                None => None,
            },
        ),
{
    if let Some(n) = value {
        url.append(name);
        url.append("=");
        push_decimal(url, n);
        url.append("&");
        proof {
            assert(final(url)@ =~= old(url)@ + param(name@, decimal(n as nat)));
        }
    } else {
        assert(final(url)@ =~= old(url)@ + Seq::<char>::empty());
    }
}

/// A resolution or format to filter search results by.
#[derive(Debug, Clone, Copy, PartialEq, Eq)]
pub enum Quality {
    Q720p,
    Q1080p,
    Q2160p,
    Q3D,
}

impl Quality {
    /// The label that the service knows this quality by.
    pub open spec fn label(self) -> Seq<char> {
        match self {
            Quality::Q720p => "720p"@,
            Quality::Q1080p => "1080p"@,
            Quality::Q2160p => "2160p"@,
            Quality::Q3D => "3D"@,
        }
    }

    /// The text of this value in a query.
    pub fn as_str(&self) -> (r: &'static str)
        ensures
            r@ == self.label(),
    {
        match self {
            Quality::Q720p => "720p",
            Quality::Q1080p => "1080p",
            Quality::Q2160p => "2160p",
            Quality::Q3D => "3D",
        }
    }
}

/// A key to sort search results by.
#[derive(Debug, Clone, Copy, PartialEq, Eq)]
pub enum Sort {
    Title,
    Year,
    Rating,
    Peers,
    Seeds,
    DownloadCount,
    LikeCount,
    DateAdded,
}

impl Sort {
    /// The name that the service knows this key by.
    pub open spec fn label(self) -> Seq<char> {
        match self {
            Sort::Title => "title"@,
            Sort::Year => "year"@,
            Sort::Rating => "rating"@,
            Sort::Peers => "peers"@,
            Sort::Seeds => "seeds"@,
            Sort::DownloadCount => "download_count"@,
            Sort::LikeCount => "like_count"@,
            Sort::DateAdded => "date_added"@,
        }
    }

    /// The text of this value in a query.
    pub fn as_str(&self) -> (r: &'static str)
        ensures
            r@ == self.label(),
    {
        match self {
            Sort::Title => "title",
            Sort::Year => "year",
            Sort::Rating => "rating",
            Sort::Peers => "peers",
            Sort::Seeds => "seeds",
            Sort::DownloadCount => "download_count",
            Sort::LikeCount => "like_count",
            Sort::DateAdded => "date_added",
        }
    }
}

/// The direction in which search results are sorted.
#[derive(Debug, Clone, Copy, PartialEq, Eq)]
pub enum Order {
    Desc,
    Asc,
}

impl Order {
    /// The name that the service knows this direction by.
    pub open spec fn label(self) -> Seq<char> {
        match self {
            Order::Desc => "desc"@,
            Order::Asc => "asc"@,
        }
    }

    /// The text of this value in a query.
    pub fn as_str(&self) -> (r: &'static str)
        ensures
            r@ == self.label(),
    {
        match self {
            Order::Desc => "desc",
            Order::Asc => "asc",
        }
    }
}

/// A request whose parameters render into the URL it is sent to.
pub trait ApiEndpoint {
    /// The URL of the request, as text.
    spec fn url(&self) -> Seq<char>;

    /// Renders the URL of the request.
    fn get_url(&self) -> (r: String)
        ensures
            r@ == self.url(),
    ;
}

/// The endpoint that searches the catalog.
pub open spec fn list_movies_base() -> Seq<char> {
    "https://yts.mx/api/v2/list_movies.json?"@
}

/// The endpoint that looks up one movie.
pub open spec fn movie_details_base() -> Seq<char> {
    "https://yts.mx/api/v2/movie_details.json?"@
}

/// A number parameter as text.
pub open spec fn number_value(o: Option<u32>) -> Option<Seq<char>> {
    match o {
        Some(n) => Some(decimal(n as nat)),
        None => None,
    }
}

/// A small number parameter as text.
pub open spec fn small_value(o: Option<u8>) -> Option<Seq<char>> {
    match o {
        Some(n) => Some(decimal(n as nat)),
        None => None,
    }
}

/// A quality parameter as text.
pub open spec fn quality_value(o: Option<Quality>) -> Option<Seq<char>> {
    match o {
        Some(q) => Some(q.label()),
        None => None,
    }
}

/// A sort key parameter as text.
pub open spec fn sort_value(o: Option<Sort>) -> Option<Seq<char>> {
    match o {
        Some(k) => Some(k.label()),
        None => None,
    }
}

/// A sort direction parameter as text.
pub open spec fn order_value(o: Option<Order>) -> Option<Seq<char>> {
    match o {
        Some(d) => Some(d.label()),
        None => None,
    }
}

/// A flag parameter as text.
pub open spec fn flag_value(o: Option<bool>) -> Option<Seq<char>> {
    match o {
        Some(b) => Some(bool_text(b)),
        None => None,
    }
}

/// A text parameter as text.
pub open spec fn str_value(o: Option<&str>) -> Option<Seq<char>> {
    match o {
        Some(t) => Some(t@),
        None => None,
    }
}

/// A search request. Unset parameters are left out of its URL.
#[derive(Debug, Clone, Copy)]
pub struct ListMovies<'a> {
    /// The number of results per page, from 2 to 50.
    pub limit: Option<u8>,
    /// The page to show, from 2 on; unset shows the first.
    pub page: Option<u32>,
    /// Only results of this quality.
    pub quality: Option<Quality>,
    /// Only results with at least this IMDb rating.
    pub minimum_rating: Option<u8>,
    /// Matched against titles, IMDb codes, actor and director names.
    pub query_term: Option<&'a str>,
    /// Only results of this genre.
    pub genre: Option<&'a str>,
    /// The key that results are sorted by.
    pub sort_by: Option<Sort>,
    /// The direction that results are sorted in.
    pub order_by: Option<Order>,
    /// Whether results carry their Rotten Tomatoes rating.
    pub wirth_rt_ratings: Option<bool>,
}

impl<'a> ListMovies<'a> {
    /// Whether the set limit and page are in their ranges.
    pub open spec fn wf(self) -> bool {
        &&& (self.limit matches Some(l) ==> 2 <= l <= 50)
        &&& (self.page matches Some(p) ==> p >= 2)
    }

    /// A search with no parameter set.
    pub fn new() -> (r: ListMovies<'a>)
        ensures
            r == (ListMovies::<'a> {
                limit: None,
                page: None,
                quality: None,
                minimum_rating: None,
                query_term: None,
                genre: None,
                sort_by: None,
                order_by: None,
                wirth_rt_ratings: None,
            }),
            r.wf(),
    {
        ListMovies {
            limit: None,
            page: None,
            quality: None,
            minimum_rating: None,
            query_term: None,
            genre: None,
            sort_by: None,
            order_by: None,
            wirth_rt_ratings: None,
        }
    }

    /// Sets the number of results per page; one outside 2 to 50 is refused.
    pub fn limit(self, limit: u8) -> (r: Result<Self, ApiError>)
        ensures
            match r {
                Ok(b) => 2 <= limit <= 50 && b == (ListMovies { limit: Some(limit), ..self }),
                Err(e) => !(2 <= limit <= 50) && e is Precondition,
            },
            self.wf() && r is Ok ==> r->Ok_0.wf(),
    {
        if limit > 1 && limit <= 50 {
            Ok(ListMovies { limit: Some(limit), ..self })
        } else {
            Err(ApiError::Precondition("limit out of range".to_owned()))
        }
    }

    /// Sets the page to show; one below 2 is refused.
    pub fn page(self, page: u32) -> (r: Result<Self, ApiError>)
        ensures
            match r {
                Ok(b) => page >= 2 && b == (ListMovies { page: Some(page), ..self }),
                Err(e) => page < 2 && e is Precondition,
            },
            self.wf() && r is Ok ==> r->Ok_0.wf(),
    {
        if page > 1 {
            Ok(ListMovies { page: Some(page), ..self })
        } else {
            Err(ApiError::Precondition("page out of range".to_owned()))
        }
    }

    /// Keeps only results of the given quality.
    pub fn quality(self, quality: Quality) -> (r: Self)
        ensures
            r == (ListMovies { quality: Some(quality), ..self }),
    {
        ListMovies { quality: Some(quality), ..self }
    }

    /// Keeps only results with at least the given IMDb rating.
    pub fn minimum_rating(self, minimum_rating: u8) -> (r: Self)
        ensures
            r == (ListMovies { minimum_rating: Some(minimum_rating), ..self }),
    {
        ListMovies { minimum_rating: Some(minimum_rating), ..self }
    }

    /// Searches for the given term.
    pub fn query_term(self, query_term: &'a str) -> (r: Self)
        ensures
            r == (ListMovies { query_term: Some(query_term), ..self }),
    {
        ListMovies { query_term: Some(query_term), ..self }
    }

    /// Keeps only results of the given genre.
    pub fn genre(self, genre: &'a str) -> (r: Self)
        ensures
            r == (ListMovies { genre: Some(genre), ..self }),
    {
        ListMovies { genre: Some(genre), ..self }
    }

    /// Sorts results by the given key.
    pub fn sort_by(self, sort_by: Sort) -> (r: Self)
        ensures
            r == (ListMovies { sort_by: Some(sort_by), ..self }),
    {
        ListMovies { sort_by: Some(sort_by), ..self }
    }

    /// Sorts results in the given direction.
    pub fn order_by(self, order_by: Order) -> (r: Self)
        ensures
            r == (ListMovies { order_by: Some(order_by), ..self }),
    {
        ListMovies { order_by: Some(order_by), ..self }
    }

    /// Asks for the Rotten Tomatoes rating of each result, or not.
    pub fn wirth_rt_ratings(self, wirth_rt_ratings: bool) -> (r: Self)
        ensures
            r == (ListMovies { wirth_rt_ratings: Some(wirth_rt_ratings), ..self }),
    {
        ListMovies { wirth_rt_ratings: Some(wirth_rt_ratings), ..self }
    }
}

impl<'a> ApiEndpoint for ListMovies<'a> {
    /// The search endpoint followed by each set parameter, in the order of
    /// the fields, as `name=value&`.
    open spec fn url(&self) -> Seq<char> {
        list_movies_base()
            + opt_param("limit"@, small_value(self.limit))
            + opt_param("page"@, number_value(self.page))
            + opt_param("quality"@, quality_value(self.quality))
            + opt_param("minimum_rating"@, small_value(self.minimum_rating))
            + opt_param("query_term"@, str_value(self.query_term))
            + opt_param("genre"@, str_value(self.genre))
            + opt_param("sort_by"@, sort_value(self.sort_by))
            + opt_param("order_by"@, order_value(self.order_by))
            + opt_param("wirth_rt_ratings"@, flag_value(self.wirth_rt_ratings))
    }

    fn get_url(&self) -> (r: String) {
        let mut url = "https://yts.mx/api/v2/list_movies.json?".to_owned();
        add_query_number(&mut url, "limit", match self.limit {
            Some(l) => Some(l as u64),
            None => None,
        });
        add_query_number(&mut url, "page", match self.page {
            Some(p) => Some(p as u64),
            None => None,
        });
        add_query(&mut url, "quality", match self.quality {
            Some(q) => Some(q.as_str()),
            None => None,
        });
        add_query_number(&mut url, "minimum_rating", match self.minimum_rating {
            Some(m) => Some(m as u64),
            None => None,
        });
        add_query(&mut url, "query_term", self.query_term);
        add_query(&mut url, "genre", self.genre);
        add_query(&mut url, "sort_by", match self.sort_by {
            Some(s) => Some(s.as_str()),
            None => None,
        });
        add_query(&mut url, "order_by", match self.order_by {
            Some(o) => Some(o.as_str()),
            None => None,
        });
        add_query(&mut url, "wirth_rt_ratings", match self.wirth_rt_ratings {
            Some(b) => Some(bool_str(b)),
            None => None,
        });
        url
    }
}

/// A request for the details of one movie.
#[derive(Debug, Clone, Copy)]
pub struct MovieDetails {
    /// The ID of the movie.
    pub movie_id: u32,
    /// Whether the answer carries the added image URLs.
    pub with_images: Option<bool>,
    /// Whether the answer carries the cast.
    pub with_cast: Option<bool>,
}

impl MovieDetails {
    /// A request for the movie with the given ID, with no flag set.
    pub fn new(movie_id: u32) -> (r: MovieDetails)
        ensures
            r == (MovieDetails { movie_id, with_images: None, with_cast: None }),
    {
        MovieDetails { movie_id, with_images: None, with_cast: None }
    }

    /// Asks for the added image URLs, or not.
    pub fn with_images(self, with_images: bool) -> (r: Self)
        ensures
            r == (MovieDetails { with_images: Some(with_images), ..self }),
    {
        MovieDetails { with_images: Some(with_images), ..self }
    }

    /// Asks for the cast, or not.
    pub fn with_cast(self, with_cast: bool) -> (r: Self)
        ensures
            r == (MovieDetails { with_cast: Some(with_cast), ..self }),
    {
        MovieDetails { with_cast: Some(with_cast), ..self }
    }
}

impl ApiEndpoint for MovieDetails {
    /// The details endpoint followed by the movie's ID and each set flag, as
    /// `name=value&`.
    open spec fn url(&self) -> Seq<char> {
        movie_details_base()
            + param("movie_id"@, decimal(self.movie_id as nat))
            + opt_param("with_images"@, flag_value(self.with_images))
            + opt_param("with_cast"@, flag_value(self.with_cast))
    }

    fn get_url(&self) -> (r: String) {
        let mut url = "https://yts.mx/api/v2/movie_details.json?".to_owned();
        add_query_number(&mut url, "movie_id", Some(self.movie_id as u64));
        add_query(&mut url, "with_images", match self.with_images {
            Some(b) => Some(bool_str(b)),
            None => None,
        });
        add_query(&mut url, "with_cast", match self.with_cast {
            Some(b) => Some(bool_str(b)),
            None => None,
        });
        url
    }
}

} // verus!
