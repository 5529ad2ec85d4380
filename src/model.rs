//! The records that the catalog service answers with.
use vstd::prelude::*;

verus! {

/// The status of a response, or the state of a movie: the success marker
/// `"ok"`, or any other text the service sends.
#[derive(Debug, Clone, PartialEq, Eq)]
pub enum Status {
    Success,
    Other(String),
}

/// One downloadable release of a movie.
#[derive(Debug, Clone, PartialEq, Eq)]
pub struct Torrent {
    pub url: String,
    pub hash: String,
    pub quality: String,
    /// The release type, sent as the member `type`.
    pub _type: String,
    pub seeds: u32,
    pub peers: u32,
    pub size: String,
    pub size_bytes: u64,
    pub date_uploaded: String,
    pub date_uploaded_unix: u64,
}

/// A member of a movie's cast.
#[derive(Debug, Clone, PartialEq, Eq)]
pub struct Actor {
    pub name: String,
    pub character_name: String,
    pub imdb_code: String,
    pub url_small_image: Option<String>,
}

/// A catalog entry.
#[derive(Debug, Clone, PartialEq, Eq)]
pub struct Movie {
    pub id: u32,
    pub url: String,
    pub imdb_code: String,
    pub title: String,
    pub title_english: String,
    pub title_long: String,
    pub slug: String,
    pub year: u32,
    /// The rating as the number's text, such as `7.5`.
    pub rating: String,
    pub runtime: u32,
    pub genres: Vec<String>,
    pub summary: Option<String>,
    pub description_intro: Option<String>,
    pub description_full: String,
    pub synopsis: Option<String>,
    pub yt_trailer_code: String,
    pub language: String,
    pub mpa_rating: String,
    pub background_image: String,
    pub background_image_original: String,
    pub small_cover_image: String,
    pub medium_cover_image: String,
    pub large_cover_image: String,
    pub medium_screenshot_image1: Option<String>,
    pub medium_screenshot_image2: Option<String>,
    pub medium_screenshot_image3: Option<String>,
    pub large_screenshot_image1: Option<String>,
    pub large_screenshot_image2: Option<String>,
    pub large_screenshot_image3: Option<String>,
    pub state: Option<Status>,
    pub torrents: Vec<Torrent>,
    pub date_uploaded: String,
    pub date_uploaded_unix: u64,
    pub download_count: Option<u32>,
    pub like_count: Option<u32>,
    pub cast: Option<Vec<Actor>>,
}

/// The payload of a movie-details answer: exactly one movie.
#[derive(Debug, Clone, PartialEq, Eq)]
pub struct MovieDetail {
    pub movie: Movie,
}

/// One page of a search answer.
#[derive(Debug, Clone, PartialEq, Eq)]
pub struct MovieList {
    pub movie_count: u32,
    pub limit: u32,
    pub page_number: u32,
    pub movies: Vec<Movie>,
}

/// The payload of an answer, told apart by the members present.
#[derive(Debug, Clone, PartialEq, Eq)]
pub enum Data {
    MovieList(MovieList),
    MovieDetails(MovieDetail),
}

/// The envelope around every answer.
#[derive(Debug, Clone, PartialEq, Eq)]
pub struct Response {
    pub status: Status,
    pub status_message: String,
    pub data: Option<Data>,
}

} // verus!
