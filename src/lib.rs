//! Client library for the YTS movie catalog API: request builders that render
//! query URLs, and a decoder that turns answer bodies into typed records.
//!
//! Sending a request is left to the caller: render its URL with
//! [`ApiEndpoint::get_url`], fetch the body over HTTPS, and hand the text to
//! [`read_movie_list`] or [`read_movie_detail`].
pub mod decode;
pub mod envelope;
pub mod error;
pub mod json;
pub mod laws;
pub mod model;
pub mod query;

pub use decode::{decode_data, decode_movie, decode_response};
pub use envelope::{
    expect_movie_detail, expect_movie_list, open_body, open_document, open_envelope,
    read_movie_detail, read_movie_list,
};
pub use error::ApiError;
pub use json::{parse_json, Json};
pub use model::{Actor, Data, Movie, MovieDetail, MovieList, Response, Status, Torrent};
pub use query::{ApiEndpoint, ListMovies, MovieDetails, Order, Quality, Sort};
