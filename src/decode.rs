//! Decoding of answer documents into records.
//!
//! Each record has a spec function that says when a value is what a JSON
//! object decodes to, member by member, and a decoder that returns that value
//! or `None` where no value is.
use vstd::prelude::*;

use crate::json::{
    field, number_field, opt_str_field, opt_uint_field, read_number_text, read_opt_str,
    read_opt_uint, read_str, read_str_list, read_uint, str_field, str_list_field, text_eq,
    text_view, texts_view, uint_field, get_field, Json,
};
use crate::model::{Actor, Data, Movie, MovieDetail, MovieList, Response, Status, Torrent};

verus! {

/// An optional integer as a natural number.
pub open spec fn opt_nat(o: Option<u32>) -> Option<nat> {
    match o {
        Some(n) => Some(n as nat),
        None => None,
    }
}

/// Whether `st` is what the value `j` decodes to as a status: the text `ok`
/// is the success marker, any other text is kept as it stands.
pub open spec fn status_decodes(j: Json, st: Status) -> bool {
    match j {
        Json::Str(s) => if s@ == "ok"@ {
            st is Success
        } else {
            st is Other && st->Other_0@ == s@
        },
        _ => false,
    }
}

/// Decodes a status.
pub fn decode_status(j: &Json) -> (r: Option<Status>)
    ensures
        match r {
            Some(st) => status_decodes(*j, st),
            None => forall|st: Status| !status_decodes(*j, st),
        },
{
    match j {
        Json::Str(s) => if text_eq(s.as_str(), "ok") {
            Some(Status::Success)
        } else {
            Some(Status::Other(s.clone()))
        },
        _ => None,
    }
}

/// Whether `st` is what the optional status member `key` decodes to.
pub open spec fn opt_status_decodes(j: Json, key: Seq<char>, st: Option<Status>) -> bool {
    match field(j, key) {
        None => st is None,
        Some(Json::Null) => st is None,
        Some(v) => st is Some && status_decodes(v, st->0),
    }
}

/// Decodes an optional status member.
pub fn decode_opt_status(j: &Json, key: &str) -> (r: Option<Option<Status>>)
    ensures
        match r {
            Some(st) => opt_status_decodes(*j, key@, st),
            None => forall|st: Option<Status>| !opt_status_decodes(*j, key@, st),
        },
{
    match get_field(j, key) {
        None => Some(None),
        Some(Json::Null) => Some(None),
        Some(v) => match decode_status(v) {
            Some(st) => Some(Some(st)),
            None => None,
        },
    }
}

/// Whether `ts` is what the array member `key` decodes to as torrents.
pub open spec fn torrents_decode(j: Json, key: Seq<char>, ts: Seq<Torrent>) -> bool {
    match field(j, key) {
        Some(Json::Array(a)) => a@.len() == ts.len() && forall|i: int|
            0 <= i < ts.len() ==> #[trigger] torrent_decodes(a@[i], ts[i]),
        _ => false,
    }
}

/// Decodes the array member `key` as torrents.
pub fn decode_torrents(j: &Json, key: &str) -> (r: Option<Vec<Torrent>>)
    ensures
        match r {
            Some(ts) => torrents_decode(*j, key@, ts@),
            None => forall|ts: Seq<Torrent>| !torrents_decode(*j, key@, ts),
        },
{
    match get_field(j, key) {
        Some(Json::Array(a)) => {
            let mut out: Vec<Torrent> = Vec::new();
            let mut i: usize = 0;
            while i < a.len()
                invariant
                    i <= a@.len(),
                    field(*j, key@) == Some(Json::Array(*a)),
                    out@.len() == i,
                    forall|k: int| 0 <= k < i ==> #[trigger] torrent_decodes(a@[k], out@[k]),
                decreases a@.len() - i,
            {
                match decode_torrent(&a[i]) {
                    Some(t) => out.push(t),
                    None => {
                        assert forall|ts: Seq<Torrent>| !torrents_decode(*j, key@, ts) by {
                            if ts.len() == a@.len() && i < ts.len() {
                                assert(!torrent_decodes(a@[i as int], ts[i as int]));
                            }
                        }
                        return None;
                    },
                }
                i = i + 1;
            }
            Some(out)
        },
        _ => None,
    }
}

/// Whether `c` is what the optional array member `key` decodes to as a cast.
pub open spec fn cast_decodes(j: Json, key: Seq<char>, c: Option<Vec<Actor>>) -> bool {
    match field(j, key) {
        None => c is None,
        Some(Json::Null) => c is None,
        Some(Json::Array(a)) => c is Some && a@.len() == c->0@.len() && forall|i: int|
            0 <= i < a@.len() ==> #[trigger] actor_decodes(a@[i], c->0@[i]),
        _ => false,
    }
}

/// Decodes the optional array member `key` as a cast.
pub fn decode_cast(j: &Json, key: &str) -> (r: Option<Option<Vec<Actor>>>)
    ensures
        match r {
            Some(c) => cast_decodes(*j, key@, c),
            None => forall|c: Option<Vec<Actor>>| !cast_decodes(*j, key@, c),
        },
{
    match get_field(j, key) {
        None => Some(None),
        Some(Json::Null) => Some(None),
        Some(Json::Array(a)) => {
            let mut out: Vec<Actor> = Vec::new();
            let mut i: usize = 0;
            while i < a.len()
                invariant
                    i <= a@.len(),
                    field(*j, key@) == Some(Json::Array(*a)),
                    out@.len() == i,
                    forall|k: int| 0 <= k < i ==> #[trigger] actor_decodes(a@[k], out@[k]),
                decreases a@.len() - i,
            {
                match decode_actor(&a[i]) {
                    Some(x) => out.push(x),
                    None => {
                        assert forall|c: Option<Vec<Actor>>| !cast_decodes(*j, key@, c) by {
                            if c is Some && c->0@.len() == a@.len() {
                                assert(!actor_decodes(a@[i as int], c->0@[i as int]));
                            }
                        }
                        return None;
                    },
                }
                i = i + 1;
            }
            Some(Some(out))
        },
        _ => None,
    }
}

/// Whether `t` is what the object `j` decodes to as a torrent.
pub open spec fn torrent_decodes(j: Json, t: Torrent) -> bool {
    &&& str_field(j, "url"@) == Some(t.url@)
    &&& str_field(j, "hash"@) == Some(t.hash@)
    &&& str_field(j, "quality"@) == Some(t.quality@)
    &&& str_field(j, "type"@) == Some(t._type@)
    &&& uint_field(j, "seeds"@, u32::MAX as nat) == Some(t.seeds as nat)
    &&& uint_field(j, "peers"@, u32::MAX as nat) == Some(t.peers as nat)
    &&& str_field(j, "size"@) == Some(t.size@)
    &&& uint_field(j, "size_bytes"@, u64::MAX as nat) == Some(t.size_bytes as nat)
    &&& str_field(j, "date_uploaded"@) == Some(t.date_uploaded@)
    &&& uint_field(j, "date_uploaded_unix"@, u64::MAX as nat) == Some(t.date_uploaded_unix as nat)
}

/// Decodes a torrent.
pub fn decode_torrent(j: &Json) -> (r: Option<Torrent>)
    ensures
        match r {
            Some(t) => torrent_decodes(*j, t),
            None => forall|t: Torrent| !torrent_decodes(*j, t),
        },
{
    let url = match read_str(j, "url") {
        Some(v) => v,
        None => return None,
    };
    let hash = match read_str(j, "hash") {
        Some(v) => v,
        None => return None,
    };
    let quality = match read_str(j, "quality") {
        Some(v) => v,
        None => return None,
    };
    let _type = match read_str(j, "type") {
        Some(v) => v,
        None => return None,
    };
    let seeds = match read_uint(j, "seeds", u32::MAX as u64) {
        Some(v) => v as u32,
        None => return None,
    };
    let peers = match read_uint(j, "peers", u32::MAX as u64) {
        Some(v) => v as u32,
        None => return None,
    };
    let size = match read_str(j, "size") {
        Some(v) => v,
        None => return None,
    };
    let size_bytes = match read_uint(j, "size_bytes", u64::MAX) {
        Some(v) => v,
        None => return None,
    };
    let date_uploaded = match read_str(j, "date_uploaded") {
        Some(v) => v,
        None => return None,
    };
    let date_uploaded_unix = match read_uint(j, "date_uploaded_unix", u64::MAX) {
        Some(v) => v,
        None => return None,
    };
    Some(Torrent {
        url,
        hash,
        quality,
        _type,
        seeds,
        peers,
        size,
        size_bytes,
        date_uploaded,
        date_uploaded_unix,
    })
}

/// Whether `a` is what the object `j` decodes to as a cast member.
pub open spec fn actor_decodes(j: Json, a: Actor) -> bool {
    &&& str_field(j, "name"@) == Some(a.name@)
    &&& str_field(j, "character_name"@) == Some(a.character_name@)
    &&& str_field(j, "imdb_code"@) == Some(a.imdb_code@)
    &&& opt_str_field(j, "url_small_image"@) == Some(text_view(a.url_small_image))
}

/// Decodes a cast member.
pub fn decode_actor(j: &Json) -> (r: Option<Actor>)
    ensures
        match r {
            Some(a) => actor_decodes(*j, a),
            None => forall|a: Actor| !actor_decodes(*j, a),
        },
{
    let name = match read_str(j, "name") {
        Some(v) => v,
        None => return None,
    };
    let character_name = match read_str(j, "character_name") {
        Some(v) => v,
        None => return None,
    };
    let imdb_code = match read_str(j, "imdb_code") {
        Some(v) => v,
        None => return None,
    };
    let url_small_image = match read_opt_str(j, "url_small_image") {
        Some(v) => v,
        None => return None,
    };
    Some(Actor {
        name,
        character_name,
        imdb_code,
        url_small_image,
    })
}

/// Whether `m` is what the object `j` decodes to as a movie.
pub open spec fn movie_decodes(j: Json, m: Movie) -> bool {
    &&& uint_field(j, "id"@, u32::MAX as nat) == Some(m.id as nat)
    &&& str_field(j, "url"@) == Some(m.url@)
    &&& str_field(j, "imdb_code"@) == Some(m.imdb_code@)
    &&& str_field(j, "title"@) == Some(m.title@)
    &&& str_field(j, "title_english"@) == Some(m.title_english@)
    &&& str_field(j, "title_long"@) == Some(m.title_long@)
    &&& str_field(j, "slug"@) == Some(m.slug@)
    &&& uint_field(j, "year"@, u32::MAX as nat) == Some(m.year as nat)
    &&& number_field(j, "rating"@) == Some(m.rating@)
    &&& uint_field(j, "runtime"@, u32::MAX as nat) == Some(m.runtime as nat)
    &&& str_list_field(j, "genres"@) == Some(texts_view(m.genres@))
    &&& opt_str_field(j, "summary"@) == Some(text_view(m.summary))
    &&& opt_str_field(j, "description_intro"@) == Some(text_view(m.description_intro))
    &&& str_field(j, "description_full"@) == Some(m.description_full@)
    &&& opt_str_field(j, "synopsis"@) == Some(text_view(m.synopsis))
    &&& str_field(j, "yt_trailer_code"@) == Some(m.yt_trailer_code@)
    &&& str_field(j, "language"@) == Some(m.language@)
    &&& str_field(j, "mpa_rating"@) == Some(m.mpa_rating@)
    &&& str_field(j, "background_image"@) == Some(m.background_image@)
    &&& str_field(j, "background_image_original"@) == Some(m.background_image_original@)
    &&& str_field(j, "small_cover_image"@) == Some(m.small_cover_image@)
    &&& str_field(j, "medium_cover_image"@) == Some(m.medium_cover_image@)
    &&& str_field(j, "large_cover_image"@) == Some(m.large_cover_image@)
    &&& opt_str_field(j, "medium_screenshot_image1"@) == Some(text_view(m.medium_screenshot_image1))
    &&& opt_str_field(j, "medium_screenshot_image2"@) == Some(text_view(m.medium_screenshot_image2))
    &&& opt_str_field(j, "medium_screenshot_image3"@) == Some(text_view(m.medium_screenshot_image3))
    &&& opt_str_field(j, "large_screenshot_image1"@) == Some(text_view(m.large_screenshot_image1))
    &&& opt_str_field(j, "large_screenshot_image2"@) == Some(text_view(m.large_screenshot_image2))
    &&& opt_str_field(j, "large_screenshot_image3"@) == Some(text_view(m.large_screenshot_image3))
    &&& opt_status_decodes(j, "state"@, m.state)
    &&& torrents_decode(j, "torrents"@, m.torrents@)
    &&& str_field(j, "date_uploaded"@) == Some(m.date_uploaded@)
    &&& uint_field(j, "date_uploaded_unix"@, u64::MAX as nat) == Some(m.date_uploaded_unix as nat)
    &&& opt_uint_field(j, "download_count"@, u32::MAX as nat) == Some(opt_nat(m.download_count))
    &&& opt_uint_field(j, "like_count"@, u32::MAX as nat) == Some(opt_nat(m.like_count))
    &&& cast_decodes(j, "cast"@, m.cast)
}

/// Decodes a movie.
pub fn decode_movie(j: &Json) -> (r: Option<Movie>)
    ensures
        match r {
            Some(m) => movie_decodes(*j, m),
            None => forall|m: Movie| !movie_decodes(*j, m),
        },
{
    let id = match read_uint(j, "id", u32::MAX as u64) {
        Some(v) => v as u32,
        None => return None,
    };
    let url = match read_str(j, "url") {
        Some(v) => v,
        None => return None,
    };
    let imdb_code = match read_str(j, "imdb_code") {
        Some(v) => v,
        None => return None,
    };
    let title = match read_str(j, "title") {
        Some(v) => v,
        None => return None,
    };
    let title_english = match read_str(j, "title_english") {
        Some(v) => v,
        None => return None,
    };
    let title_long = match read_str(j, "title_long") {
        Some(v) => v,
        None => return None,
    };
    let slug = match read_str(j, "slug") {
        Some(v) => v,
        None => return None,
    };
    let year = match read_uint(j, "year", u32::MAX as u64) {
        Some(v) => v as u32,
        None => return None,
    };
    let rating = match read_number_text(j, "rating") {
        Some(v) => v,
        None => return None,
    };
    let runtime = match read_uint(j, "runtime", u32::MAX as u64) {
        Some(v) => v as u32,
        None => return None,
    };
    let genres = match read_str_list(j, "genres") {
        Some(v) => v,
        None => return None,
    };
    let summary = match read_opt_str(j, "summary") {
        Some(v) => v,
        None => return None,
    };
    let description_intro = match read_opt_str(j, "description_intro") {
        Some(v) => v,
        None => return None,
    };
    let description_full = match read_str(j, "description_full") {
        Some(v) => v,
        None => return None,
    };
    let synopsis = match read_opt_str(j, "synopsis") {
        Some(v) => v,
        None => return None,
    };
    let yt_trailer_code = match read_str(j, "yt_trailer_code") {
        Some(v) => v,
        None => return None,
    };
    let language = match read_str(j, "language") {
        Some(v) => v,
        None => return None,
    };
    let mpa_rating = match read_str(j, "mpa_rating") {
        Some(v) => v,
        None => return None,
    };
    let background_image = match read_str(j, "background_image") {
        Some(v) => v,
        None => return None,
    };
    let background_image_original = match read_str(j, "background_image_original") {
        Some(v) => v,
        None => return None,
    };
    let small_cover_image = match read_str(j, "small_cover_image") {
        Some(v) => v,
        None => return None,
    };
    let medium_cover_image = match read_str(j, "medium_cover_image") {
        Some(v) => v,
        None => return None,
    };
    let large_cover_image = match read_str(j, "large_cover_image") {
        Some(v) => v,
        None => return None,
    };
    let medium_screenshot_image1 = match read_opt_str(j, "medium_screenshot_image1") {
        Some(v) => v,
        None => return None,
    };
    let medium_screenshot_image2 = match read_opt_str(j, "medium_screenshot_image2") {
        Some(v) => v,
        None => return None,
    };
    let medium_screenshot_image3 = match read_opt_str(j, "medium_screenshot_image3") {
        Some(v) => v,
        None => return None,
    };
    let large_screenshot_image1 = match read_opt_str(j, "large_screenshot_image1") {
        Some(v) => v,
        None => return None,
    };
    let large_screenshot_image2 = match read_opt_str(j, "large_screenshot_image2") {
        Some(v) => v,
        None => return None,
    };
    let large_screenshot_image3 = match read_opt_str(j, "large_screenshot_image3") {
        Some(v) => v,
        None => return None,
    };
    let state = match decode_opt_status(j, "state") {
        Some(v) => v,
        None => return None,
    };
    let torrents = match decode_torrents(j, "torrents") {
        Some(v) => v,
        None => return None,
    };
    let date_uploaded = match read_str(j, "date_uploaded") {
        Some(v) => v,
        None => return None,
    };
    let date_uploaded_unix = match read_uint(j, "date_uploaded_unix", u64::MAX) {
        Some(v) => v,
        None => return None,
    };
    let download_count = match read_opt_uint(j, "download_count", u32::MAX as u64) {
        Some(Some(v)) => Some(v as u32),
        Some(None) => None,
        None => return None,
    };
    let like_count = match read_opt_uint(j, "like_count", u32::MAX as u64) {
        Some(Some(v)) => Some(v as u32),
        Some(None) => None,
        None => return None,
    };
    let cast = match decode_cast(j, "cast") {
        Some(v) => v,
        None => return None,
    };
    Some(Movie {
        id,
        url,
        imdb_code,
        title,
        title_english,
        title_long,
        slug,
        year,
        rating,
        runtime,
        genres,
        summary,
        description_intro,
        description_full,
        synopsis,
        yt_trailer_code,
        language,
        mpa_rating,
        background_image,
        background_image_original,
        small_cover_image,
        medium_cover_image,
        large_cover_image,
        medium_screenshot_image1,
        medium_screenshot_image2,
        medium_screenshot_image3,
        large_screenshot_image1,
        large_screenshot_image2,
        large_screenshot_image3,
        state,
        torrents,
        date_uploaded,
        date_uploaded_unix,
        download_count,
        like_count,
        cast,
    })
}

/// Whether `ms` is what the member `key` decodes to as movies: an absent
/// member is no movies.
pub open spec fn movies_decode(j: Json, key: Seq<char>, ms: Seq<Movie>) -> bool {
    match field(j, key) {
        None => ms.len() == 0,
        Some(Json::Array(a)) => a@.len() == ms.len() && forall|i: int|
            0 <= i < ms.len() ==> #[trigger] movie_decodes(a@[i], ms[i]),
        _ => false,
    }
}

/// Decodes the member `key` as movies.
pub fn decode_movies(j: &Json, key: &str) -> (r: Option<Vec<Movie>>)
    ensures
        match r {
            Some(ms) => movies_decode(*j, key@, ms@),
            None => forall|ms: Seq<Movie>| !movies_decode(*j, key@, ms),
        },
{
    match get_field(j, key) {
        None => Some(Vec::new()),
        Some(Json::Array(a)) => {
            let mut out: Vec<Movie> = Vec::new();
            let mut i: usize = 0;
            while i < a.len()
                invariant
                    i <= a@.len(),
                    field(*j, key@) == Some(Json::Array(*a)),
                    out@.len() == i,
                    forall|k: int| 0 <= k < i ==> #[trigger] movie_decodes(a@[k], out@[k]),
                decreases a@.len() - i,
            {
                match decode_movie(&a[i]) {
                    Some(m) => out.push(m),
                    None => {
                        assert forall|ms: Seq<Movie>| !movies_decode(*j, key@, ms) by {
                            if ms.len() == a@.len() && i < ms.len() {
                                assert(!movie_decodes(a@[i as int], ms[i as int]));
                            }
                        }
                        return None;
                    },
                }
                i = i + 1;
            }
            Some(out)
        },
        _ => None,
    }
}

/// Whether `l` is what the object `j` decodes to as a page of search results.
pub open spec fn movielist_decodes(j: Json, l: MovieList) -> bool {
    &&& uint_field(j, "movie_count"@, u32::MAX as nat) == Some(l.movie_count as nat)
    &&& uint_field(j, "limit"@, u32::MAX as nat) == Some(l.limit as nat)
    &&& uint_field(j, "page_number"@, u32::MAX as nat) == Some(l.page_number as nat)
    &&& movies_decode(j, "movies"@, l.movies@)
}

/// Decodes a page of search results.
pub fn decode_movie_list(j: &Json) -> (r: Option<MovieList>)
    ensures
        match r {
            Some(l) => movielist_decodes(*j, l),
            None => forall|l: MovieList| !movielist_decodes(*j, l),
        },
{
    let movie_count = match read_uint(j, "movie_count", u32::MAX as u64) {
        Some(v) => v as u32,
        None => return None,
    };
    let limit = match read_uint(j, "limit", u32::MAX as u64) {
        Some(v) => v as u32,
        None => return None,
    };
    let page_number = match read_uint(j, "page_number", u32::MAX as u64) {
        Some(v) => v as u32,
        None => return None,
    };
    let movies = match decode_movies(j, "movies") {
        Some(v) => v,
        None => return None,
    };
    Some(MovieList { movie_count, limit, page_number, movies })
}

/// Whether `d` is what the object `j` decodes to as a movie-details payload.
pub open spec fn moviedetail_decodes(j: Json, d: MovieDetail) -> bool {
    match field(j, "movie"@) {
        Some(v) => movie_decodes(v, d.movie),
        None => false,
    }
}

/// Decodes a movie-details payload.
pub fn decode_movie_detail(j: &Json) -> (r: Option<MovieDetail>)
    ensures
        match r {
            Some(d) => moviedetail_decodes(*j, d),
            None => forall|d: MovieDetail| !moviedetail_decodes(*j, d),
        },
{
    match get_field(j, "movie") {
        Some(v) => match decode_movie(v) {
            Some(movie) => Some(MovieDetail { movie }),
            None => {
                assert forall|d: MovieDetail| !moviedetail_decodes(*j, d) by {
                    assert(!movie_decodes(*v, d.movie));
                }
                None
            },
        },
        None => None,
    }
}

/// Whether `j` decodes as a page of search results at all.
pub open spec fn is_list_shaped(j: Json) -> bool {
    exists|l: MovieList| #[trigger] movielist_decodes(j, l)
}

/// Whether `d` is what the object `j` decodes to as a payload: a page of
/// search results where it is one, else a movie-details payload.
pub open spec fn data_decodes(j: Json, d: Data) -> bool {
    if is_list_shaped(j) {
        d is MovieList && movielist_decodes(j, d->MovieList_0)
    } else {
        d is MovieDetails && moviedetail_decodes(j, d->MovieDetails_0)
    }
}

/// Decodes a payload, trying the search-results shape first and the
/// movie-details shape second.
pub fn decode_data(j: &Json) -> (r: Option<Data>)
    ensures
        match r {
            Some(d) => data_decodes(*j, d),
            None => forall|d: Data| !data_decodes(*j, d),
        },
{
    match decode_movie_list(j) {
        Some(l) => Some(Data::MovieList(l)),
        None => match decode_movie_detail(j) {
            Some(d) => Some(Data::MovieDetails(d)),
            None => None,
        },
    }
}

/// Whether `r` is what the object `j` decodes to as an answer envelope.
pub open spec fn response_decodes(j: Json, r: Response) -> bool {
    &&& match field(j, "status"@) {
        Some(v) => status_decodes(v, r.status),
        None => false,
    }
    &&& str_field(j, "status_message"@) == Some(r.status_message@)
    &&& match field(j, "data"@) {
        None => r.data is None,
        Some(Json::Null) => r.data is None,
        Some(v) => r.data is Some && data_decodes(v, r.data->0),
    }
}

/// Decodes an answer envelope.
pub fn decode_response(j: &Json) -> (r: Option<Response>)
    ensures
        match r {
            Some(resp) => response_decodes(*j, resp),
            None => forall|resp: Response| !response_decodes(*j, resp),
        },
{
    let status = match get_field(j, "status") {
        Some(v) => match decode_status(v) {
            Some(st) => st,
            None => {
                assert forall|resp: Response| !response_decodes(*j, resp) by {
                    assert(!status_decodes(*v, resp.status));
                }
                return None;
            },
        },
        None => return None,
    };
    let status_message = match read_str(j, "status_message") {
        Some(v) => v,
        None => return None,
    };
    let data = match get_field(j, "data") {
        None => None,
        Some(Json::Null) => None,
        Some(v) => match decode_data(v) {
            Some(d) => Some(d),
            None => {
                assert forall|resp: Response| !response_decodes(*j, resp) by {
                    if resp.data is Some {
                        assert(!data_decodes(*v, resp.data->0));
                    }
                }
                return None;
            },
        },
    };
    Some(Response { status, status_message, data })
}

} // verus!
