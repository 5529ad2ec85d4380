//! From an answer body to the payload that a request asked for.
use vstd::prelude::*;
use vstd::string::*;

use crate::decode::{decode_response, response_decodes};
use crate::error::ApiError;
use crate::json::{json_of_text, parse_json, Json};
use crate::model::{Data, MovieDetail, MovieList, Response, Status};

verus! {

/// Whether `r` is the outcome of the envelope `resp`: a non-success status is
/// a remote error carrying `<status>: <status_message>`, success without a
/// payload is a missing-data error, and success with one yields it.
pub open spec fn envelope_outcome(resp: Response, r: Result<Data, ApiError>) -> bool {
    match resp.status {
        Status::Other(s) => r is Err && r->Err_0 is Remote && r->Err_0->Remote_0@ == s@ + ": "@
            + resp.status_message@,
        Status::Success => match resp.data {
            None => r == Err::<Data, ApiError>(ApiError::MissingData),
            Some(d) => r == Ok::<Data, ApiError>(d),
        },
    }
}

/// Checks the status of an envelope and takes its payload out.
pub fn open_envelope(resp: Response) -> (r: Result<Data, ApiError>)
    ensures
        envelope_outcome(resp, r),
{
    match resp.status {
        Status::Other(s) => {
            let mut msg = s.clone();
            msg.append(": ");
            msg.append(resp.status_message.as_str());
            Err(ApiError::Remote(msg))
        },
        Status::Success => match resp.data {
            None => Err(ApiError::MissingData),
            Some(d) => Ok(d),
        },
    }
}

/// Whether `r` is the outcome of the document `j`: a decode error where `j`
/// is no envelope, else the outcome of the envelope it decodes to.
pub open spec fn document_outcome(j: Json, r: Result<Data, ApiError>) -> bool {
    if exists|resp: Response| #[trigger] response_decodes(j, resp) {
        exists|resp: Response| #[trigger] response_decodes(j, resp) && envelope_outcome(resp, r)
    } else {
        r is Err && r->Err_0 is Decode
    }
}

/// Decodes a parsed answer and takes its payload out.
pub fn open_document(j: &Json) -> (r: Result<Data, ApiError>)
    ensures
        document_outcome(*j, r),
{
    match decode_response(j) {
        Some(resp) => {
            let ghost g = resp;
            let r = open_envelope(resp);
            assert(response_decodes(*j, g) && envelope_outcome(g, r));
            r
        },
        None => Err(ApiError::Decode("the answer is not an envelope".to_owned())),
    }
}

/// Whether `r` is the outcome of the answer text `body`: a decode error where
/// it is not JSON, else the outcome of the document it parses to.
pub open spec fn body_outcome(body: Seq<char>, r: Result<Data, ApiError>) -> bool {
    match json_of_text(body) {
        None => r is Err && r->Err_0 is Decode,
        Some(j) => document_outcome(j, r),
    }
}

/// Parses and decodes an answer text and takes its payload out.
pub fn open_body(body: &str) -> (r: Result<Data, ApiError>)
    ensures
        body_outcome(body@, r),
{
    match parse_json(body) {
        Some(j) => open_document(&j),
        None => Err(ApiError::Decode("the answer is not JSON".to_owned())),
    }
}

/// Narrows a payload to a page of search results.
pub fn expect_movie_list(d: Data) -> (r: Result<MovieList, ApiError>)
    ensures
        match d {
            Data::MovieList(l) => r == Ok::<MovieList, ApiError>(l),
            Data::MovieDetails(_) => r == Err::<MovieList, ApiError>(ApiError::WrongData),
        },
{
    match d {
        Data::MovieList(l) => Ok(l),
        Data::MovieDetails(_) => Err(ApiError::WrongData),
    }
}

/// Narrows a payload to a movie-details payload.
pub fn expect_movie_detail(d: Data) -> (r: Result<MovieDetail, ApiError>)
    ensures
        match d {
            Data::MovieDetails(m) => r == Ok::<MovieDetail, ApiError>(m),
            Data::MovieList(_) => r == Err::<MovieDetail, ApiError>(ApiError::WrongData),
        },
{
    match d {
        Data::MovieDetails(m) => Ok(m),
        Data::MovieList(_) => Err(ApiError::WrongData),
    }
}

/// Whether `r` is what a search request ends in when its payload outcome is
/// `o`: errors pass through, and a movie-details payload is the wrong data.
pub open spec fn list_narrowing(o: Result<Data, ApiError>, r: Result<MovieList, ApiError>) -> bool {
    match o {
        Err(e) => r == Err::<MovieList, ApiError>(e),
        Ok(Data::MovieList(l)) => r == Ok::<MovieList, ApiError>(l),
        Ok(Data::MovieDetails(_)) => r == Err::<MovieList, ApiError>(ApiError::WrongData),
    }
}

/// Whether `r` is what a details request ends in when its payload outcome is
/// `o`: errors pass through, and a search-results payload is the wrong data.
pub open spec fn detail_narrowing(o: Result<Data, ApiError>, r: Result<MovieDetail, ApiError>) -> bool {
    match o {
        Err(e) => r == Err::<MovieDetail, ApiError>(e),
        Ok(Data::MovieDetails(d)) => r == Ok::<MovieDetail, ApiError>(d),
        Ok(Data::MovieList(_)) => r == Err::<MovieDetail, ApiError>(ApiError::WrongData),
    }
}

/// Whether `r` is what a search request ends in when its answer text is `body`.
pub open spec fn list_answer(body: Seq<char>, r: Result<MovieList, ApiError>) -> bool {
    exists|o: Result<Data, ApiError>| #[trigger] body_outcome(body, o) && list_narrowing(o, r)
}

/// Whether `r` is what a details request ends in when its answer text is `body`.
pub open spec fn detail_answer(body: Seq<char>, r: Result<MovieDetail, ApiError>) -> bool {
    exists|o: Result<Data, ApiError>| #[trigger] body_outcome(body, o) && detail_narrowing(o, r)
}

/// Reads the answer to a search request.
pub fn read_movie_list(body: &str) -> (r: Result<MovieList, ApiError>)
    ensures
        list_answer(body@, r),
{
    let o = open_body(body);
    let ghost g = o;
    let r = match o {
        Err(e) => Err(e),
        Ok(d) => expect_movie_list(d),
    };
    assert(body_outcome(body@, g) && list_narrowing(g, r));
    r
}

/// Reads the answer to a details request.
pub fn read_movie_detail(body: &str) -> (r: Result<MovieDetail, ApiError>)
    ensures
        detail_answer(body@, r),
{
    let o = open_body(body);
    let ghost g = o;
    let r = match o {
        Err(e) => Err(e),
        Ok(d) => expect_movie_detail(d),
    };
    assert(body_outcome(body@, g) && detail_narrowing(g, r));
    r
}

} // verus!
