//! What an answer text reads as, stated over the document it parses to.
use vstd::prelude::*;

use crate::decode::{data_decodes, is_list_shaped, moviedetail_decodes, movielist_decodes, response_decodes};
use crate::envelope::{
    body_outcome, detail_answer, detail_narrowing, document_outcome, envelope_outcome,
    list_answer, list_narrowing,
};
use crate::error::ApiError;
use crate::json::{field, json_of_text, str_field, Json};
use crate::model::{Data, MovieDetail, MovieList, Response};

verus! {

/// Whether the document `j` decodes as an answer envelope.
pub open spec fn is_envelope(j: Json) -> bool {
    exists|resp: Response| #[trigger] response_decodes(j, resp)
}

/// Whether the status member of `j` is the text `s`.
pub open spec fn status_text(j: Json, s: Seq<char>) -> bool {
    field(j, "status"@) matches Some(Json::Str(t)) && t@ == s
}

/// Whether `j` reports success and carries the payload `p`.
pub open spec fn success_with(j: Json, p: Json) -> bool {
    &&& status_text(j, "ok"@)
    &&& field(j, "data"@) == Some(p)
    &&& p !is Null
}

proof fn envelope_of(body: Seq<char>, j: Json, o: Result<Data, ApiError>) -> (resp: Response)
    requires
        json_of_text(body) == Some(j),
        is_envelope(j),
        body_outcome(body, o),
    ensures
        response_decodes(j, resp),
        envelope_outcome(resp, o),
{
    assert(document_outcome(j, o));
    choose|resp: Response| response_decodes(j, resp) && envelope_outcome(resp, o)
}

/// A success answer whose payload has the shape of search results reads, for
/// a search request, as the page that the payload decodes to: with the
/// declared movie count, limit and page number, and one movie for each
/// element of its `movies` array, so none where that array is empty or absent.
pub proof fn law_search_answer(body: Seq<char>, j: Json, p: Json, r: Result<MovieList, ApiError>)
    requires
        json_of_text(body) == Some(j),
        is_envelope(j),
        success_with(j, p),
        is_list_shaped(p),
        list_answer(body, r),
    ensures
        r is Ok,
        movielist_decodes(p, r->Ok_0),
{
    let o = choose|o: Result<Data, ApiError>| body_outcome(body, o) && list_narrowing(o, r);
    let resp = envelope_of(body, j, o);
    assert(data_decodes(p, resp.data->0));
}

/// A success answer whose payload is a single movie reads, for a details
/// request, as that movie, member for member, its ID included.
pub proof fn law_details_answer(body: Seq<char>, j: Json, p: Json, r: Result<MovieDetail, ApiError>)
    requires
        json_of_text(body) == Some(j),
        is_envelope(j),
        success_with(j, p),
        !is_list_shaped(p),
        detail_answer(body, r),
    ensures
        r is Ok,
        moviedetail_decodes(p, r->Ok_0),
{
    let o = choose|o: Result<Data, ApiError>| body_outcome(body, o) && detail_narrowing(o, r);
    let resp = envelope_of(body, j, o);
    assert(data_decodes(p, resp.data->0));
}

/// An answer with a status other than success reads, for either request, as
/// a remote error whose message is `<status>: <status_message>`.
pub proof fn law_remote_status(
    body: Seq<char>,
    j: Json,
    s: Seq<char>,
    m: Seq<char>,
    r1: Result<MovieList, ApiError>,
    r2: Result<MovieDetail, ApiError>,
)
    requires
        json_of_text(body) == Some(j),
        is_envelope(j),
        status_text(j, s),
        s != "ok"@,
        str_field(j, "status_message"@) == Some(m),
        list_answer(body, r1),
        detail_answer(body, r2),
    ensures
        r1 matches Err(ApiError::Remote(msg)) && msg@ == s + ": "@ + m,
        r2 matches Err(ApiError::Remote(msg)) && msg@ == s + ": "@ + m,
{
    let o1 = choose|o: Result<Data, ApiError>| body_outcome(body, o) && list_narrowing(o, r1);
    let resp1 = envelope_of(body, j, o1);
    let o2 = choose|o: Result<Data, ApiError>| body_outcome(body, o) && detail_narrowing(o, r2);
    let resp2 = envelope_of(body, j, o2);
}

/// A success answer without a payload reads, for either request, as a
/// missing-data error.
pub proof fn law_missing_payload(
    body: Seq<char>,
    j: Json,
    r1: Result<MovieList, ApiError>,
    r2: Result<MovieDetail, ApiError>,
)
    requires
        json_of_text(body) == Some(j),
        is_envelope(j),
        status_text(j, "ok"@),
        field(j, "data"@) is None || field(j, "data"@) == Some(Json::Null),
        list_answer(body, r1),
        detail_answer(body, r2),
    ensures
        r1 == Err::<MovieList, ApiError>(ApiError::MissingData),
        r2 == Err::<MovieDetail, ApiError>(ApiError::MissingData),
{
    let o1 = choose|o: Result<Data, ApiError>| body_outcome(body, o) && list_narrowing(o, r1);
    let resp1 = envelope_of(body, j, o1);
    let o2 = choose|o: Result<Data, ApiError>| body_outcome(body, o) && detail_narrowing(o, r2);
    let resp2 = envelope_of(body, j, o2);
}

/// A success answer read for the other kind of request is the wrong data:
/// search results for a details request, a single movie for a search request.
pub proof fn law_wrong_kind(
    body: Seq<char>,
    j: Json,
    p: Json,
    r1: Result<MovieList, ApiError>,
    r2: Result<MovieDetail, ApiError>,
)
    requires
        json_of_text(body) == Some(j),
        is_envelope(j),
        success_with(j, p),
        list_answer(body, r1),
        detail_answer(body, r2),
    ensures
        is_list_shaped(p) ==> r2 == Err::<MovieDetail, ApiError>(ApiError::WrongData),
        !is_list_shaped(p) ==> r1 == Err::<MovieList, ApiError>(ApiError::WrongData),
{
    let o1 = choose|o: Result<Data, ApiError>| body_outcome(body, o) && list_narrowing(o, r1);
    let resp1 = envelope_of(body, j, o1);
    assert(data_decodes(p, resp1.data->0));
    let o2 = choose|o: Result<Data, ApiError>| body_outcome(body, o) && detail_narrowing(o, r2);
    let resp2 = envelope_of(body, j, o2);
    assert(data_decodes(p, resp2.data->0));
}

} // verus!
