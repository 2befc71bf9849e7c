//! Raw rating and weight votes. Votes are stored as given; the game's
//! aggregates change only on the next materialization.

use crate::models::{bad_request, ErrorResponse};
use crate::text::{append_i64, int_text};
use vstd::prelude::*;

verus! {

/// A rating vote with its context.
pub struct RatingVoteRequest {
    pub rating: i32,
    pub declared_scale: Option<String>,
    pub play_count: Option<i32>,
    pub experience_level: Option<String>,
}

/// The answer to a vote.
pub struct VoteResponse {
    pub status: &'static str,
    pub message: String,
}

/// A rating vote is accepted: a whole number from 1 to 10.
pub open spec fn valid_rating(rating: i32) -> bool {
    1 <= rating <= 10
}

/// Reviews a rating vote: `None` when it is accepted, otherwise the Problem
/// Details body (400, Bad Request) that refuses it.
pub fn review_rating(rating: i32) -> (res: Option<ErrorResponse>)
    ensures
        res is None <==> valid_rating(rating),
        res is None <==> 1 <= rating && rating <= 10,
        res is Some ==> {
            &&& res.unwrap().error_type@ == "about:blank"@
            &&& res.unwrap().title@ == "Bad Request"@
            &&& res.unwrap().status == 400
            &&& res.unwrap().detail is Some
            &&& res.unwrap().detail.unwrap()@ == "Rating must be between 1 and 10."@
        },
{
    if rating < 1 || rating > 10 {
        Some(bad_request("Rating must be between 1 and 10."))
    } else {
        None
    }
}

/// The answer (201, `accepted`) to a recorded rating vote.
pub fn rating_recorded(rating: i32, id_or_slug: &str) -> (res: (u16, VoteResponse))
    ensures
        res.0 == 201,
        res.1.status@ == "accepted"@,
        res.1.message@ == "Rating of "@ + int_text(rating as int) + " recorded for game '"@
            + id_or_slug@ + "'. Aggregates will update on next materialization."@,
{
    let mut m = String::from_str("Rating of ");
    append_i64(&mut m, rating as i64);
    m.append(" recorded for game '");
    m.append(id_or_slug);
    m.append("'. Aggregates will update on next materialization.");
    (201, VoteResponse { status: "accepted", message: m })
}

/// The Problem Details body (400, Bad Request) that refuses a weight vote
/// outside 1.0 to 5.0.
pub fn weight_rejected() -> (e: ErrorResponse)
    ensures
        e.error_type@ == "about:blank"@,
        e.title@ == "Bad Request"@,
        e.status == 400,
        e.detail is Some,
        e.detail.unwrap()@ == "Weight must be between 1.0 and 5.0."@,
{
    bad_request("Weight must be between 1.0 and 5.0.")
}

/// The answer (201, `accepted`) to a recorded weight vote, given the weight
/// written with one decimal.
pub fn weight_recorded(weight_text: &str, id_or_slug: &str) -> (res: (u16, VoteResponse))
    ensures
        res.0 == 201,
        res.1.status@ == "accepted"@,
        res.1.message@ == "Weight of "@ + weight_text@ + " recorded for game '"@ + id_or_slug@
            + "'. Aggregates will update on next materialization."@,
{
    let mut m = String::from_str("Weight of ");
    m.append(weight_text);
    m.append(" recorded for game '");
    m.append(id_or_slug);
    m.append("'. Aggregates will update on next materialization.");
    (201, VoteResponse { status: "accepted", message: m })
}

} // verus!
