use vstd::prelude::*;
use vstd::string::*;
use crate::text::joined;

verus! {

/// How one outbound call failed.
#[derive(Clone, Copy, Debug, PartialEq, Eq, Structural)]
pub enum FetchError {
    /// The call did not complete: a network error or a timeout.
    Unavailable,
    /// The service answered with a status other than 200.
    Status(u16),
    /// The body was not of the expected shape.
    Malformed,
}

/// Why an aggregate could not be built.
#[derive(Clone, Debug)]
pub enum AggregateError {
    /// The listening-statistics service rejected the username.
    UserNotFound(String),
    /// The user exists but has no listening data for the period.
    NoListeningData(String),
    /// An upstream call failed on an otherwise valid request.
    UpstreamUnavailable,
    /// An upstream reply had an unexpected shape.
    UpstreamMalformed,
}

/// The text that a failed request answers with.
pub open spec fn error_text(e: AggregateError) -> Seq<char> {
    match e {
        AggregateError::UserNotFound(u) => "user "@ + u@ + " not found"@,
        AggregateError::NoListeningData(u) => "no listening data for user "@ + u@,
        AggregateError::UpstreamUnavailable => "upstream service unavailable"@,
        AggregateError::UpstreamMalformed => "upstream service sent a malformed reply"@,
    }
}

/// The error of a call whose failure is no statement about the user.
pub open spec fn upstream_error(e: FetchError) -> AggregateError {
    match e {
        FetchError::Malformed => AggregateError::UpstreamMalformed,
        _ => AggregateError::UpstreamUnavailable,
    }
}

/// The error of a call on a user's listing, where a status other than 200
/// means that the service does not know the user.
pub open spec fn listing_error(e: FetchError, user: String) -> AggregateError {
    match e {
        FetchError::Status(_) => AggregateError::UserNotFound(user),
        _ => upstream_error(e),
    }
}

/// Maps the failure of a call whose failure is no statement about the user.
pub fn map_upstream_error(e: FetchError) -> (r: AggregateError)
    ensures
        r == upstream_error(e),
{
    match e {
        FetchError::Malformed => AggregateError::UpstreamMalformed,
        _ => AggregateError::UpstreamUnavailable,
    }
}

/// Maps the failure of a call on `user`'s listing.
pub fn map_listing_error(e: FetchError, user: String) -> (r: AggregateError)
    ensures
        r == listing_error(e, user),
{
    match e {
        FetchError::Status(_) => AggregateError::UserNotFound(user),
        _ => map_upstream_error(e),
    }
}

impl AggregateError {
    /// The text that a failed request answers with.
    pub fn message(&self) -> (r: String)
        ensures
            r@ == error_text(*self),
    {
        match self {
            AggregateError::UserNotFound(u) => {
                let s = joined("user ", u.as_str());
                joined(s.as_str(), " not found")
            },
            AggregateError::NoListeningData(u) => joined("no listening data for user ", u.as_str()),
            AggregateError::UpstreamUnavailable => String::from_str("upstream service unavailable"),
            AggregateError::UpstreamMalformed => String::from_str(
                "upstream service sent a malformed reply",
            ),
        }
    }
}

} // verus!
