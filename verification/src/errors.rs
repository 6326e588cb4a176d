//! The non-fatal failure taxonomy of a single refresh cycle. Every variant is
//! reported through the log ring and leaves the chart buffer untouched.
use vstd::prelude::*;

verus! {

/// Why a single query refresh failed. All of these are per-cycle conditions:
/// the loop keeps running and the previous chart data stays on screen.
#[derive(Clone, Copy, PartialEq, Eq, Structural, Debug)]
pub enum QueryError {
    /// The requested server name is not in the configuration.
    UnknownServer,
    /// The requested query name is not in the configuration.
    UnknownQuery,
    /// The query template referenced a variable the mapping does not hold.
    TemplateError,
    /// The backend answered, but with a non-success status or without data.
    BackendError,
    /// The HTTP request could not be carried out.
    TransportError,
    /// The backend's response body was not of the expected shape.
    ParseError,
}

/// The log line that describes a failed refresh, one fixed text per variant.
pub open spec fn spec_log_line(e: QueryError) -> Seq<char> {
    match e {
        QueryError::UnknownServer => "refresh failed: no server by that name in the config"@,
        QueryError::UnknownQuery => "refresh failed: there was no query by that name"@,
        QueryError::TemplateError => "refresh failed: the query template referenced a missing variable"@,
        QueryError::BackendError => "refresh failed: the backend reported an error or returned no data"@,
        QueryError::TransportError => "refresh failed: could not reach the backend"@,
        QueryError::ParseError => "refresh failed: could not parse the backend response"@,
    }
}

impl QueryError {
    /// The line that the refresh path hands to the log ring for this failure.
    pub fn log_line(&self) -> (r: String)
        ensures
            r@ == spec_log_line(*self),
    {
        match self {
            QueryError::UnknownServer => "refresh failed: no server by that name in the config".to_owned(),
            QueryError::UnknownQuery => "refresh failed: there was no query by that name".to_owned(),
            QueryError::TemplateError => "refresh failed: the query template referenced a missing variable".to_owned(),
            QueryError::BackendError => "refresh failed: the backend reported an error or returned no data".to_owned(),
            QueryError::TransportError => "refresh failed: could not reach the backend".to_owned(),
            QueryError::ParseError => "refresh failed: could not parse the backend response".to_owned(),
        }
    }
}

} // verus!
