//! What a query hands back, and how a response is accepted or refused.
use vstd::prelude::*;

verus! {

/// A query's response: data, errors, or both.
#[derive(Debug)]
pub struct GraphQLResponse<T> {
    pub data: Option<T>,
    pub errors: Option<Vec<String>>,
}

/// Why a query could not be used.
#[derive(Debug)]
pub enum FetchError {
    /// The response carried a non-empty list of errors (their messages).
    Api(Vec<String>),
    /// The response carried no data.
    NoData,
    /// The organization or the team does not exist.
    TeamNotFound,
    /// The repository does not exist.
    RepositoryNotFound,
}

/// The response lists at least one error.
pub open spec fn has_errors<T>(resp: GraphQLResponse<T>) -> bool {
    resp.errors matches Some(e) && e@.len() > 0
}

/// The data of a response, refused when any error was reported (even beside
/// data) or when no data came.
pub fn response_data<T>(resp: GraphQLResponse<T>) -> (r: Result<T, FetchError>)
    ensures
        has_errors(resp) ==> r == Err::<T, FetchError>(FetchError::Api(resp.errors.unwrap())),
        !has_errors(resp) && resp.data is None ==> r == Err::<T, FetchError>(FetchError::NoData),
        !has_errors(resp) && resp.data is Some ==> r == Ok::<T, FetchError>(resp.data.unwrap()),
{
    match resp.errors {
        Some(errors) => {
            if errors.len() > 0 {
                return Err(FetchError::Api(errors));
            }
        },
        None => {},
    }
    match resp.data {
        Some(data) => Ok(data),
        None => Err(FetchError::NoData),
    }
}

} // verus!
