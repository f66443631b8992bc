//! What a reply of the GraphQL endpoint amounts to: the data it carries, or
//! the reason why the run has to stop.

use vstd::prelude::*;

verus! {

/// A line and column of the query text.
#[derive(Debug, Clone, PartialEq, Eq)]
pub struct GraphQlErrorLocation {
    pub line: i32,
    pub column: i32,
}

/// A step on the way to the field of the reply that an error is about.
#[derive(Debug, Clone, PartialEq, Eq)]
pub enum GraphQlErrorPathSegment {
    Field(String),
    Index(i32),
}

/// An error as the server reports it.
#[derive(Debug, Clone, PartialEq, Eq)]
pub struct GraphQlError {
    pub message: String,
    pub locations: Option<Vec<GraphQlErrorLocation>>,
    pub path: Option<Vec<GraphQlErrorPathSegment>>,
}

/// The body of a reply. The server may send data and errors side by side.
#[derive(Debug, Clone, PartialEq, Eq)]
pub struct GraphQlResponse<T> {
    pub data: Option<T>,
    pub errors: Option<Vec<GraphQlError>>,
}

/// Why a query gave no result.
#[derive(Debug, Clone, PartialEq, Eq)]
pub enum ApiError {
    /// No token is configured.
    Auth,
    /// The request did not get through, or the reply could not be read.
    Transport(String),
    /// The server answered with errors; they are kept as it sent them.
    GraphQl(Vec<GraphQlError>),
}

/// The token to send, or `Auth` where none is configured.
pub fn require_token(configured: Option<String>) -> (token: Result<String, ApiError>)
    ensures
        token == match configured {
            Some(text) => Ok::<String, ApiError>(text),
            None => Err(ApiError::Auth),
        },
{
    match configured {
        Some(text) => Ok(text),
        None => Err(ApiError::Auth),
    }
}

/// What `interpret` makes of the outcome of a request.
pub open spec fn interpreted<T>(outcome: Result<GraphQlResponse<T>, String>) -> Result<
    Option<T>,
    ApiError,
> {
    match outcome {
        Err(reason) => Err(ApiError::Transport(reason)),
        Ok(response) => match response.errors {
            Some(errors) if errors@.len() > 0 => Err(ApiError::GraphQl(errors)),
            _ => Ok(response.data),
        },
    }
}

/// Reads the outcome of one request. A request that failed on the way is a
/// transport error and carries its reason. A reply that lists at least one
/// error is a GraphQL error, whether or not it also holds data. Any other
/// reply gives its data, which may be absent.
pub fn interpret<T>(outcome: Result<GraphQlResponse<T>, String>) -> (result: Result<
    Option<T>,
    ApiError,
>)
    ensures
        result == interpreted(outcome),
{
    match outcome {
        Err(reason) => Err(ApiError::Transport(reason)),
        Ok(response) => {
            let GraphQlResponse { data, errors } = response;
            match errors {
                Some(errors) => {
                    if errors.len() > 0 {
                        Err(ApiError::GraphQl(errors))
                    } else {
                        Ok(data)
                    }
                },
                None => Ok(data),
            }
        },
    }
}

} // verus!
