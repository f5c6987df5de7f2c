//! The upstream API's responses: the envelope shared by every endpoint, the
//! classification of a response into a body or an error, and each endpoint's body.

use vstd::prelude::*;

pub mod illust_pages;
pub mod novel;
pub mod series;
pub mod ugoira_meta;
pub mod user_bookmarks;
pub mod user_illustmanga_tag;
pub mod user_info;

verus! {

/// The envelope `{error, message, body}` around every response.
#[derive(Debug)]
pub struct Root<T> {
    pub error: bool,
    pub message: String,
    pub body: T,
}

/// Why an API call gave no body.
#[derive(Debug)]
pub enum ApiError {
    /// The request could not be sent or its response could not be read.
    Network { message: String },
    /// The response had no body at all.
    EmptyResponse { status_code: u16 },
    /// The envelope, or the body inside it, is not of the expected shape.
    JSONParse { message: String },
    /// The upstream refused the request in its envelope (a deleted work, say).
    ServerApplication { message: String, status_code: u16 },
    /// A status outside the success range with an envelope that reports no error.
    ServerHTTP { status_code: u16 },
}

/// A status code in the success range, 200 to 299.
pub open spec fn is_success(status_code: u16) -> bool {
    200 <= status_code <= 299
}

/// The outcome of a call: the transport's result (a status code or a failure),
/// whether the response body was empty, and the envelope as read from it, with
/// the body decoded into its expected shape or the reason it could not be.
pub open spec fn query_outcome_spec<T>(
    fetched: Result<u16, String>,
    body_is_empty: bool,
    envelope: Result<Root<Result<T, String>>, String>,
) -> Result<T, ApiError> {
    match fetched {
        Err(m) => Err(ApiError::Network { message: m }),
        Ok(status_code) => if body_is_empty {
            Err(ApiError::EmptyResponse { status_code })
        } else {
            match envelope {
                Err(m) => Err(ApiError::JSONParse { message: m }),
                Ok(root) => if root.error {
                    Err(ApiError::ServerApplication { message: root.message, status_code })
                } else if !is_success(status_code) {
                    Err(ApiError::ServerHTTP { status_code })
                } else {
                    match root.body {
                        Ok(b) => Ok(b),
                        Err(m) => Err(ApiError::JSONParse { message: m }),
                    }
                },
            }
        },
    }
}

/// Classifies a response. The checks come in a fixed order: transport, empty
/// body, envelope shape, envelope error flag, status code, body shape. The
/// envelope and the body are only looked at when the steps before them passed.
pub fn query_outcome<T>(
    fetched: Result<u16, String>,
    body_is_empty: bool,
    envelope: Result<Root<Result<T, String>>, String>,
) -> (r: Result<T, ApiError>)
    ensures
        r == query_outcome_spec(fetched, body_is_empty, envelope),
{
    let status_code = match fetched {
        Err(m) => {
            return Err(ApiError::Network { message: m });
        },
        Ok(s) => s,
    };
    if body_is_empty {
        return Err(ApiError::EmptyResponse { status_code });
    }
    let root = match envelope {
        Err(m) => {
            return Err(ApiError::JSONParse { message: m });
        },
        Ok(root) => root,
    };
    if root.error {
        return Err(ApiError::ServerApplication { message: root.message, status_code });
    }
    if !(200 <= status_code && status_code <= 299) {
        return Err(ApiError::ServerHTTP { status_code });
    }
    match root.body {
        Ok(b) => Ok(b),
        Err(m) => Err(ApiError::JSONParse { message: m }),
    }
}

} // verus!
