use vstd::prelude::*;
use crate::error::{APILayerError, ServiceError};

verus! {

/// What a reply of the content classifier means for the text it checked:
/// a client-error status is a refusal of the text, a server-error status a
/// failure of the service, and any other reply passes the cleaned text on,
/// where the reply carried one.
pub open spec fn spec_classify_reply(status: u16, message: String, cleaned: Option<String>) -> Result<
    String,
    ServiceError,
> {
    if 400 <= status <= 499 {
        Err(ServiceError::PolicyRejected(APILayerError { status, message }))
    } else if 500 <= status <= 599 {
        Err(ServiceError::PolicyServiceError(APILayerError { status, message }))
    } else {
        match cleaned {
            Some(c) => Ok(c),
            None => Err(ServiceError::PolicyServiceError(APILayerError { status, message })),
        }
    }
}

/// Decides on a reply of the content classifier: `status` is its HTTP
/// status, `message` its body as text, `cleaned` the cleaned text that a
/// successful body held, if it could be read.
pub fn classify_reply(status: u16, message: String, cleaned: Option<String>) -> (r: Result<
    String,
    ServiceError,
>)
    ensures
        r == spec_classify_reply(status, message, cleaned),
{
    if 400 <= status && status <= 499 {
        Err(ServiceError::PolicyRejected(APILayerError { status, message }))
    } else if 500 <= status && status <= 599 {
        Err(ServiceError::PolicyServiceError(APILayerError { status, message }))
    } else {
        match cleaned {
            Some(c) => Ok(c),
            None => Err(ServiceError::PolicyServiceError(APILayerError { status, message })),
        }
    }
}

/// Two checked fields together: the first failure, in field order, wins.
pub open spec fn spec_both_clean(first: Result<String, ServiceError>, second: Result<String, ServiceError>) -> Result<
    (String, String),
    ServiceError,
> {
    match first {
        Err(e) => Err(e),
        Ok(a) => match second {
            Err(e) => Err(e),
            Ok(b) => Ok((a, b)),
        },
    }
}

/// Joins the outcomes of checking two fields.
pub fn both_clean(first: Result<String, ServiceError>, second: Result<String, ServiceError>) -> (r: Result<
    (String, String),
    ServiceError,
>)
    ensures
        r == spec_both_clean(first, second),
{
    match first {
        Err(e) => Err(e),
        Ok(a) => match second {
            Err(e) => Err(e),
            Ok(b) => Ok((a, b)),
        },
    }
}

} // verus!
