use vstd::prelude::*;
use crate::text::{decimal, push_decimal};

verus! {

/// The outward signal class that a failure is reported as.
#[derive(Debug, Clone, Copy, PartialEq, Eq, Structural)]
pub enum Signal {
    AuthenticationFailure,
    NotFound,
    ClientError,
    Conflict,
    UnprocessableContent,
    ServerError,
}

impl Signal {
    /// The HTTP status code that carries this signal.
    pub open spec fn spec_status(self) -> u16 {
        match self {
            Signal::AuthenticationFailure => 401,
            Signal::NotFound => 404,
            Signal::ClientError => 400,
            Signal::Conflict => 409,
            Signal::UnprocessableContent => 422,
            Signal::ServerError => 500,
        }
    }

    pub fn status(&self) -> (r: u16)
        ensures
            r == self.spec_status(),
    {
        match self {
            Signal::AuthenticationFailure => 401,
            Signal::NotFound => 404,
            Signal::ClientError => 400,
            Signal::Conflict => 409,
            Signal::UnprocessableContent => 422,
            Signal::ServerError => 500,
        }
    }
}

/// What the content classifier answered with when it did not pass a text.
#[derive(Debug, Clone, PartialEq, Eq)]
pub struct APILayerError {
    pub status: u16,
    pub message: String,
}

impl APILayerError {
    pub open spec fn text(&self) -> Seq<char> {
        "Status: "@ + decimal(self.status as nat) + ", Message: "@ + self.message@
    }

    /// `Status: <status>, Message: <message>`.
    pub fn describe(&self) -> (r: String)
        ensures
            r@ == self.text(),
    {
        let mut out = String::from_str("Status: ");
        push_decimal(&mut out, self.status as u32);
        out.append(", Message: ");
        out.append(self.message.as_str());
        out
    }
}

/// Every way a request can fail.
#[derive(Debug, Clone, PartialEq, Eq)]
pub enum ServiceError {
    /// A path or form parameter is not a number.
    ParseError,
    /// A required field is missing or empty.
    MissingParameters,
    /// A pagination parameter is negative or not a number.
    InvalidPagination,
    /// A request body could not be read.
    MalformedPayload,
    /// The bearer token is missing, cannot be decrypted, or is outside its validity window.
    Unauthorized,
    /// The acting account does not own the resource.
    Forbidden,
    /// No resource has the requested id.
    NotFound,
    /// An answer refers to a question that does not exist.
    QuestionNotFound,
    /// An account with this e-mail address exists already.
    DuplicateEmail,
    /// No account has this e-mail, or the password does not match.
    WrongCredentials,
    /// The content classifier refused the text.
    PolicyRejected(APILayerError),
    /// The content classifier failed.
    PolicyServiceError(APILayerError),
    /// The content classifier could not be reached.
    PolicyUnavailable,
    /// The password hashing library failed.
    ArgonLibraryError,
    /// A session token could not be issued.
    TokenIssueError,
    /// The store could not carry out the operation.
    DatabaseQueryError,
}

impl ServiceError {
    pub open spec fn spec_signal(&self) -> Signal {
        match self {
            ServiceError::ParseError => Signal::ClientError,
            ServiceError::MissingParameters => Signal::ClientError,
            ServiceError::InvalidPagination => Signal::ClientError,
            ServiceError::MalformedPayload => Signal::ClientError,
            ServiceError::Unauthorized => Signal::AuthenticationFailure,
            ServiceError::Forbidden => Signal::AuthenticationFailure,
            ServiceError::NotFound => Signal::NotFound,
            ServiceError::QuestionNotFound => Signal::NotFound,
            ServiceError::DuplicateEmail => Signal::Conflict,
            ServiceError::WrongCredentials => Signal::AuthenticationFailure,
            ServiceError::PolicyRejected(_) => Signal::UnprocessableContent,
            ServiceError::PolicyServiceError(_) => Signal::ServerError,
            ServiceError::PolicyUnavailable => Signal::ServerError,
            ServiceError::ArgonLibraryError => Signal::ServerError,
            ServiceError::TokenIssueError => Signal::ServerError,
            ServiceError::DatabaseQueryError => Signal::ServerError,
        }
    }

    /// The signal class this failure is reported as.
    pub fn signal(&self) -> (r: Signal)
        ensures
            r == self.spec_signal(),
    {
        match self {
            ServiceError::ParseError => Signal::ClientError,
            ServiceError::MissingParameters => Signal::ClientError,
            ServiceError::InvalidPagination => Signal::ClientError,
            ServiceError::MalformedPayload => Signal::ClientError,
            ServiceError::Unauthorized => Signal::AuthenticationFailure,
            ServiceError::Forbidden => Signal::AuthenticationFailure,
            ServiceError::NotFound => Signal::NotFound,
            ServiceError::QuestionNotFound => Signal::NotFound,
            ServiceError::DuplicateEmail => Signal::Conflict,
            ServiceError::WrongCredentials => Signal::AuthenticationFailure,
            ServiceError::PolicyRejected(_) => Signal::UnprocessableContent,
            ServiceError::PolicyServiceError(_) => Signal::ServerError,
            ServiceError::PolicyUnavailable => Signal::ServerError,
            ServiceError::ArgonLibraryError => Signal::ServerError,
            ServiceError::TokenIssueError => Signal::ServerError,
            ServiceError::DatabaseQueryError => Signal::ServerError,
        }
    }

    /// The full description of the failure, internal detail included.
    pub open spec fn text(&self) -> Seq<char> {
        match self {
            ServiceError::ParseError => "Cannot parse parameter"@,
            ServiceError::MissingParameters => "Missing parameter"@,
            ServiceError::InvalidPagination => "Invalid pagination parameters"@,
            ServiceError::MalformedPayload => "Malformed request payload"@,
            ServiceError::Unauthorized => "Cannot decrypt error"@,
            ServiceError::Forbidden => "No permission to change the underlying resource"@,
            ServiceError::NotFound => "Resource not found"@,
            ServiceError::QuestionNotFound => "Question not found"@,
            ServiceError::DuplicateEmail => "Account already exists"@,
            ServiceError::WrongCredentials => "Wrong password"@,
            ServiceError::PolicyRejected(e) => "External Client error: "@ + e.text(),
            ServiceError::PolicyServiceError(e) => "External Server error: "@ + e.text(),
            ServiceError::PolicyUnavailable => "External API error"@,
            ServiceError::ArgonLibraryError => "Cannot verify password"@,
            ServiceError::TokenIssueError => "Cannot issue session token"@,
            ServiceError::DatabaseQueryError => "Cannot update, invalid data"@,
        }
    }

    pub fn describe(&self) -> (r: String)
        ensures
            r@ == self.text(),
    {
        match self {
            ServiceError::ParseError => String::from_str("Cannot parse parameter"),
            ServiceError::MissingParameters => String::from_str("Missing parameter"),
            ServiceError::InvalidPagination => String::from_str("Invalid pagination parameters"),
            ServiceError::MalformedPayload => String::from_str("Malformed request payload"),
            ServiceError::Unauthorized => String::from_str("Cannot decrypt error"),
            ServiceError::Forbidden => String::from_str("No permission to change the underlying resource"),
            ServiceError::NotFound => String::from_str("Resource not found"),
            ServiceError::QuestionNotFound => String::from_str("Question not found"),
            ServiceError::DuplicateEmail => String::from_str("Account already exists"),
            ServiceError::WrongCredentials => String::from_str("Wrong password"),
            ServiceError::PolicyRejected(e) => {
                let mut out = String::from_str("External Client error: ");
                out.append(e.describe().as_str());
                out
            },
            ServiceError::PolicyServiceError(e) => {
                let mut out = String::from_str("External Server error: ");
                out.append(e.describe().as_str());
                out
            },
            ServiceError::PolicyUnavailable => String::from_str("External API error"),
            ServiceError::ArgonLibraryError => String::from_str("Cannot verify password"),
            ServiceError::TokenIssueError => String::from_str("Cannot issue session token"),
            ServiceError::DatabaseQueryError => String::from_str("Cannot update, invalid data"),
        }
    }

    /// What the caller is told: server-side failures are reported with a
    /// generic text only, the authentication failures with texts of their
    /// own, every other failure with its description.
    pub open spec fn public_text(&self) -> Seq<char> {
        match self {
            ServiceError::Unauthorized => "Missing or invalid authentication token"@,
            ServiceError::Forbidden => "No permission to change underlying resource"@,
            ServiceError::WrongCredentials => "Wrong E-Mail/Password combination"@,
            _ => if self.spec_signal() == Signal::ServerError {
                "Internal Server Error"@
            } else {
                self.text()
            },
        }
    }

    /// The (status, message) pair that the transport layer emits.
    pub fn into_response(&self) -> (r: (u16, String))
        ensures
            r.0 == self.spec_signal().spec_status(),
            r.1@ == self.public_text(),
    {
        let signal = self.signal();
        let message = match self {
            ServiceError::Unauthorized => String::from_str("Missing or invalid authentication token"),
            ServiceError::Forbidden => String::from_str("No permission to change underlying resource"),
            ServiceError::WrongCredentials => String::from_str("Wrong E-Mail/Password combination"),
            _ => match signal {
                Signal::ServerError => String::from_str("Internal Server Error"),
                _ => self.describe(),
            },
        };
        (signal.status(), message)
    }
}

/// The response for a request that matched no route.
pub fn return_error() -> (r: (u16, String))
    ensures
        r.0 == 404,
        r.1@ == "Route not found"@,
{
    (404, String::from_str("Route not found"))
}

} // verus!
