use vstd::prelude::*;

verus! {

/// The outcome of a ticket validation that the server answered.
#[derive(Debug)]
pub enum ServiceResponse {
    /// The ticket was accepted; holds the authenticated user name.
    Success(String),
    /// The ticket was rejected; holds the reason.
    Failure(String),
}

/// Errors of a ticket validation.
#[derive(Debug)]
pub enum VerifyError {
    /// The validation endpoint could not be reached or answered with an
    /// HTTP failure; holds the transport's message.
    Transport(String),
    /// The validation reply is not well-formed XML.
    Xml(xml::reader::Error),
    /// The request's URI could not be read as a URL.
    Url(url::ParseError),
    /// The request's URI is neither an absolute path nor an absolute URI.
    UnsupportedUriType,
    /// The request carries no (non-empty) `ticket` query parameter.
    NoTicketFound,
}

/// A construction URL that is not a valid absolute URL.
#[derive(Debug)]
pub struct ConfigError {
    /// The string that failed to parse.
    pub input: String,
    /// Why it failed.
    pub cause: url::ParseError,
}

/// The target of an inbound HTTP request, by shape.
#[derive(Debug)]
pub enum RequestUri {
    /// A path with an optional query, such as `/callback?ticket=ST-1`.
    AbsolutePath(String),
    /// A full URL.
    AbsoluteUri(String),
    /// An authority alone, as in `CONNECT host:port`.
    Authority(String),
    /// The `*` of `OPTIONS *`.
    Star,
}

/// A redirect to hand to the web server: status code and `Location`.
#[derive(Debug)]
pub struct Redirect {
    pub status: u16,
    pub location: String,
}

/// The result of a validation, as a value of the model.
pub ghost enum Outcome {
    Success(Seq<char>),
    Failure(Seq<char>),
    Malformed,
}

/// The model of a validation result that carries no transport or URL error.
pub open spec fn outcome_of(r: &Result<ServiceResponse, VerifyError>) -> Option<Outcome> {
    match r {
        Ok(ServiceResponse::Success(n)) => Some(Outcome::Success(n@)),
        Ok(ServiceResponse::Failure(m)) => Some(Outcome::Failure(m@)),
        Err(VerifyError::Xml(_)) => Some(Outcome::Malformed),
        _ => None,
    }
}

} // verus!
