use vstd::prelude::*;

verus! {

/// Errors inside the server that surface to a client as an internal server error.
#[derive(Debug, Clone, Copy, PartialEq, Eq, Structural)]
pub enum ServerError {
    DBAccessError,
    SessionAccessError,
    TemplateRoutingError,
    TemplateModuleError,
    TemplateTypeError,
    SerdeParseError,
}

/// Errors that a request can end with, each an HTTP error status.
#[derive(Debug, Clone, Copy, PartialEq, Eq, Structural)]
pub enum ServiceError {
    HTTPRequestBadRequest,
    HTTPRequestUnauthorized,
    HTTPRequestForbidden,
    HTTPRequestNotFound,
    HTTPRequestPayloadTooLarge,
    HTTPRequestInternalServerError(ServerError),
}

/// The HTTP status code that answers an error.
pub open spec fn status_of(e: ServiceError) -> u16 {
    match e {
        ServiceError::HTTPRequestBadRequest => 400,
        ServiceError::HTTPRequestUnauthorized => 401,
        ServiceError::HTTPRequestForbidden => 403,
        ServiceError::HTTPRequestNotFound => 404,
        ServiceError::HTTPRequestPayloadTooLarge => 413,
        ServiceError::HTTPRequestInternalServerError(_) => 500,
    }
}

/// The error that a database access failure answers with.
pub open spec fn db_access_error() -> ServiceError {
    ServiceError::HTTPRequestInternalServerError(ServerError::DBAccessError)
}

impl ServiceError {
    /// The HTTP status code of the response that reports this error.
    pub fn status_code(&self) -> (r: u16)
        ensures
            r == status_of(*self),
    {
        match self {
            ServiceError::HTTPRequestBadRequest => 400,
            ServiceError::HTTPRequestUnauthorized => 401,
            ServiceError::HTTPRequestForbidden => 403,
            ServiceError::HTTPRequestNotFound => 404,
            ServiceError::HTTPRequestPayloadTooLarge => 413,
            ServiceError::HTTPRequestInternalServerError(_) => 500,
        }
    }

    /// The text that describes this error to a person.
    pub fn message(&self) -> (r: &'static str)
        ensures
            r@ == match *self {
                ServiceError::HTTPRequestBadRequest => "Bad Request"@,
                ServiceError::HTTPRequestUnauthorized => "Unauthorized"@,
                ServiceError::HTTPRequestForbidden => "Forbidden"@,
                ServiceError::HTTPRequestNotFound => "Not Found"@,
                ServiceError::HTTPRequestPayloadTooLarge => "Payload Too Large"@,
                ServiceError::HTTPRequestInternalServerError(_) => "Internal Server Error"@,
            },
    {
        match self {
            ServiceError::HTTPRequestBadRequest => "Bad Request",
            ServiceError::HTTPRequestUnauthorized => "Unauthorized",
            ServiceError::HTTPRequestForbidden => "Forbidden",
            ServiceError::HTTPRequestNotFound => "Not Found",
            ServiceError::HTTPRequestPayloadTooLarge => "Payload Too Large",
            ServiceError::HTTPRequestInternalServerError(_) => "Internal Server Error",
        }
    }
}

impl ServerError {
    /// The text that describes this error to a person.
    pub fn message(&self) -> (r: &'static str)
        ensures
            r@ == match *self {
                ServerError::DBAccessError => "Database Access Error"@,
                ServerError::SessionAccessError => "Session Access Error"@,
                ServerError::TemplateRoutingError => "Template Routing Error"@,
                ServerError::TemplateModuleError => "Template Module Error"@,
                ServerError::TemplateTypeError => "Template Type Error"@,
                ServerError::SerdeParseError => "Serde Parse Error"@,
            },
    {
        match self {
            ServerError::DBAccessError => "Database Access Error",
            ServerError::SessionAccessError => "Session Access Error",
            ServerError::TemplateRoutingError => "Template Routing Error",
            ServerError::TemplateModuleError => "Template Module Error",
            ServerError::TemplateTypeError => "Template Type Error",
            ServerError::SerdeParseError => "Serde Parse Error",
        }
    }
}

impl From<ServerError> for ServiceError {
    fn from(item: ServerError) -> (r: ServiceError) {
        ServiceError::HTTPRequestInternalServerError(item)
    }
}

impl vstd::std_specs::convert::FromSpecImpl<ServerError> for ServiceError {
    open spec fn obeys_from_spec() -> bool {
        true
    }

    open spec fn from_spec(item: ServerError) -> ServiceError {
        ServiceError::HTTPRequestInternalServerError(item)
    }
}

/// `serde_json::Error`, the error of a JSON conversion, carried through as it is.
#[verifier::external_type_specification]
#[verifier::external_body]
pub struct ExSerdeJsonError(serde_json::Error);

impl From<serde_json::Error> for ServiceError {
    fn from(item: serde_json::Error) -> (r: ServiceError) {
        ServiceError::HTTPRequestInternalServerError(ServerError::SerdeParseError)
    }
}

impl vstd::std_specs::convert::FromSpecImpl<serde_json::Error> for ServiceError {
    open spec fn obeys_from_spec() -> bool {
        true
    }

    open spec fn from_spec(item: serde_json::Error) -> ServiceError {
        ServiceError::HTTPRequestInternalServerError(ServerError::SerdeParseError)
    }
}

/// The error that a database access failure answers with.
pub fn db_access_failure() -> (r: ServiceError)
    ensures
        r == db_access_error(),
{
    ServiceError::from(ServerError::DBAccessError)
}

} // verus!
