use vstd::prelude::*;

verus! {

/// The HTTP status values that responses of this server can carry.
#[derive(Debug, Clone, Copy, PartialEq, Eq, Structural)]
pub enum HttpStatus {
    OK,
    Created,
    Accepted,
    NoContent,
    MovedPermanently,
    Found,
    NotModified,
    BadRequest,
    Unauthorized,
    Forbidden,
    NotFound,
    MethodNotAllowed,
    InternalServerError,
    NotImplemented,
    BadGateway,
    ServiceUnavailable,
}

impl HttpStatus {
    /// The numeric code of the status.
    pub open spec fn spec_code(self) -> u16 {
        match self {
            HttpStatus::OK => 200,
            HttpStatus::Created => 201,
            HttpStatus::Accepted => 202,
            HttpStatus::NoContent => 204,
            HttpStatus::MovedPermanently => 301,
            HttpStatus::Found => 302,
            HttpStatus::NotModified => 304,
            HttpStatus::BadRequest => 400,
            HttpStatus::Unauthorized => 401,
            HttpStatus::Forbidden => 403,
            HttpStatus::NotFound => 404,
            HttpStatus::MethodNotAllowed => 405,
            HttpStatus::InternalServerError => 500,
            HttpStatus::NotImplemented => 501,
            HttpStatus::BadGateway => 502,
            HttpStatus::ServiceUnavailable => 503,
        }
    }

    /// The reason phrase that goes with the status.
    pub open spec fn spec_reason(self) -> Seq<char> {
        match self {
            HttpStatus::OK => "OK"@,
            HttpStatus::Created => "Created"@,
            HttpStatus::Accepted => "Accepted"@,
            HttpStatus::NoContent => "No Content"@,
            HttpStatus::MovedPermanently => "Moved Permanently"@,
            HttpStatus::Found => "Found"@,
            HttpStatus::NotModified => "Not Modified"@,
            HttpStatus::BadRequest => "Bad Request"@,
            HttpStatus::Unauthorized => "Unauthorized"@,
            HttpStatus::Forbidden => "Forbidden"@,
            HttpStatus::NotFound => "Not Found"@,
            HttpStatus::MethodNotAllowed => "Method Not Allowed"@,
            HttpStatus::InternalServerError => "Internal Server Error"@,
            HttpStatus::NotImplemented => "Not Implemented"@,
            HttpStatus::BadGateway => "Bad Gateway"@,
            HttpStatus::ServiceUnavailable => "Service Unavailable"@,
        }
    }

    pub fn string(&self) -> (r: String)
        ensures
            r@ == self.spec_reason(),
    {
        match self {
            HttpStatus::OK => "OK".to_string(),
            HttpStatus::Created => "Created".to_string(),
            HttpStatus::Accepted => "Accepted".to_string(),
            HttpStatus::NoContent => "No Content".to_string(),
            HttpStatus::MovedPermanently => "Moved Permanently".to_string(),
            HttpStatus::Found => "Found".to_string(),
            HttpStatus::NotModified => "Not Modified".to_string(),
            HttpStatus::BadRequest => "Bad Request".to_string(),
            HttpStatus::Unauthorized => "Unauthorized".to_string(),
            HttpStatus::Forbidden => "Forbidden".to_string(),
            HttpStatus::NotFound => "Not Found".to_string(),
            HttpStatus::MethodNotAllowed => "Method Not Allowed".to_string(),
            HttpStatus::InternalServerError => "Internal Server Error".to_string(),
            HttpStatus::NotImplemented => "Not Implemented".to_string(),
            HttpStatus::BadGateway => "Bad Gateway".to_string(),
            HttpStatus::ServiceUnavailable => "Service Unavailable".to_string(),
        }
    }

    pub fn code(&self) -> (r: u16)
        ensures
            r == self.spec_code(),
    {
        match self {
            HttpStatus::OK => 200,
            HttpStatus::Created => 201,
            HttpStatus::Accepted => 202,
            HttpStatus::NoContent => 204,
            HttpStatus::MovedPermanently => 301,
            HttpStatus::Found => 302,
            HttpStatus::NotModified => 304,
            HttpStatus::BadRequest => 400,
            HttpStatus::Unauthorized => 401,
            HttpStatus::Forbidden => 403,
            HttpStatus::NotFound => 404,
            HttpStatus::MethodNotAllowed => 405,
            HttpStatus::InternalServerError => 500,
            HttpStatus::NotImplemented => 501,
            HttpStatus::BadGateway => 502,
            HttpStatus::ServiceUnavailable => 503,
        }
    }
}

} // verus!
