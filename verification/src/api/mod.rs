//! The decisions of the HTTP API: status codes, messages, headers and URLs.
//! The handlers that serve them stand outside this crate.
pub mod errors;
pub mod tables;
pub mod tiles;

use vstd::prelude::*;

verus! {

/// The HTTP statuses that the API answers with.
#[derive(Debug, Clone, Copy, PartialEq, Eq, Structural)]
pub enum HttpStatus {
    Success,
    NoContent,
    BadRequest,
    NotFound,
    InternalServerError,
}

pub open spec fn status_code(s: HttpStatus) -> u16 {
    match s {
        HttpStatus::Success => 200,
        HttpStatus::NoContent => 204,
        HttpStatus::BadRequest => 400,
        HttpStatus::NotFound => 404,
        HttpStatus::InternalServerError => 500,
    }
}

impl HttpStatus {
    /// The numeric status code.
    pub fn code(&self) -> (c: u16)
        ensures
            c == status_code(*self),
    {
        match self {
            HttpStatus::Success => 200,
            HttpStatus::NoContent => 204,
            HttpStatus::BadRequest => 400,
            HttpStatus::NotFound => 404,
            HttpStatus::InternalServerError => 500,
        }
    }
}

/// A header name and value.
pub open spec fn header_view(h: (&'static str, &'static str)) -> (Seq<char>, Seq<char>) {
    (h.0@, h.1@)
}

/// The CORS headers that every tile response carries.
pub open spec fn cors_header_views() -> Seq<(Seq<char>, Seq<char>)> {
    seq![
        ("access-control-allow-origin"@, "*"@),
        ("access-control-allow-methods"@, "GET, HEAD, OPTIONS"@),
        ("access-control-allow-headers"@, "Content-Type"@),
    ]
}

/// The CORS headers to add to a response: any origin, read-only methods.
pub fn cors_headers() -> (r: Vec<(&'static str, &'static str)>)
    ensures
        r@.map_values(|h: (&'static str, &'static str)| header_view(h)) == cors_header_views(),
{
    let mut r: Vec<(&'static str, &'static str)> = Vec::new();
    r.push(("access-control-allow-origin", "*"));
    r.push(("access-control-allow-methods", "GET, HEAD, OPTIONS"));
    r.push(("access-control-allow-headers", "Content-Type"));
    assert(r@.map_values(|h: (&'static str, &'static str)| header_view(h)) =~= cors_header_views());
    r
}

} // verus!
