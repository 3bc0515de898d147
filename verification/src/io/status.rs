use vstd::prelude::*;

verus! {

/// The closed set of outcomes an operation can report. Every variant is
/// mapped to exactly one transport result code by [`Status::http`]; no other
/// component chooses a transport code directly.
#[derive(Clone, Copy, Debug, PartialEq, Eq, Structural)]
pub enum Status {
    // Error
    BadInput,

    NoToken,
    BadToken,
    MalformedToken,
    ExpiredToken,

    DataNotFound,
    FailedToCreateData,
    InternalServerError,
    BadLoginCredentials,

    // Success
    CreatedOrganization,
    OrderedProduts,
    Okay,
    GoodLogin,
}

/// The transport result code assigned to each outcome.
pub open spec fn http_code(s: Status) -> u16 {
    match s {
        Status::BadInput => 400,

        Status::NoToken => 403,
        Status::BadToken => 403,
        Status::MalformedToken => 403,
        Status::ExpiredToken => 403,

        Status::DataNotFound => 401,
        Status::FailedToCreateData => 401,
        Status::InternalServerError => 500,
        Status::BadLoginCredentials => 401,

        Status::CreatedOrganization => 201,
        Status::Okay => 200,
        Status::OrderedProduts => 201,
        Status::GoodLogin => 200,
    }
}

impl Status {
    /// The single source of truth translating an outcome into a transport
    /// result code.
    pub fn http(self) -> (code: u16)
        ensures
            code == http_code(self),
    {
        match self {
            Self::BadInput => 400,

            Self::NoToken => 403,
            Self::BadToken => 403,
            Self::MalformedToken => 403,
            Self::ExpiredToken => 403,

            Self::DataNotFound => 401,
            Self::FailedToCreateData => 401,
            Self::InternalServerError => 500,
            Self::BadLoginCredentials => 401,

            Self::CreatedOrganization => 201,
            Self::Okay => 200,
            Self::OrderedProduts => 201,
            Self::GoodLogin => 200,
        }
    }
}

/// The outcome-to-code mapping is total: every outcome carries exactly one
/// code, and each code is one of the transport classes the protocol uses
/// (client error, forbidden, unauthorized, server error, ok, created).
pub proof fn lemma_http_code_total(s: Status)
    ensures
        http_code(s) == 400 || http_code(s) == 403 || http_code(s) == 401 || http_code(s) == 500
            || http_code(s) == 200 || http_code(s) == 201,
{
}

} // verus!
