//! Status codes: the registry that maps each status of a response to its
//! number and its reason phrase.

use vstd::prelude::*;

verus! {

/// The status of a response.
#[derive(Clone, Copy, Debug, PartialEq, Eq, Structural)]
pub enum StatusCode {
    /// 100, informational.
    Continue,
    /// 101, informational.
    SwitchingProtocols,
    /// 102, informational.
    Processing,
    /// 103, informational.
    EarlyHints,
    /// 200, success.
    OK,
    /// 201, success.
    Created,
    /// 202, success.
    Accepted,
    /// 203, success.
    NonAuthoritativeInformation,
    /// 204, success.
    NoContent,
    /// 205, success.
    ResetContent,
    /// 206, success.
    PartialContent,
    /// 207, success.
    MultiStatus,
    /// 208, success.
    AlreadyReported,
    /// 226, success.
    IMUsed,
    /// 300, redirection.
    MultipleChoices,
    /// 301, redirection.
    MovedPermanently,
    /// 302, redirection.
    Found,
    /// 303, redirection.
    SeeOther,
    /// 304, redirection.
    NotModified,
    /// 305, redirection.
    UseProxyDeprecated,
    /// 307, redirection.
    TemporaryRedirect,
    /// 308, redirection.
    PermanentRedirect,
    /// 400, client error.
    BadRequest,
    /// 401, client error.
    Unauthorized,
    /// 402, client error.
    PaymentRequiredExperimental,
    /// 403, client error.
    Forbidden,
    /// 404, client error.
    NotFound,
    /// 405, client error.
    MethodNotAllowed,
    /// 406, client error.
    NotAcceptable,
    /// 407, client error.
    ProxyAuthenticationRequired,
    /// 408, client error.
    RequestTimeout,
    /// 409, client error.
    Conflict,
    /// 410, client error.
    Gone,
    /// 411, client error.
    LengthRequired,
    /// 412, client error.
    PreconditionFailed,
    /// 413, client error.
    PayloadTooLarge,
    /// 414, client error.
    URITooLong,
    /// 415, client error.
    UnsupportedMediaType,
    /// 416, client error.
    RangeNotSatisfiable,
    /// 417, client error.
    ExpectationFailed,
    /// 421, client error.
    MisdirectedRequest,
    /// 422, client error.
    UnprocessableContent,
    /// 423, client error.
    Locked,
    /// 424, client error.
    FailedDependency,
    /// 425, client error.
    TooEarlyExperimental,
    /// 426, client error.
    UpgradeRequired,
    /// 428, client error.
    PreconditionRequired,
    /// 429, client error.
    TooManyRequests,
    /// 431, client error.
    RequestHeaderFieldsTooLarge,
    /// 451, client error.
    UnavailableForLegalReasons,
    /// 500, server error.
    InternalServerError,
    /// 501, server error.
    NotImplemented,
    /// 502, server error.
    BadGateway,
    /// 503, server error.
    ServiceUnavailable,
    /// 504, server error.
    GatewayTimeout,
    /// 505, server error.
    HTTPVersionNotSupported,
    /// 506, server error.
    VariantAlsoNegotiates,
    /// 507, server error.
    InsufficientStorage,
    /// 508, server error.
    LoopDetected,
    /// 510, server error.
    NotExtended,
    /// 511, server error.
    NetworkAuthenticationRequired,
}

impl StatusCode {
    /// The number of this status.
    pub open spec fn code(self) -> nat {
        match self {
            StatusCode::Continue => 100,
            StatusCode::SwitchingProtocols => 101,
            StatusCode::Processing => 102,
            StatusCode::EarlyHints => 103,
            StatusCode::OK => 200,
            StatusCode::Created => 201,
            StatusCode::Accepted => 202,
            StatusCode::NonAuthoritativeInformation => 203,
            StatusCode::NoContent => 204,
            StatusCode::ResetContent => 205,
            StatusCode::PartialContent => 206,
            StatusCode::MultiStatus => 207,
            StatusCode::AlreadyReported => 208,
            StatusCode::IMUsed => 226,
            StatusCode::MultipleChoices => 300,
            StatusCode::MovedPermanently => 301,
            StatusCode::Found => 302,
            StatusCode::SeeOther => 303,
            StatusCode::NotModified => 304,
            StatusCode::UseProxyDeprecated => 305,
            StatusCode::TemporaryRedirect => 307,
            StatusCode::PermanentRedirect => 308,
            StatusCode::BadRequest => 400,
            StatusCode::Unauthorized => 401,
            StatusCode::PaymentRequiredExperimental => 402,
            StatusCode::Forbidden => 403,
            StatusCode::NotFound => 404,
            StatusCode::MethodNotAllowed => 405,
            StatusCode::NotAcceptable => 406,
            StatusCode::ProxyAuthenticationRequired => 407,
            StatusCode::RequestTimeout => 408,
            StatusCode::Conflict => 409,
            StatusCode::Gone => 410,
            StatusCode::LengthRequired => 411,
            StatusCode::PreconditionFailed => 412,
            StatusCode::PayloadTooLarge => 413,
            StatusCode::URITooLong => 414,
            StatusCode::UnsupportedMediaType => 415,
            StatusCode::RangeNotSatisfiable => 416,
            StatusCode::ExpectationFailed => 417,
            StatusCode::MisdirectedRequest => 421,
            StatusCode::UnprocessableContent => 422,
            StatusCode::Locked => 423,
            StatusCode::FailedDependency => 424,
            StatusCode::TooEarlyExperimental => 425,
            StatusCode::UpgradeRequired => 426,
            StatusCode::PreconditionRequired => 428,
            StatusCode::TooManyRequests => 429,
            StatusCode::RequestHeaderFieldsTooLarge => 431,
            StatusCode::UnavailableForLegalReasons => 451,
            StatusCode::InternalServerError => 500,
            StatusCode::NotImplemented => 501,
            StatusCode::BadGateway => 502,
            StatusCode::ServiceUnavailable => 503,
            StatusCode::GatewayTimeout => 504,
            StatusCode::HTTPVersionNotSupported => 505,
            StatusCode::VariantAlsoNegotiates => 506,
            StatusCode::InsufficientStorage => 507,
            StatusCode::LoopDetected => 508,
            StatusCode::NotExtended => 510,
            StatusCode::NetworkAuthenticationRequired => 511,
        }
    }

    /// The reason phrase of this status.
    pub open spec fn reason(self) -> Seq<char> {
        match self {
            StatusCode::Continue => "Continue"@,
            StatusCode::SwitchingProtocols => "SwitchingProtocols"@,
            StatusCode::Processing => "Processing"@,
            StatusCode::EarlyHints => "EarlyHints"@,
            StatusCode::OK => "Ok"@,
            StatusCode::Created => "Created"@,
            StatusCode::Accepted => "Accepted"@,
            StatusCode::NonAuthoritativeInformation => "NonAuthoritativeInformation"@,
            StatusCode::NoContent => "NoContent"@,
            StatusCode::ResetContent => "ResetContent"@,
            StatusCode::PartialContent => "PartialContent"@,
            StatusCode::MultiStatus => "MultiStatus"@,
            StatusCode::AlreadyReported => "AlreadyReported"@,
            StatusCode::IMUsed => "IMUsed"@,
            StatusCode::MultipleChoices => "MultipleChoices"@,
            StatusCode::MovedPermanently => "MovedPermanently"@,
            StatusCode::Found => "Found"@,
            StatusCode::SeeOther => "SeeOther"@,
            StatusCode::NotModified => "NotModified"@,
            StatusCode::UseProxyDeprecated => "UseProxyDeprecated"@,
            StatusCode::TemporaryRedirect => "TemporaryRedirect"@,
            StatusCode::PermanentRedirect => "PermanentRedirect"@,
            StatusCode::BadRequest => "BadRequest"@,
            StatusCode::Unauthorized => "Unauthorized"@,
            StatusCode::PaymentRequiredExperimental => "PaymentRequiredExperimental"@,
            StatusCode::Forbidden => "Forbidden"@,
            StatusCode::NotFound => "NotFound"@,
            StatusCode::MethodNotAllowed => "MethodNotAllowed"@,
            StatusCode::NotAcceptable => "NotAcceptable"@,
            StatusCode::ProxyAuthenticationRequired => "ProxyAuthenticationRequired"@,
            StatusCode::RequestTimeout => "RequestTimeout"@,
            StatusCode::Conflict => "Conflict"@,
            StatusCode::Gone => "Gone"@,
            StatusCode::LengthRequired => "LengthRequired"@,
            StatusCode::PreconditionFailed => "PreconditionFailed"@,
            StatusCode::PayloadTooLarge => "PayloadTooLarge"@,
            StatusCode::URITooLong => "URITooLong"@,
            StatusCode::UnsupportedMediaType => "UnsupportedMediaType"@,
            StatusCode::RangeNotSatisfiable => "RangeNotSatisfiable"@,
            StatusCode::ExpectationFailed => "ExpectationFailed"@,
            StatusCode::MisdirectedRequest => "MisdirectedRequest"@,
            StatusCode::UnprocessableContent => "UnprocessableContent"@,
            StatusCode::Locked => "Locked"@,
            StatusCode::FailedDependency => "FailedDependency"@,
            StatusCode::TooEarlyExperimental => "TooEarlyExperimental"@,
            StatusCode::UpgradeRequired => "UpgradeRequired"@,
            StatusCode::PreconditionRequired => "PreconditionRequired"@,
            StatusCode::TooManyRequests => "TooManyRequests"@,
            StatusCode::RequestHeaderFieldsTooLarge => "RequestHeaderFieldsTooLarge"@,
            StatusCode::UnavailableForLegalReasons => "UnavailableForLegalReasons"@,
            StatusCode::InternalServerError => "InternalServerError"@,
            StatusCode::NotImplemented => "NotImplemented"@,
            StatusCode::BadGateway => "BadGateway"@,
            StatusCode::ServiceUnavailable => "ServiceUnavailable"@,
            StatusCode::GatewayTimeout => "GatewayTimeout"@,
            StatusCode::HTTPVersionNotSupported => "HTTPVersionNotSupported"@,
            StatusCode::VariantAlsoNegotiates => "VariantAlsoNegotiates"@,
            StatusCode::InsufficientStorage => "InsufficientStorage"@,
            StatusCode::LoopDetected => "LoopDetected"@,
            StatusCode::NotExtended => "NotExtended"@,
            StatusCode::NetworkAuthenticationRequired => "NetworkAuthenticationRequired"@,
        }
    }

    /// The number and the reason phrase of this status.
    pub fn as_tuple(&self) -> (pair: (usize, &'static str))
        ensures
            pair.0 == self.code(),
            pair.1@ == self.reason(),
    {
        match self {
            StatusCode::Continue => (100, "Continue"),
            StatusCode::SwitchingProtocols => (101, "SwitchingProtocols"),
            StatusCode::Processing => (102, "Processing"),
            StatusCode::EarlyHints => (103, "EarlyHints"),
            StatusCode::OK => (200, "Ok"),
            StatusCode::Created => (201, "Created"),
            StatusCode::Accepted => (202, "Accepted"),
            StatusCode::NonAuthoritativeInformation => (203, "NonAuthoritativeInformation"),
            StatusCode::NoContent => (204, "NoContent"),
            StatusCode::ResetContent => (205, "ResetContent"),
            StatusCode::PartialContent => (206, "PartialContent"),
            StatusCode::MultiStatus => (207, "MultiStatus"),
            StatusCode::AlreadyReported => (208, "AlreadyReported"),
            StatusCode::IMUsed => (226, "IMUsed"),
            StatusCode::MultipleChoices => (300, "MultipleChoices"),
            StatusCode::MovedPermanently => (301, "MovedPermanently"),
            StatusCode::Found => (302, "Found"),
            StatusCode::SeeOther => (303, "SeeOther"),
            StatusCode::NotModified => (304, "NotModified"),
            StatusCode::UseProxyDeprecated => (305, "UseProxyDeprecated"),
            StatusCode::TemporaryRedirect => (307, "TemporaryRedirect"),
            StatusCode::PermanentRedirect => (308, "PermanentRedirect"),
            StatusCode::BadRequest => (400, "BadRequest"),
            StatusCode::Unauthorized => (401, "Unauthorized"),
            StatusCode::PaymentRequiredExperimental => (402, "PaymentRequiredExperimental"),
            StatusCode::Forbidden => (403, "Forbidden"),
            StatusCode::NotFound => (404, "NotFound"),
            StatusCode::MethodNotAllowed => (405, "MethodNotAllowed"),
            StatusCode::NotAcceptable => (406, "NotAcceptable"),
            StatusCode::ProxyAuthenticationRequired => (407, "ProxyAuthenticationRequired"),
            StatusCode::RequestTimeout => (408, "RequestTimeout"),
            StatusCode::Conflict => (409, "Conflict"),
            StatusCode::Gone => (410, "Gone"),
            StatusCode::LengthRequired => (411, "LengthRequired"),
            StatusCode::PreconditionFailed => (412, "PreconditionFailed"),
            StatusCode::PayloadTooLarge => (413, "PayloadTooLarge"),
            StatusCode::URITooLong => (414, "URITooLong"),
            StatusCode::UnsupportedMediaType => (415, "UnsupportedMediaType"),
            StatusCode::RangeNotSatisfiable => (416, "RangeNotSatisfiable"),
            StatusCode::ExpectationFailed => (417, "ExpectationFailed"),
            StatusCode::MisdirectedRequest => (421, "MisdirectedRequest"),
            StatusCode::UnprocessableContent => (422, "UnprocessableContent"),
            StatusCode::Locked => (423, "Locked"),
            StatusCode::FailedDependency => (424, "FailedDependency"),
            StatusCode::TooEarlyExperimental => (425, "TooEarlyExperimental"),
            StatusCode::UpgradeRequired => (426, "UpgradeRequired"),
            StatusCode::PreconditionRequired => (428, "PreconditionRequired"),
            StatusCode::TooManyRequests => (429, "TooManyRequests"),
            StatusCode::RequestHeaderFieldsTooLarge => (431, "RequestHeaderFieldsTooLarge"),
            StatusCode::UnavailableForLegalReasons => (451, "UnavailableForLegalReasons"),
            StatusCode::InternalServerError => (500, "InternalServerError"),
            StatusCode::NotImplemented => (501, "NotImplemented"),
            StatusCode::BadGateway => (502, "BadGateway"),
            StatusCode::ServiceUnavailable => (503, "ServiceUnavailable"),
            StatusCode::GatewayTimeout => (504, "GatewayTimeout"),
            StatusCode::HTTPVersionNotSupported => (505, "HTTPVersionNotSupported"),
            StatusCode::VariantAlsoNegotiates => (506, "VariantAlsoNegotiates"),
            StatusCode::InsufficientStorage => (507, "InsufficientStorage"),
            StatusCode::LoopDetected => (508, "LoopDetected"),
            StatusCode::NotExtended => (510, "NotExtended"),
            StatusCode::NetworkAuthenticationRequired => (511, "NetworkAuthenticationRequired"),
        }
    }
}

/// Every status has a number of three digits whose first digit is 1 to 5.
pub proof fn lemma_code_in_range(status: StatusCode)
    ensures
        100 <= status.code() < 600,
{
}

/// No two statuses share a number.
pub proof fn lemma_code_distinct(a: StatusCode, b: StatusCode)
    requires
        a.code() == b.code(),
    ensures
        a == b,
{
}

} // verus!
