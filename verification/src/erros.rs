use vstd::prelude::*;
use vstd::string::*;

use crate::strutil::decimal_rep;
use crate::strutil::push_decimal;

verus! {

/// The failures of building a transport client or of delivering one record.
#[derive(Clone, Debug)]
pub enum VioletRequestErrors {
    /// The token holds a character that is illegal in an HTTP header value.
    InvalidHeaderValue,
    /// The underlying transport engine could not be built; holds its report.
    CreateClientError(String),
    /// The transport itself failed while sending: connection, name lookup or
    /// timeout.
    InvalidUrl,
    /// Every attempt was answered with a status other than 201; holds the
    /// status of the last answer.
    FailedToSendRequest(u16),
}

impl VioletRequestErrors {
    /// The textual form of this error.
    pub open spec fn spec_describe(&self) -> Seq<char> {
        match self {
            VioletRequestErrors::InvalidHeaderValue => "InvalidHeaderValue: illegal header value"@,
            VioletRequestErrors::CreateClientError(msg) => "CreateClientError: "@ + msg@,
            VioletRequestErrors::InvalidUrl => "InvalidURL"@,
            VioletRequestErrors::FailedToSendRequest(status) => {
                "Failed to send request with status code "@ + decimal_rep(*status as nat)
            },
        }
    }

    /// Renders this error as text.
    pub fn describe(&self) -> (r: String)
        ensures
            r@ == self.spec_describe(),
    {
        match self {
            VioletRequestErrors::InvalidHeaderValue => String::from_str(
                "InvalidHeaderValue: illegal header value",
            ),
            VioletRequestErrors::CreateClientError(msg) => {
                let mut r = String::from_str("CreateClientError: ");
                r.append(msg.as_str());
                r
            },
            VioletRequestErrors::InvalidUrl => String::from_str("InvalidURL"),
            VioletRequestErrors::FailedToSendRequest(status) => {
                let mut r = String::from_str("Failed to send request with status code ");
                push_decimal(&mut r, *status);
                r
            },
        }
    }
}

/// The failures of the one-time initialization of the process-wide client.
#[derive(Clone, Debug)]
pub enum CattleyaInitError {
    /// The base URL was rejected by the transport.
    BaseUrlInvalid,
    /// The transport engine could not be built; holds its report.
    Unspecified(String),
    /// The token is illegal in an HTTP header value.
    InvalidTokenValue,
    /// The client had already been initialized by an earlier call.
    CattleyaEarlyInit,
}

impl CattleyaInitError {
    /// Maps a construction-time transport error onto the initialization
    /// error it stands for. Delivery errors never arise at construction.
    pub fn from_request_error(err: VioletRequestErrors) -> (r: CattleyaInitError)
        requires
            !(err is FailedToSendRequest),
        ensures
            err is InvalidHeaderValue ==> r is InvalidTokenValue,
            (err matches VioletRequestErrors::CreateClientError(m) ==> r
                == CattleyaInitError::Unspecified(m)),
            err is InvalidUrl ==> r is BaseUrlInvalid,
    {
        match err {
            VioletRequestErrors::InvalidHeaderValue => CattleyaInitError::InvalidTokenValue,
            VioletRequestErrors::CreateClientError(m) => CattleyaInitError::Unspecified(m),
            VioletRequestErrors::InvalidUrl => CattleyaInitError::BaseUrlInvalid,
            VioletRequestErrors::FailedToSendRequest(_) => vstd::pervasive::unreached(),
        }
    }
}

} // verus!
