use vstd::prelude::*;

verus! {

/// The result type used throughout the service.
pub type Result<T> = core::result::Result<T, Error>;

/// The errors of the service.
#[derive(Clone, Copy, Debug, PartialEq, Eq, Structural)]
pub enum Error {
    /// Login failed
    LoginFail,
    /// Ticket creation failed
    TicketCreationFailed,
    /// No tickets
    NoTicketsFound,
    /// The id provided was not found
    TicketNotFound,
    /// No auth token cookie found
    AuthFailNoAuthToken,
    EmptyTicket,
    AuthFailTokenWrongFormat,
    AuthFailCtxNotInRequestExt,
    UserCreateFail,
    /// The provided user id does not exist
    UserIdNotFound,
    /// Changing the ticket state failed
    UpdateTicketError,
    DatabaseError,
    TicketUpdateFailed,
}

/// What a client is told about a failed request.
#[allow(non_camel_case_types)]
#[derive(Clone, Copy, Debug, PartialEq, Eq, Structural)]
pub enum ClientError {
    LOGIN_FAIL,
    NO_AUTH,
    INVALID_PARAMS,
    SERVICE_ERROR,
}

/// HTTP status codes the service answers failed requests with.
pub const STATUS_BAD_REQUEST: u16 = 400;
pub const STATUS_FORBIDDEN: u16 = 403;
pub const STATUS_INTERNAL_SERVER_ERROR: u16 = 500;

impl Error {
    /// The HTTP status and the client-facing error class of a service error:
    /// a failed login and every authentication failure are forbidden, a
    /// missing ticket is a bad request, anything else is an internal error.
    pub open spec fn client_status(self) -> (u16, ClientError) {
        match self {
            Error::LoginFail => (STATUS_FORBIDDEN, ClientError::LOGIN_FAIL),
            Error::AuthFailNoAuthToken
            | Error::AuthFailTokenWrongFormat
            | Error::AuthFailCtxNotInRequestExt => (STATUS_FORBIDDEN, ClientError::NO_AUTH),
            Error::TicketNotFound => (STATUS_BAD_REQUEST, ClientError::INVALID_PARAMS),
            _ => (STATUS_INTERNAL_SERVER_ERROR, ClientError::SERVICE_ERROR),
        }
    }

    pub fn client_status_and_error(&self) -> (r: (u16, ClientError))
        ensures
            r == self.client_status(),
    {
        match self {
            Error::LoginFail => (STATUS_FORBIDDEN, ClientError::LOGIN_FAIL),
            Error::AuthFailNoAuthToken
            | Error::AuthFailTokenWrongFormat
            | Error::AuthFailCtxNotInRequestExt => (STATUS_FORBIDDEN, ClientError::NO_AUTH),
            Error::TicketNotFound => (STATUS_BAD_REQUEST, ClientError::INVALID_PARAMS),
            _ => (STATUS_INTERNAL_SERVER_ERROR, ClientError::SERVICE_ERROR),
        }
    }

    /// The variant's name, as the service logs and reports it.
    pub open spec fn name(self) -> &'static str {
        match self {
            Error::LoginFail => "LoginFail",
            Error::TicketCreationFailed => "TicketCreationFailed",
            Error::NoTicketsFound => "NoTicketsFound",
            Error::TicketNotFound => "TicketNotFound",
            Error::AuthFailNoAuthToken => "AuthFailNoAuthToken",
            Error::EmptyTicket => "EmptyTicket",
            Error::AuthFailTokenWrongFormat => "AuthFailTokenWrongFormat",
            Error::AuthFailCtxNotInRequestExt => "AuthFailCtxNotInRequestExt",
            Error::UserCreateFail => "UserCreateFail",
            Error::UserIdNotFound => "UserIdNotFound",
            Error::UpdateTicketError => "UpdateTicketError",
            Error::DatabaseError => "DatabaseError",
            Error::TicketUpdateFailed => "TicketUpdateFailed",
        }
    }

    pub fn as_ref(&self) -> (s: &'static str)
        ensures
            s == self.name(),
    {
        match self {
            Error::LoginFail => "LoginFail",
            Error::TicketCreationFailed => "TicketCreationFailed",
            Error::NoTicketsFound => "NoTicketsFound",
            Error::TicketNotFound => "TicketNotFound",
            Error::AuthFailNoAuthToken => "AuthFailNoAuthToken",
            Error::EmptyTicket => "EmptyTicket",
            Error::AuthFailTokenWrongFormat => "AuthFailTokenWrongFormat",
            Error::AuthFailCtxNotInRequestExt => "AuthFailCtxNotInRequestExt",
            Error::UserCreateFail => "UserCreateFail",
            Error::UserIdNotFound => "UserIdNotFound",
            Error::UpdateTicketError => "UpdateTicketError",
            Error::DatabaseError => "DatabaseError",
            Error::TicketUpdateFailed => "TicketUpdateFailed",
        }
    }
}

/// Every service error is answered with an error status (4xx or 5xx), never
/// with success; in particular a failed login is never answered with 200.
pub proof fn every_error_is_answered_with_an_error_status(e: Error)
    ensures
        400 <= e.client_status().0 < 600,
        e == Error::LoginFail ==> e.client_status().0 != 200,
{
}

impl ClientError {
    /// The variant's name, as it is sent to clients.
    pub open spec fn name(self) -> &'static str {
        match self {
            ClientError::LOGIN_FAIL => "LOGIN_FAIL",
            ClientError::NO_AUTH => "NO_AUTH",
            ClientError::INVALID_PARAMS => "INVALID_PARAMS",
            ClientError::SERVICE_ERROR => "SERVICE_ERROR",
        }
    }

    pub fn as_ref(&self) -> (s: &'static str)
        ensures
            s == self.name(),
    {
        match self {
            ClientError::LOGIN_FAIL => "LOGIN_FAIL",
            ClientError::NO_AUTH => "NO_AUTH",
            ClientError::INVALID_PARAMS => "INVALID_PARAMS",
            ClientError::SERVICE_ERROR => "SERVICE_ERROR",
        }
    }
}

} // verus!
