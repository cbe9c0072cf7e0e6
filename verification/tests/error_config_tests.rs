use ticketing::configuration::{
    environment_from_variable, ApplicationSetting, DatabaseSettings, Environment, Settings,
};
use ticketing::error::ClientError;
use ticketing::models::ModelOp;
use ticketing::Error;

#[test]
fn client_status_of_errors() {
    assert_eq!(Error::LoginFail.client_status_and_error(), (403, ClientError::LOGIN_FAIL));
    for e in [Error::AuthFailNoAuthToken, Error::AuthFailTokenWrongFormat, Error::AuthFailCtxNotInRequestExt] {
        assert_eq!(e.client_status_and_error(), (403, ClientError::NO_AUTH));
    }
    assert_eq!(Error::TicketNotFound.client_status_and_error(), (400, ClientError::INVALID_PARAMS));
    for e in [
        Error::TicketCreationFailed, Error::NoTicketsFound, Error::EmptyTicket, Error::UserCreateFail,
        Error::UserIdNotFound, Error::UpdateTicketError, Error::DatabaseError, Error::TicketUpdateFailed,
    ] {
        assert_eq!(e.client_status_and_error(), (500, ClientError::SERVICE_ERROR));
    }
}

#[test]
fn error_names() {
    assert_eq!(Error::LoginFail.as_ref(), "LoginFail");
    assert_eq!(Error::AuthFailCtxNotInRequestExt.as_ref(), "AuthFailCtxNotInRequestExt");
    assert_eq!(Error::TicketUpdateFailed.as_ref(), "TicketUpdateFailed");
    assert_eq!(ClientError::NO_AUTH.as_ref(), "NO_AUTH");
    assert_eq!(ClientError::SERVICE_ERROR.as_ref(), "SERVICE_ERROR");
    assert_eq!(ClientError::INVALID_PARAMS.as_ref(), "INVALID_PARAMS");
    assert_eq!(ClientError::LOGIN_FAIL.as_ref(), "LOGIN_FAIL");
}

#[test]
fn failed_database_operations_map_to_errors() {
    assert_eq!(ModelOp::CreateTicket.failure(), Error::TicketCreationFailed);
    assert_eq!(ModelOp::GetTickets.failure(), Error::NoTicketsFound);
    assert_eq!(ModelOp::GetUserTickets.failure(), Error::NoTicketsFound);
    assert_eq!(ModelOp::GetTicket.failure(), Error::NoTicketsFound);
    assert_eq!(ModelOp::DeleteTicket.failure(), Error::TicketNotFound);
    assert_eq!(ModelOp::UpdateTicket.failure(), Error::UpdateTicketError);
    assert_eq!(ModelOp::UpdateTicketDescription.failure(), Error::UpdateTicketError);
    assert_eq!(ModelOp::RegisterNew.failure(), Error::UserCreateFail);
    assert_eq!(ModelOp::GetUserId.failure(), Error::UserCreateFail);
    assert_eq!(ModelOp::GetUsername.failure(), Error::UserIdNotFound);
}

#[test]
fn environment_names_parse_back() {
    for e in [Environment::Local, Environment::Production] {
        assert_eq!(Environment::try_from(e.as_str().to_string()), Ok(e));
    }
    assert_eq!(Environment::Local.as_str(), "local");
    assert_eq!(Environment::Production.as_str(), "production");
}

#[test]
fn environment_parsing_ignores_case() {
    assert_eq!(Environment::try_from("LOCAL".to_string()), Ok(Environment::Local));
    assert_eq!(Environment::try_from("Production".to_string()), Ok(Environment::Production));
    assert_eq!(Environment::try_from("LoCaL".to_string()), Ok(Environment::Local));
}

#[test]
fn unsupported_environment_is_named_in_error() {
    assert_eq!(
        Environment::try_from("Staging".to_string()),
        Err("staging is not a supported environment. Use either `local` or `production`.".to_string())
    );
    assert_eq!(
        Environment::try_from("STAGING".to_string()),
        Err("staging is not a supported environment. Use either `local` or `production`.".to_string())
    );
    assert_eq!(
        Environment::try_from(String::new()),
        Err(" is not a supported environment. Use either `local` or `production`.".to_string())
    );
}

#[test]
fn environment_defaults_to_local() {
    assert_eq!(environment_from_variable(None), Ok(Environment::Local));
    assert_eq!(environment_from_variable(Some("production".to_string())), Ok(Environment::Production));
    assert!(environment_from_variable(Some("dev".to_string())).is_err());
}

#[test]
fn connection_string_has_all_parts() {
    let settings = Settings {
        application: ApplicationSetting { host: "127.0.0.1".to_string(), port: 3000 },
        database: DatabaseSettings {
            db_name: "tickets".to_string(),
            port: 5432,
            username: "postgres".to_string(),
            password: "pw".to_string(),
            host: "localhost".to_string(),
        },
    };
    assert_eq!(settings.postgres_connection_string(), "postgres://postgres:pw@localhost:5432/tickets");
    let zero_port = Settings {
        application: ApplicationSetting { host: String::new(), port: 0 },
        database: DatabaseSettings {
            db_name: "d".to_string(),
            port: 0,
            username: "u".to_string(),
            password: "p".to_string(),
            host: "h".to_string(),
        },
    };
    assert_eq!(zero_port.postgres_connection_string(), "postgres://u:p@h:0/d");
}
