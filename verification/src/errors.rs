use vstd::prelude::*;

verus! {

/// The kinds of failure a request can end in.
#[derive(Debug, Clone, Copy, PartialEq, Eq, Structural)]
pub enum AppErrorType {
    DbError,
    NotFoundError,
    InvalidField,
    Authentification,
    Authorization,
    SessionError,
    ValidationError,
}

/// An error with an optional message for the client, an optional
/// internal cause, and its kind.
#[derive(Debug, Clone)]
pub struct AppError {
    pub message: Option<String>,
    pub cause: Option<String>,
    pub error_type: AppErrorType,
}

/// The text shown for an error of kind `t` that carries no message of its own.
pub open spec fn default_message(t: AppErrorType) -> Seq<char> {
    match t {
        AppErrorType::NotFoundError => "The requested item was not found"@,
        AppErrorType::InvalidField => "Invalid field value provided"@,
        AppErrorType::Authentification => "Invalid log in data"@,
        AppErrorType::Authorization => "Authorization failed. Plese authorizate first!"@,
        AppErrorType::ValidationError => "Invalid data validation. Use correct data!"@,
        _ => "An unexpected error has occurred"@,
    }
}

/// The HTTP status code that answers an error of kind `t`.
pub open spec fn status_of(t: AppErrorType) -> u16 {
    match t {
        AppErrorType::DbError => 500,
        AppErrorType::NotFoundError => 404,
        AppErrorType::InvalidField => 400,
        AppErrorType::Authentification => 401,
        AppErrorType::Authorization => 403,
        AppErrorType::SessionError => 500,
        AppErrorType::ValidationError => 400,
    }
}

impl AppError {
    /// The text a client sees for this error: its own message when it has one,
    /// otherwise the default text of its kind.
    pub open spec fn text(self) -> Seq<char> {
        match self.message {
            Some(m) => m@,
            None => default_message(self.error_type),
        }
    }

    pub fn new(message: Option<String>, cause: Option<String>, error_type: AppErrorType) -> (e: AppError)
        ensures
            e.message == message,
            e.cause == cause,
            e.error_type == error_type,
    {
        AppError { message, cause, error_type }
    }

    pub fn message(&self) -> (m: String)
        ensures
            m@ == self.text(),
    {
        match &self.message {
            Some(m) => m.clone(),
            None => match self.error_type {
                AppErrorType::NotFoundError => String::from_str("The requested item was not found"),
                AppErrorType::InvalidField => String::from_str("Invalid field value provided"),
                AppErrorType::Authentification => String::from_str("Invalid log in data"),
                AppErrorType::Authorization => String::from_str(
                    "Authorization failed. Plese authorizate first!",
                ),
                AppErrorType::ValidationError => String::from_str(
                    "Invalid data validation. Use correct data!",
                ),
                _ => String::from_str("An unexpected error has occurred"),
            },
        }
    }

    /// The HTTP status code of the response that carries this error.
    pub fn status_code(&self) -> (code: u16)
        ensures
            code == status_of(self.error_type),
            400 <= code < 600,
    {
        match self.error_type {
            AppErrorType::DbError => 500,
            AppErrorType::NotFoundError => 404,
            AppErrorType::InvalidField => 400,
            AppErrorType::Authentification => 401,
            AppErrorType::Authorization => 403,
            AppErrorType::SessionError => 500,
            AppErrorType::ValidationError => 400,
        }
    }

    /// The error a failed database query turns into: no message for the
    /// client, the query's error text as its cause.
    pub fn from_db_error(cause: String) -> (e: AppError)
        ensures
            e.message is None,
            e.cause == Some(cause),
            e.error_type == AppErrorType::DbError,
    {
        AppError { message: None, cause: Some(cause), error_type: AppErrorType::DbError }
    }

    /// The error for a session cookie that could not be read.
    pub fn session_get_error() -> (e: AppError)
        ensures
            e.message matches Some(m) && m@ == "Error get session id"@,
            e.cause is None,
            e.error_type == AppErrorType::SessionError,
    {
        AppError::new(
            Some(String::from_str("Error get session id")),
            None,
            AppErrorType::SessionError,
        )
    }

    /// The error for a session cookie that could not be written.
    pub fn session_insert_error() -> (e: AppError)
        ensures
            e.message matches Some(m) && m@ == "Error insert session id"@,
            e.cause is None,
            e.error_type == AppErrorType::SessionError,
    {
        AppError::new(
            Some(String::from_str("Error insert session id")),
            None,
            AppErrorType::SessionError,
        )
    }

    /// The error for input that fails validation.
    pub fn validation_error() -> (e: AppError)
        ensures
            e.message is None,
            e.cause is None,
            e.error_type == AppErrorType::ValidationError,
    {
        AppError::new(None, None, AppErrorType::ValidationError)
    }

    /// The GraphQL field error that reports this error: its message is the
    /// text a client sees for it.
    pub fn into_field_error(self) -> (f: FieldError)
        ensures
            f.message@ == self.text(),
    {
        FieldError { message: self.message() }
    }
}

/// An error reported in a GraphQL response, against the field whose
/// resolver failed.
#[derive(Debug, Clone)]
pub struct FieldError {
    pub message: String,
}

impl FieldError {
    /// A field error with the given message.
    pub fn new(message: String) -> (f: FieldError)
        ensures
            f.message == message,
    {
        FieldError { message }
    }
}

} // verus!
