use vstd::prelude::*;
use vstd::string::StringExecFns;

verus! {

/// The error type of every fallible operation of the library.
#[derive(Clone, Debug, PartialEq, Eq)]
pub enum AppError {
    ValidationError(String),
    UserServiceError(String),
    PaymentError(String),
    CurrencyError(String),
    TransferError(String),
    DatabaseError(String),
    ConfigError(String),
    NotFoundError(String),
    InvalidStateError { current: String, expected: String },
    /// A conditional write found the stored status changed since it was read.
    ConflictError(String),
    ExternalServiceError(String),
    InternalError(String),
}

/// The body returned to clients when an operation fails.
#[derive(Clone, Debug, PartialEq, Eq)]
pub struct ErrorResponse {
    pub status: String,
    pub message: String,
    pub error_code: Option<String>,
}

/// Convenient result type of the library.
pub type AppResult<T> = Result<T, AppError>;

/// The human-readable prefix of each kind of error.
pub open spec fn error_prefix(e: AppError) -> Seq<char> {
    match e {
        AppError::ValidationError(_) => "Validation error: "@,
        AppError::UserServiceError(_) => "User service error: "@,
        AppError::PaymentError(_) => "Payment error: "@,
        AppError::CurrencyError(_) => "Currency conversion error: "@,
        AppError::TransferError(_) => "Transfer error: "@,
        AppError::DatabaseError(_) => "Database error: "@,
        AppError::ConfigError(_) => "Configuration error: "@,
        AppError::NotFoundError(_) => "Transaction not found: "@,
        AppError::InvalidStateError { .. } => "Transaction in invalid state: current="@,
        AppError::ConflictError(_) => "Concurrent update conflict: "@,
        AppError::ExternalServiceError(_) => "External service error: "@,
        AppError::InternalError(_) => "Internal server error: "@,
    }
}

/// The full message of an error: its prefix followed by its details.
pub open spec fn error_message(e: AppError) -> Seq<char> {
    match e {
        AppError::ValidationError(m) => error_prefix(e) + m@,
        AppError::UserServiceError(m) => error_prefix(e) + m@,
        AppError::PaymentError(m) => error_prefix(e) + m@,
        AppError::CurrencyError(m) => error_prefix(e) + m@,
        AppError::TransferError(m) => error_prefix(e) + m@,
        AppError::DatabaseError(m) => error_prefix(e) + m@,
        AppError::ConfigError(m) => error_prefix(e) + m@,
        AppError::NotFoundError(m) => error_prefix(e) + m@,
        AppError::InvalidStateError { current, expected } => error_prefix(e) + current@
            + ", expected="@ + expected@,
        AppError::ConflictError(m) => error_prefix(e) + m@,
        AppError::ExternalServiceError(m) => error_prefix(e) + m@,
        AppError::InternalError(m) => error_prefix(e) + m@,
    }
}

/// The HTTP status that reports an error to a client.
pub open spec fn http_status(e: AppError) -> u16 {
    match e {
        AppError::ValidationError(_) => 400,
        AppError::NotFoundError(_) => 404,
        AppError::ConflictError(_) => 409,
        AppError::InvalidStateError { .. } => 422,
        AppError::UserServiceError(_) | AppError::PaymentError(_) | AppError::CurrencyError(_)
        | AppError::TransferError(_) | AppError::ExternalServiceError(_) => 502,
        _ => 500,
    }
}

fn text(s: &str) -> (r: String)
    ensures
        r@ == s@,
{
    String::from_str(s)
}

impl AppError {
    pub fn validation_error(message: String) -> (r: Self)
        ensures
            r == AppError::ValidationError(message),
    {
        AppError::ValidationError(message)
    }

    pub fn not_found(message: String) -> (r: Self)
        ensures
            r == AppError::NotFoundError(message),
    {
        AppError::NotFoundError(message)
    }

    pub fn invalid_state(current: String, expected: String) -> (r: Self)
        ensures
            r == (AppError::InvalidStateError { current, expected }),
    {
        AppError::InvalidStateError { current, expected }
    }

    pub fn database_error(message: String) -> (r: Self)
        ensures
            r == AppError::DatabaseError(message),
    {
        AppError::DatabaseError(message)
    }

    pub fn internal_error(message: String) -> (r: Self)
        ensures
            r == AppError::InternalError(message),
    {
        AppError::InternalError(message)
    }

    pub fn conflict(message: String) -> (r: Self)
        ensures
            r == AppError::ConflictError(message),
    {
        AppError::ConflictError(message)
    }

    /// The HTTP status code under which this error is reported.
    pub fn status_code(&self) -> (r: u16)
        ensures
            r == http_status(*self),
    {
        match self {
            AppError::ValidationError(_) => 400,
            AppError::NotFoundError(_) => 404,
            AppError::ConflictError(_) => 409,
            AppError::InvalidStateError { .. } => 422,
            AppError::UserServiceError(_) | AppError::PaymentError(_) | AppError::CurrencyError(
                _,
            ) | AppError::TransferError(_) | AppError::ExternalServiceError(_) => 502,
            _ => 500,
        }
    }

    /// The full human-readable message of this error.
    pub fn message(&self) -> (r: String)
        ensures
            r@ == error_message(*self),
    {
        match self {
            AppError::ValidationError(m) => text("Validation error: ").concat(m.as_str()),
            AppError::UserServiceError(m) => text("User service error: ").concat(m.as_str()),
            AppError::PaymentError(m) => text("Payment error: ").concat(m.as_str()),
            AppError::CurrencyError(m) => text("Currency conversion error: ").concat(m.as_str()),
            AppError::TransferError(m) => text("Transfer error: ").concat(m.as_str()),
            AppError::DatabaseError(m) => text("Database error: ").concat(m.as_str()),
            AppError::ConfigError(m) => text("Configuration error: ").concat(m.as_str()),
            AppError::NotFoundError(m) => text("Transaction not found: ").concat(m.as_str()),
            AppError::InvalidStateError { current, expected } => text(
                "Transaction in invalid state: current=",
            ).concat(current.as_str()).concat(", expected=").concat(expected.as_str()),
            AppError::ConflictError(m) => text("Concurrent update conflict: ").concat(m.as_str()),
            AppError::ExternalServiceError(m) => text("External service error: ").concat(
                m.as_str(),
            ),
            AppError::InternalError(m) => text("Internal server error: ").concat(m.as_str()),
        }
    }

    /// The response body for this error under the given error code.
    pub fn to_error_response(&self, code: &str) -> (r: ErrorResponse)
        ensures
            r.status@ == "error"@,
            r.message@ == error_message(*self),
            r.error_code is Some,
            r.error_code.unwrap()@ == code@,
    {
        ErrorResponse { status: text("error"), message: self.message(), error_code: Some(text(code)) }
    }

    /// The response body for this error, coded with its HTTP status.
    pub fn error_response(&self) -> (r: ErrorResponse)
        ensures
            r.status@ == "error"@,
            r.message@ == error_message(*self),
            r.error_code is Some,
            r.error_code.unwrap()@ == status_code_text(http_status(*self)),
    {
        let code = self.status_code();
        let code_text = if code == 400 {
            "400"
        } else if code == 404 {
            "404"
        } else if code == 409 {
            "409"
        } else if code == 422 {
            "422"
        } else if code == 502 {
            "502"
        } else {
            "500"
        };
        self.to_error_response(code_text)
    }
}

/// `r` failed because the record asked for does not exist.
pub open spec fn not_found<T>(r: Result<T, AppError>) -> bool {
    r matches Err(e) && e is NotFoundError
}

/// `r` failed on invalid input or a broken business rule.
pub open spec fn invalid_input<T>(r: Result<T, AppError>) -> bool {
    r matches Err(e) && e is ValidationError
}

/// `r` failed with a collection-provider error.
pub open spec fn payment_rejected<T>(r: Result<T, AppError>) -> bool {
    r matches Err(e) && e is PaymentError
}

/// `r` failed with a transfer-provider error.
pub open spec fn transfer_rejected<T>(r: Result<T, AppError>) -> bool {
    r matches Err(e) && e is TransferError
}

/// `r` failed on an unexpected internal condition.
pub open spec fn internal<T>(r: Result<T, AppError>) -> bool {
    r matches Err(e) && e is InternalError
}

/// `r` failed because a conditional write found the record changed.
pub open spec fn conflicted<T>(r: Result<T, AppError>) -> bool {
    r matches Err(e) && e is ConflictError
}

/// The decimal text of each HTTP status code that errors are reported under.
pub open spec fn status_code_text(code: u16) -> Seq<char> {
    if code == 400 {
        "400"@
    } else if code == 404 {
        "404"@
    } else if code == 409 {
        "409"@
    } else if code == 422 {
        "422"@
    } else if code == 502 {
        "502"@
    } else {
        "500"@
    }
}

} // verus!
