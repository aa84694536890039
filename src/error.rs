use vstd::prelude::*;

verus! {

/// The coarse class of a failure, without its diagnostic text.
#[derive(Debug, Clone, Copy, PartialEq, Eq, Structural)]
pub enum ErrorClass {
    NotFound,
    Internal,
    Database,
    BadRequest,
    Unauthorized,
    PayloadTooLarge,
    InsufficientStorage,
    InvalidToken,
    StorageUnavailable,
    StorageRejected,
}

/// Failures that the service reports to its callers.
#[derive(Debug, Clone)]
pub enum ApplicationError {
    NotFound,
    InternalError(String),
    DatabaseError(String),
    BadRequest(String),
    Unauthorized,
    PayloadTooLarge,
    InsufficientStorage,
    InvalidToken,
    /// The provider could not be reached or refused the service's
    /// credentials for now; the request is safe to retry.
    StorageUnavailable(String),
    /// The provider refused the request for good.
    StorageRejected(String),
}

/// The class of an error.
pub open spec fn class_of(e: ApplicationError) -> ErrorClass {
    match e {
        ApplicationError::NotFound => ErrorClass::NotFound,
        ApplicationError::InternalError(_) => ErrorClass::Internal,
        ApplicationError::DatabaseError(_) => ErrorClass::Database,
        ApplicationError::BadRequest(_) => ErrorClass::BadRequest,
        ApplicationError::Unauthorized => ErrorClass::Unauthorized,
        ApplicationError::PayloadTooLarge => ErrorClass::PayloadTooLarge,
        ApplicationError::InsufficientStorage => ErrorClass::InsufficientStorage,
        ApplicationError::InvalidToken => ErrorClass::InvalidToken,
        ApplicationError::StorageUnavailable(_) => ErrorClass::StorageUnavailable,
        ApplicationError::StorageRejected(_) => ErrorClass::StorageRejected,
    }
}

/// The HTTP status that a class of error is answered with. An invalid token
/// is reported as unauthorized, so that a caller cannot tell the cases apart.
pub open spec fn status_of(c: ErrorClass) -> u16 {
    match c {
        ErrorClass::NotFound => 404,
        ErrorClass::BadRequest => 400,
        ErrorClass::Unauthorized => 401,
        ErrorClass::InvalidToken => 401,
        ErrorClass::PayloadTooLarge => 413,
        ErrorClass::InsufficientStorage => 507,
        ErrorClass::Internal => 500,
        ErrorClass::Database => 500,
        ErrorClass::StorageRejected => 502,
        ErrorClass::StorageUnavailable => 503,
    }
}

/// The generic text that a caller sees for a class of error; the detail an
/// error carries is for the log only.
pub open spec fn public_message_of(c: ErrorClass) -> Seq<char> {
    match c {
        ErrorClass::NotFound => "Resource not found"@,
        ErrorClass::BadRequest => "Bad request"@,
        ErrorClass::Unauthorized => "Unauthorized"@,
        ErrorClass::InvalidToken => "Unauthorized"@,
        ErrorClass::PayloadTooLarge => "File too large"@,
        ErrorClass::InsufficientStorage => "Insufficient storage quota"@,
        ErrorClass::Internal => "Internal server error"@,
        ErrorClass::Database => "Internal server error"@,
        ErrorClass::StorageRejected => "Storage rejected the request"@,
        ErrorClass::StorageUnavailable => "Storage temporarily unavailable"@,
    }
}

impl ApplicationError {
    pub fn class(&self) -> (r: ErrorClass)
        ensures
            r == class_of(*self),
    {
        match self {
            ApplicationError::NotFound => ErrorClass::NotFound,
            ApplicationError::InternalError(_) => ErrorClass::Internal,
            ApplicationError::DatabaseError(_) => ErrorClass::Database,
            ApplicationError::BadRequest(_) => ErrorClass::BadRequest,
            ApplicationError::Unauthorized => ErrorClass::Unauthorized,
            ApplicationError::PayloadTooLarge => ErrorClass::PayloadTooLarge,
            ApplicationError::InsufficientStorage => ErrorClass::InsufficientStorage,
            ApplicationError::InvalidToken => ErrorClass::InvalidToken,
            ApplicationError::StorageUnavailable(_) => ErrorClass::StorageUnavailable,
            ApplicationError::StorageRejected(_) => ErrorClass::StorageRejected,
        }
    }

    /// The HTTP status of the response that reports this error.
    pub fn status_code(&self) -> (r: u16)
        ensures
            r == status_of(class_of(*self)),
    {
        match self.class() {
            ErrorClass::NotFound => 404,
            ErrorClass::BadRequest => 400,
            ErrorClass::Unauthorized => 401,
            ErrorClass::InvalidToken => 401,
            ErrorClass::PayloadTooLarge => 413,
            ErrorClass::InsufficientStorage => 507,
            ErrorClass::Internal => 500,
            ErrorClass::Database => 500,
            ErrorClass::StorageRejected => 502,
            ErrorClass::StorageUnavailable => 503,
        }
    }

    /// The message of the response body that reports this error.
    pub fn public_message(&self) -> (r: String)
        ensures
            r@ == public_message_of(class_of(*self)),
    {
        match self.class() {
            ErrorClass::NotFound => "Resource not found".to_owned(),
            ErrorClass::BadRequest => "Bad request".to_owned(),
            ErrorClass::Unauthorized => "Unauthorized".to_owned(),
            ErrorClass::InvalidToken => "Unauthorized".to_owned(),
            ErrorClass::PayloadTooLarge => "File too large".to_owned(),
            ErrorClass::InsufficientStorage => "Insufficient storage quota".to_owned(),
            ErrorClass::Internal => "Internal server error".to_owned(),
            ErrorClass::Database => "Internal server error".to_owned(),
            ErrorClass::StorageRejected => "Storage rejected the request".to_owned(),
            ErrorClass::StorageUnavailable => "Storage temporarily unavailable".to_owned(),
        }
    }

    /// A one-line description for logs and sweep reports, detail included.
    pub fn describe(&self) -> (r: String)
        ensures
            r@ == describe_spec(*self),
    {
        match self {
            ApplicationError::NotFound => "NotFound".to_owned(),
            ApplicationError::InternalError(m) => concat3("InternalError(", m.as_str(), ")"),
            ApplicationError::DatabaseError(m) => concat3("DatabaseError(", m.as_str(), ")"),
            ApplicationError::BadRequest(m) => concat3("BadRequest(", m.as_str(), ")"),
            ApplicationError::Unauthorized => "Unauthorized".to_owned(),
            ApplicationError::PayloadTooLarge => "PayloadTooLarge".to_owned(),
            ApplicationError::InsufficientStorage => "InsufficientStorage".to_owned(),
            ApplicationError::InvalidToken => "InvalidToken".to_owned(),
            ApplicationError::StorageUnavailable(m) => concat3("StorageUnavailable(", m.as_str(), ")"),
            ApplicationError::StorageRejected(m) => concat3("StorageRejected(", m.as_str(), ")"),
        }
    }
}

pub open spec fn describe_spec(e: ApplicationError) -> Seq<char> {
    match e {
        ApplicationError::NotFound => "NotFound"@,
        ApplicationError::InternalError(m) => "InternalError("@ + m@ + ")"@,
        ApplicationError::DatabaseError(m) => "DatabaseError("@ + m@ + ")"@,
        ApplicationError::BadRequest(m) => "BadRequest("@ + m@ + ")"@,
        ApplicationError::Unauthorized => "Unauthorized"@,
        ApplicationError::PayloadTooLarge => "PayloadTooLarge"@,
        ApplicationError::InsufficientStorage => "InsufficientStorage"@,
        ApplicationError::InvalidToken => "InvalidToken"@,
        ApplicationError::StorageUnavailable(m) => "StorageUnavailable("@ + m@ + ")"@,
        ApplicationError::StorageRejected(m) => "StorageRejected("@ + m@ + ")"@,
    }
}

/// Joins two pieces of text.
pub fn concat2(a: &str, b: &str) -> (r: String)
    ensures
        r@ == a@ + b@,
{
    let mut s = a.to_owned();
    s.append(b);
    s
}

/// Joins three pieces of text.
pub fn concat3(a: &str, b: &str, c: &str) -> (r: String)
    ensures
        r@ == a@ + b@ + c@,
{
    let mut s = a.to_owned();
    s.append(b);
    s.append(c);
    s
}

/// Failures of a storage provider.
#[derive(Debug, Clone)]
pub enum StorageError {
    NotFound(String),
    Unauthorized(String),
    NetworkError(String),
    InvalidCredentials(String),
    ProviderError(String),
    InternalError(String),
}

/// The detail text a provider failure carries.
pub open spec fn storage_detail_of(e: StorageError) -> Seq<char> {
    match e {
        StorageError::NotFound(m) => m@,
        StorageError::Unauthorized(m) => m@,
        StorageError::NetworkError(m) => m@,
        StorageError::InvalidCredentials(m) => m@,
        StorageError::ProviderError(m) => m@,
        StorageError::InternalError(m) => m@,
    }
}

/// Whether `r` is how the service reports the provider failure `e`, with
/// its detail after the prefix `Storage error: `: a missing object is
/// `NotFound`; a network failure or refused credentials are transient
/// (`StorageUnavailable`); a provider error or invalid credentials are
/// permanent (`StorageRejected`); anything else is internal.
pub open spec fn reports_storage_error(e: StorageError, r: ApplicationError) -> bool {
    let detail = "Storage error: "@ + storage_detail_of(e);
    match e {
        StorageError::NotFound(_) => r == ApplicationError::NotFound,
        StorageError::NetworkError(_) | StorageError::Unauthorized(_) => (r matches ApplicationError::StorageUnavailable(m) && m@ == detail),
        StorageError::ProviderError(_) | StorageError::InvalidCredentials(_) => (r matches ApplicationError::StorageRejected(m) && m@ == detail),
        StorageError::InternalError(_) => (r matches ApplicationError::InternalError(m) && m@ == detail),
    }
}

impl StorageError {
    /// The service error that reports this provider failure.
    pub fn into_application(self) -> (r: ApplicationError)
        ensures
            reports_storage_error(self, r),
    {
        match self {
            StorageError::NotFound(_) => ApplicationError::NotFound,
            StorageError::NetworkError(m) | StorageError::Unauthorized(m) => {
                ApplicationError::StorageUnavailable(concat2("Storage error: ", m.as_str()))
            },
            StorageError::ProviderError(m) | StorageError::InvalidCredentials(m) => {
                ApplicationError::StorageRejected(concat2("Storage error: ", m.as_str()))
            },
            StorageError::InternalError(m) => {
                ApplicationError::InternalError(concat2("Storage error: ", m.as_str()))
            },
        }
    }
}

} // verus!
