use vstd::prelude::*;

verus! {

/// The kind of a verdict, without the message that goes with it.
#[derive(Debug, Clone, Copy, PartialEq, Eq, Structural)]
pub enum Fault {
    Malformed,
    Forbidden,
    NotFound,
    InvalidType,
    Conflict,
    TooLarge,
    UnsupportedMedia,
    Internal,
}

/// Every error that the library reports to its callers.
#[derive(Debug, Clone)]
pub enum AppError {
    BadRequest(String),
    Forbidden,
    NotFound(String),
    InvalidType(String),
    Conflict(String),
    PayloadTooLarge,
    UnsupportedMediaType(String),
    Io(String),
    Internal(String),
}

impl AppError {
    pub open spec fn fault_spec(&self) -> Fault {
        match self {
            AppError::BadRequest(_) => Fault::Malformed,
            AppError::Forbidden => Fault::Forbidden,
            AppError::NotFound(_) => Fault::NotFound,
            AppError::InvalidType(_) => Fault::InvalidType,
            AppError::Conflict(_) => Fault::Conflict,
            AppError::PayloadTooLarge => Fault::TooLarge,
            AppError::UnsupportedMediaType(_) => Fault::UnsupportedMedia,
            AppError::Io(_) => Fault::Internal,
            AppError::Internal(_) => Fault::Internal,
        }
    }

    /// The kind of this error.
    pub fn fault(&self) -> (r: Fault)
        ensures
            r == self.fault_spec(),
    {
        match self {
            AppError::BadRequest(_) => Fault::Malformed,
            AppError::Forbidden => Fault::Forbidden,
            AppError::NotFound(_) => Fault::NotFound,
            AppError::InvalidType(_) => Fault::InvalidType,
            AppError::Conflict(_) => Fault::Conflict,
            AppError::PayloadTooLarge => Fault::TooLarge,
            AppError::UnsupportedMediaType(_) => Fault::UnsupportedMedia,
            AppError::Io(_) => Fault::Internal,
            AppError::Internal(_) => Fault::Internal,
        }
    }
}

/// The HTTP status that answers an error of the given kind.
pub open spec fn status_of(f: Fault) -> u16 {
    match f {
        Fault::Malformed => 400,
        Fault::InvalidType => 400,
        Fault::Forbidden => 403,
        Fault::NotFound => 404,
        Fault::Conflict => 409,
        Fault::TooLarge => 413,
        Fault::UnsupportedMedia => 415,
        Fault::Internal => 500,
    }
}

/// The message that a client sees for an error: the error's own text for the
/// kinds a client caused, a fixed text otherwise, so that nothing of the
/// server's internals leaks.
pub open spec fn client_message(e: AppError) -> Seq<char> {
    match e {
        AppError::BadRequest(m) => m@,
        AppError::Forbidden => "access denied"@,
        AppError::NotFound(m) => m@,
        AppError::InvalidType(m) => m@,
        AppError::Conflict(m) => m@,
        AppError::PayloadTooLarge => "file too large"@,
        AppError::UnsupportedMediaType(m) => m@,
        AppError::Io(_) => "internal error"@,
        AppError::Internal(_) => "internal error"@,
    }
}

impl AppError {
    /// The status code and the message of the response that reports this error.
    pub fn status_and_message(&self) -> (r: (u16, String))
        ensures
            r.0 == status_of(self.fault_spec()),
            r.1@ == client_message(*self),
    {
        match self {
            AppError::BadRequest(m) => (400, m.clone()),
            AppError::Forbidden => (403, String::from_str("access denied")),
            AppError::NotFound(m) => (404, m.clone()),
            AppError::InvalidType(m) => (400, m.clone()),
            AppError::Conflict(m) => (409, m.clone()),
            AppError::PayloadTooLarge => (413, String::from_str("file too large")),
            AppError::UnsupportedMediaType(m) => (415, m.clone()),
            AppError::Io(_) => (500, String::from_str("internal error")),
            AppError::Internal(_) => (500, String::from_str("internal error")),
        }
    }
}

} // verus!
