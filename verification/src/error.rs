use vstd::prelude::*;

verus! {

/// Errors that the file and event endpoints answer with.
#[derive(Debug)]
pub enum AppError {
    /// The request was malformed.
    BadRequest(String),
    /// The requested file does not exist or was deleted.
    NotFound(String),
    /// Storage or database trouble.
    Internal(String),
}

impl AppError {
    /// The HTTP status that goes with the error.
    pub open spec fn spec_status(&self) -> u16 {
        match self {
            AppError::BadRequest(_) => 400,
            AppError::NotFound(_) => 404,
            AppError::Internal(_) => 500,
        }
    }

    /// The text that the error carries.
    pub open spec fn spec_message(&self) -> Seq<char> {
        match self {
            AppError::BadRequest(m) => m@,
            AppError::NotFound(m) => m@,
            AppError::Internal(m) => m@,
        }
    }

    /// The HTTP status that goes with the error.
    pub fn status(&self) -> (code: u16)
        ensures
            code == self.spec_status(),
    {
        match self {
            AppError::BadRequest(_) => 400,
            AppError::NotFound(_) => 404,
            AppError::Internal(_) => 500,
        }
    }

    /// The text that the error carries.
    pub fn message(&self) -> (m: &String)
        ensures
            m@ == self.spec_message(),
    {
        match self {
            AppError::BadRequest(m) => m,
            AppError::NotFound(m) => m,
            AppError::Internal(m) => m,
        }
    }
}

} // verus!
