//! The error type shared by the library.
use vstd::prelude::*;

verus! {

#[verifier::external_type_specification]
#[verifier::external_body]
pub struct ExIoError(std::io::Error);

/// Errors reported by receivers, backends and the output layer.
#[derive(Debug)]
pub enum AppError {
    Io(std::io::Error),
    Config(String),
    InvalidState(String),
    InvalidData(String),
}

/// The text that `std::io::Error` displays.
#[verifier::external_body]
fn io_error_text(error: &std::io::Error) -> String {
    error.to_string()
}

impl AppError {
    /// The human-readable message of the error: a fixed prefix naming the
    /// kind of error, then its detail.
    pub fn message(&self) -> (text: String)
        ensures
            match self {
                AppError::Config(d) => text@ == "configuration error: "@ + d@,
                AppError::InvalidState(d) => text@ == "invalid state: "@ + d@,
                AppError::InvalidData(d) => text@ == "invalid data: "@ + d@,
                AppError::Io(_) => text@.len() >= "I/O error: "@.len() && text@.subrange(
                    0,
                    "I/O error: "@.len() as int,
                ) == "I/O error: "@,
            },
    {
        match self {
            AppError::Config(d) => String::from_str("configuration error: ").concat(d.as_str()),
            AppError::InvalidState(d) => String::from_str("invalid state: ").concat(d.as_str()),
            AppError::InvalidData(d) => String::from_str("invalid data: ").concat(d.as_str()),
            AppError::Io(e) => {
                let detail = io_error_text(e);
                let text = String::from_str("I/O error: ").concat(detail.as_str());
                assert(text@.subrange(0, "I/O error: "@.len() as int) =~= "I/O error: "@);
                text
            },
        }
    }
}

} // verus!
