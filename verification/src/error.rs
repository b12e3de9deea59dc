//! The error type of the application and its messages.

use vstd::prelude::*;
use vstd::string::StringExecFns;

verus! {

/// What went wrong, with a description. The storage, I/O and serialization
/// variants carry the message of the underlying error.
#[derive(Clone, Debug)]
pub enum AppError {
    Camera(String),
    Vision(String),
    Gesture(String),
    Training(String),
    Action(String),
    Storage(String),
    Config(String),
    Io(String),
    Serialization(String),
    Internal(String),
}

/// The message of an error: a prefix naming its kind, then its description.
pub open spec fn error_text(e: AppError) -> Seq<char> {
    match e {
        AppError::Camera(m) => "Camera error: "@ + m@,
        AppError::Vision(m) => "Vision engine error: "@ + m@,
        AppError::Gesture(m) => "Gesture recognition error: "@ + m@,
        AppError::Training(m) => "Training error: "@ + m@,
        AppError::Action(m) => "Action execution error: "@ + m@,
        AppError::Storage(m) => "Storage error: "@ + m@,
        AppError::Config(m) => "Configuration error: "@ + m@,
        AppError::Io(m) => "IO error: "@ + m@,
        AppError::Serialization(m) => "Serialization error: "@ + m@,
        AppError::Internal(m) => "Internal error: "@ + m@,
    }
}

/// `prefix` followed by `rest`.
pub fn joined(prefix: &str, rest: &str) -> (r: String)
    ensures
        r@ == prefix@ + rest@,
{
    let mut s = String::from_str(prefix);
    s.append(rest);
    s
}

impl AppError {
    /// The message of this error, as its `Display` writes it.
    pub fn message(&self) -> (r: String)
        ensures
            r@ == error_text(*self),
    {
        match self {
            AppError::Camera(m) => joined("Camera error: ", m.as_str()),
            AppError::Vision(m) => joined("Vision engine error: ", m.as_str()),
            AppError::Gesture(m) => joined("Gesture recognition error: ", m.as_str()),
            AppError::Training(m) => joined("Training error: ", m.as_str()),
            AppError::Action(m) => joined("Action execution error: ", m.as_str()),
            AppError::Storage(m) => joined("Storage error: ", m.as_str()),
            AppError::Config(m) => joined("Configuration error: ", m.as_str()),
            AppError::Io(m) => joined("IO error: ", m.as_str()),
            AppError::Serialization(m) => joined("Serialization error: ", m.as_str()),
            AppError::Internal(m) => joined("Internal error: ", m.as_str()),
        }
    }
}

} // verus!
