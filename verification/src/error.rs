//! The library's error type.

use vstd::prelude::*;

verus! {

/// Errors of the capture, configuration and recording logic. Each variant
/// carries a human-readable message.
#[derive(Debug, PartialEq, Eq)]
pub enum AppError {
    Capture(String),
    Clipboard(String),
    Config(String),
    Window(String),
    Annotation(String),
    Recording(String),
    Ocr(String),
    Upload(String),
}

impl AppError {
    /// The message carried by the error.
    pub open spec fn message(&self) -> Seq<char> {
        match self {
            AppError::Capture(m) => m@,
            AppError::Clipboard(m) => m@,
            AppError::Config(m) => m@,
            AppError::Window(m) => m@,
            AppError::Annotation(m) => m@,
            AppError::Recording(m) => m@,
            AppError::Ocr(m) => m@,
            AppError::Upload(m) => m@,
        }
    }
}

} // verus!
