//! The failures that the recognition pipeline reports.

use vstd::prelude::*;
use vstd::string::StringExecFns;

verus! {

/// Everything that can go wrong between configuring the engine and handing
/// back the recognised documents.
#[derive(Debug, Clone, Copy, PartialEq, Eq, Structural)]
pub enum TesseractError {
    /// The engine refused to initialise, or is used without having been
    /// initialised. Fatal for the handle it happened on.
    TesseractInitError,
    /// An image location could not be opened or decoded. Confined to that image.
    NoSuchFileException,
    /// The engine produced no text for an image it had loaded. Confined to
    /// that image.
    TesseracRuntimeError,
    /// Reserved for a deadline on recognition. No deadline is enforced, so
    /// nothing reports it.
    TesseractTimeoutError,
    /// The requested output kind is not one the engine can extract.
    UnsupportedFormat,
    /// The directory a document should be written to does not exist.
    DestinationNotFound,
    /// A string meant for the engine holds a NUL character.
    InvalidArgument,
}

impl TesseractError {
    /// The text a user is shown for this failure.
    pub open spec fn message_spec(self) -> Seq<char> {
        match self {
            TesseractError::TesseractInitError => "Tesseract Init Error"@,
            TesseractError::NoSuchFileException => "No such file"@,
            TesseractError::TesseracRuntimeError => "Tesseract Runtime Error"@,
            TesseractError::TesseractTimeoutError => "Tesseract Runtime Error"@,
            TesseractError::UnsupportedFormat => "Unsupported output format"@,
            TesseractError::DestinationNotFound => "Destination directory not found"@,
            TesseractError::InvalidArgument => "Invalid argument"@,
        }
    }

    /// Renders the failure for display.
    pub fn message(&self) -> (s: String)
        ensures
            s@ == self.message_spec(),
    {
        match self {
            TesseractError::TesseractInitError => String::from_str("Tesseract Init Error"),
            TesseractError::NoSuchFileException => String::from_str("No such file"),
            TesseractError::TesseracRuntimeError => String::from_str("Tesseract Runtime Error"),
            TesseractError::TesseractTimeoutError => String::from_str("Tesseract Runtime Error"),
            TesseractError::UnsupportedFormat => String::from_str("Unsupported output format"),
            TesseractError::DestinationNotFound => String::from_str(
                "Destination directory not found",
            ),
            TesseractError::InvalidArgument => String::from_str("Invalid argument"),
        }
    }

    /// Whether the failure concerns a single image and leaves the rest of a
    /// batch untouched.
    pub open spec fn is_per_image(self) -> bool {
        self is NoSuchFileException || self is TesseracRuntimeError
    }
}

} // verus!
