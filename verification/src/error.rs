//! The failures that the toolbench reports, one variant per kind.

use vstd::prelude::*;
use vstd::string::StringExecFns;

verus! {

/// What was wrong with the options of a request.
#[derive(Clone, Debug, PartialEq, Eq)]
pub enum OptionsFault {
    /// A dimension has to be scaled by a ratio to an original dimension
    /// that is zero.
    EmptySource,
    /// The target dimensions ask for more pixels than memory can address.
    TargetTooLarge,
    /// A password shorter than four characters was asked for.
    PasswordTooShort,
    /// A password was asked for with every character class switched off.
    NoCharacterClass,
    /// The hash algorithm of this name is not offered.
    UnsupportedAlgorithm(String),
}

/// A failure of one request. None is retried and none leaves state behind.
#[derive(Clone, Debug, PartialEq, Eq)]
pub enum Error {
    /// The path has no extension to tell the format by.
    InvalidExtension,
    /// The extension, given in lower case, names no supported format.
    UnsupportedFormat(String),
    /// The image could not be read or decoded; holds the cause.
    DecodeError(String),
    /// The image could not be encoded or written; holds the cause.
    EncodeError(String),
    /// The request's options are not acceptable.
    InvalidOptions(OptionsFault),
}

/// An [`OptionsFault`] with its text as a sequence of characters.
pub enum OptionsFaultView {
    EmptySource,
    TargetTooLarge,
    PasswordTooShort,
    NoCharacterClass,
    UnsupportedAlgorithm(Seq<char>),
}

/// An [`Error`] with its texts as sequences of characters.
pub enum ErrorView {
    InvalidExtension,
    UnsupportedFormat(Seq<char>),
    DecodeError(Seq<char>),
    EncodeError(Seq<char>),
    InvalidOptions(OptionsFaultView),
}

impl View for OptionsFault {
    type V = OptionsFaultView;

    open spec fn view(&self) -> OptionsFaultView {
        match self {
            OptionsFault::EmptySource => OptionsFaultView::EmptySource,
            OptionsFault::TargetTooLarge => OptionsFaultView::TargetTooLarge,
            OptionsFault::PasswordTooShort => OptionsFaultView::PasswordTooShort,
            OptionsFault::NoCharacterClass => OptionsFaultView::NoCharacterClass,
            OptionsFault::UnsupportedAlgorithm(name) => OptionsFaultView::UnsupportedAlgorithm(name@),
        }
    }
}

impl View for Error {
    type V = ErrorView;

    open spec fn view(&self) -> ErrorView {
        match self {
            Error::InvalidExtension => ErrorView::InvalidExtension,
            Error::UnsupportedFormat(extension) => ErrorView::UnsupportedFormat(extension@),
            Error::DecodeError(cause) => ErrorView::DecodeError(cause@),
            Error::EncodeError(cause) => ErrorView::EncodeError(cause@),
            Error::InvalidOptions(fault) => ErrorView::InvalidOptions(fault@),
        }
    }
}

impl OptionsFaultView {
    /// The text shown for this fault.
    pub open spec fn message(self) -> Seq<char> {
        match self {
            OptionsFaultView::EmptySource => "Image has a dimension of zero to scale from"@,
            OptionsFaultView::TargetTooLarge => "Target dimensions are too large to hold in memory"@,
            OptionsFaultView::PasswordTooShort => "Password length must be at least 4 characters"@,
            OptionsFaultView::NoCharacterClass => "At least one character type must be selected"@,
            OptionsFaultView::UnsupportedAlgorithm(name) => "Unsupported algorithm: "@ + name,
        }
    }
}

impl ErrorView {
    /// The text shown for this failure.
    pub open spec fn message(self) -> Seq<char> {
        match self {
            ErrorView::InvalidExtension => "Invalid file extension"@,
            ErrorView::UnsupportedFormat(extension) => "Unsupported format: "@ + extension,
            ErrorView::DecodeError(cause) => cause,
            ErrorView::EncodeError(cause) => cause,
            ErrorView::InvalidOptions(fault) => fault.message(),
        }
    }
}

impl OptionsFault {
    /// The text shown for this fault.
    pub fn message(&self) -> (text: String)
        ensures
            text@ == self@.message(),
    {
        match self {
            OptionsFault::EmptySource => String::from_str("Image has a dimension of zero to scale from"),
            OptionsFault::TargetTooLarge => String::from_str("Target dimensions are too large to hold in memory"),
            OptionsFault::PasswordTooShort => String::from_str("Password length must be at least 4 characters"),
            OptionsFault::NoCharacterClass => String::from_str("At least one character type must be selected"),
            OptionsFault::UnsupportedAlgorithm(name) => {
                String::from_str("Unsupported algorithm: ").concat(name.as_str())
            },
        }
    }
}

impl Error {
    /// The text shown for this failure.
    pub fn message(&self) -> (text: String)
        ensures
            text@ == self@.message(),
    {
        match self {
            Error::InvalidExtension => String::from_str("Invalid file extension"),
            Error::UnsupportedFormat(extension) => {
                String::from_str("Unsupported format: ").concat(extension.as_str())
            },
            Error::DecodeError(cause) => cause.clone(),
            Error::EncodeError(cause) => cause.clone(),
            Error::InvalidOptions(fault) => fault.message(),
        }
    }
}

/// The outcome of a request with its texts as sequences of characters.
pub open spec fn outcome_view<T>(outcome: Result<T, Error>) -> Result<T, ErrorView> {
    match outcome {
        Ok(value) => Ok(value),
        Err(error) => Err(error@),
    }
}

} // verus!
