//! The ways in which a run can fail without any I/O going wrong.

use vstd::prelude::*;
use vstd::string::*;

verus! {

/// Why a run was abandoned. Every one of these ends the run: none is retried
/// and none lets the walk go on.
#[derive(Clone, Debug, PartialEq, Eq)]
pub enum Error {
    /// A category directory's name is not valid text.
    CategoryNotText,
    /// The name of a crate directory under `category` is not valid text.
    CrateNotText { category: String },
    /// The directory of `krate` under `category` holds no version directory.
    NoVersionFound { category: String, krate: String },
    /// `category` is none of the ten recognized names.
    InvalidCategory { category: String },
    /// The walk was handed an event that it was not waiting for.
    UnexpectedEvent,
}

/// An [`Error`] with its names as character sequences.
pub enum ErrorView {
    CategoryNotText,
    CrateNotText { category: Seq<char> },
    NoVersionFound { category: Seq<char>, krate: Seq<char> },
    InvalidCategory { category: Seq<char> },
    UnexpectedEvent,
}

impl View for Error {
    type V = ErrorView;

    open spec fn view(&self) -> ErrorView {
        match self {
            Error::CategoryNotText => ErrorView::CategoryNotText,
            Error::CrateNotText { category } => ErrorView::CrateNotText { category: category@ },
            Error::NoVersionFound { category, krate } => ErrorView::NoVersionFound {
                category: category@,
                krate: krate@,
            },
            Error::InvalidCategory { category } => ErrorView::InvalidCategory {
                category: category@,
            },
            Error::UnexpectedEvent => ErrorView::UnexpectedEvent,
        }
    }
}

impl ErrorView {
    /// The one-line description of the error.
    pub open spec fn message(self) -> Seq<char> {
        match self {
            ErrorView::CategoryNotText => "category name is invalid utf8"@,
            ErrorView::CrateNotText { .. } => "crate_name is invalid utf8"@,
            ErrorView::NoVersionFound { .. } => "no version found"@,
            ErrorView::InvalidCategory { category } => "invalid directory type: "@ + category,
            ErrorView::UnexpectedEvent => "event does not fit the state of the walk"@,
        }
    }
}

impl Error {
    /// The one-line description of the error.
    pub fn message(&self) -> (text: String)
        ensures
            text@ == self@.message(),
    {
        match self {
            Error::CategoryNotText => "category name is invalid utf8".to_owned(),
            Error::CrateNotText { .. } => "crate_name is invalid utf8".to_owned(),
            Error::NoVersionFound { .. } => "no version found".to_owned(),
            Error::InvalidCategory { category } => {
                let mut text = "invalid directory type: ".to_owned();
                text.append(category.as_str());
                text
            },
            Error::UnexpectedEvent => "event does not fit the state of the walk".to_owned(),
        }
    }
}

} // verus!
