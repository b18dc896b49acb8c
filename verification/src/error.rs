//! The failures of a clone, and the text under which the host sees them.

use vstd::prelude::*;
use vstd::string::*;

verus! {

/// An error that the operating system reported, held as plain values.
#[derive(Debug, PartialEq, Eq)]
pub struct OsError {
    /// The `errno` value, where the error came with one.
    pub code: Option<i32>,
    /// The platform's rendering of the error.
    pub text: String,
}

/// What an [`OsError`] stands for.
pub struct OsErrorView {
    pub code: Option<i32>,
    pub text: Seq<char>,
}

impl View for OsError {
    type V = OsErrorView;

    open spec fn view(&self) -> OsErrorView {
        OsErrorView { code: self.code, text: self.text@ }
    }
}

/// Why a clone did not happen.
#[derive(Debug, PartialEq, Eq)]
pub enum CopyError {
    /// Both files were opened and the kernel refused the clone.
    IoctlError(OsError),
    /// The file at the given path could not be opened.
    FileOpenError(String, OsError),
}

/// What a [`CopyError`] stands for.
pub enum CopyErrorView {
    IoctlError(OsErrorView),
    FileOpenError(Seq<char>, OsErrorView),
}

impl View for CopyError {
    type V = CopyErrorView;

    open spec fn view(&self) -> CopyErrorView {
        match self {
            CopyError::IoctlError(why) => CopyErrorView::IoctlError(why@),
            CopyError::FileOpenError(path, why) => CopyErrorView::FileOpenError(path@, why@),
        }
    }
}

impl CopyErrorView {
    /// The display form of the error: a fixed lead, the path where one is
    /// at fault, and the rendering of the operating system's error.
    pub open spec fn message(self) -> Seq<char> {
        match self {
            CopyErrorView::IoctlError(why) => "ioctl error: "@ + why.text,
            CopyErrorView::FileOpenError(path, why) => "error opening file `"@ + path + "`: "@
                + why.text,
        }
    }
}

impl CopyError {
    /// The display form of the error, which the host receives verbatim as
    /// the message of its exception.
    pub fn message(&self) -> (text: String)
        ensures
            text@ == self@.message(),
    {
        match self {
            CopyError::IoctlError(why) => {
                let mut text = String::from_str("ioctl error: ");
                text.append(why.text.as_str());
                text
            },
            CopyError::FileOpenError(path, why) => {
                let mut text = String::from_str("error opening file `");
                text.append(path.as_str());
                text.append("`: ");
                text.append(why.text.as_str());
                text
            },
        }
    }
}

} // verus!
