//! The errors an operation on a service pane can end with.

use vstd::prelude::*;

verus! {

/// The two kinds of failure.
#[derive(Clone, Copy, Debug, PartialEq, Eq, Structural)]
pub enum ErrorKind {
    /// The address given for a pane is not an absolute URL.
    InvalidUrl,
    /// A native call failed.
    NativeApi,
}

/// A failure, with the text that is handed to the caller: the parser's name
/// for what is wrong with the address, or the platform's own error text.
#[derive(Clone, Debug, PartialEq, Eq)]
pub struct ViewError {
    pub kind: ErrorKind,
    pub message: String,
}

/// A failure in specifications.
pub struct ViewErrorView {
    pub kind: ErrorKind,
    pub message: Seq<char>,
}

impl View for ViewError {
    type V = ViewErrorView;

    open spec fn view(&self) -> ViewErrorView {
        ViewErrorView { kind: self.kind, message: self.message@ }
    }
}

impl ViewError {
    /// An address that is not an absolute URL, with the parser's verdict.
    pub fn invalid_url(message: String) -> (error: ViewError)
        ensures
            error@ == (ViewErrorView { kind: ErrorKind::InvalidUrl, message: message@ }),
    {
        ViewError { kind: ErrorKind::InvalidUrl, message }
    }

    /// A native call that failed, with the platform's error text.
    pub fn native_api(message: String) -> (error: ViewError)
        ensures
            error@ == (ViewErrorView { kind: ErrorKind::NativeApi, message: message@ }),
    {
        ViewError { kind: ErrorKind::NativeApi, message }
    }

    /// A copy of this error.
    pub fn duplicate(&self) -> (error: ViewError)
        ensures
            error@ == self@,
    {
        ViewError { kind: self.kind, message: self.message.clone() }
    }

    /// The text that is handed to the caller.
    pub fn message(&self) -> (text: String)
        ensures
            text@ == self@.message,
    {
        self.message.clone()
    }
}

} // verus!
