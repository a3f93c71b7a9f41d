//! The error taxonomy of the bridge operations.
//!
//! Every failure a bridge operation reports is one of two kinds: the user
//! dismissed a file dialog without a selection (expected, non-exceptional),
//! or the host runtime or filesystem refused the request, in which case the
//! underlying message is passed through verbatim.

use vstd::prelude::*;

verus! {

/// A bridge operation's failure: either the user cancelled a dialog, or the
/// host runtime / filesystem failed with the message it gave.
#[derive(Debug)]
pub enum BridgeError {
    Cancelled,
    Host(String),
}

/// The mathematical image of a [`BridgeError`]: the host message as a
/// sequence of characters.
pub enum ErrorView {
    Cancelled,
    Host(Seq<char>),
}

impl View for BridgeError {
    type V = ErrorView;

    open spec fn view(&self) -> ErrorView {
        match self {
            BridgeError::Cancelled => ErrorView::Cancelled,
            BridgeError::Host(m) => ErrorView::Host(m@),
        }
    }
}

/// The text a caller sees for an error: a fixed phrase for cancellation, the
/// host's own message otherwise.
pub open spec fn error_text(e: ErrorView) -> Seq<char> {
    match e {
        ErrorView::Cancelled => "user cancelled"@,
        ErrorView::Host(m) => m,
    }
}

/// The image of a host acceptance result whose failure message is text, as
/// the filesystem write and the notification service report one.
pub open spec fn unit_result_view(r: Result<(), String>) -> Result<(), Seq<char>> {
    match r {
        Ok(u) => Ok(u),
        Err(m) => Err(m@),
    }
}

impl BridgeError {
    /// True exactly on the user-cancelled kind.
    pub fn is_cancelled(&self) -> (r: bool)
        ensures
            r == (self@ is Cancelled),
    {
        match self {
            BridgeError::Cancelled => true,
            BridgeError::Host(_) => false,
        }
    }

    /// The error as the text handed to the front end.
    pub fn message(&self) -> (r: String)
        ensures
            r@ == error_text(self@),
    {
        match self {
            BridgeError::Cancelled => "user cancelled".to_owned(),
            BridgeError::Host(m) => m.clone(),
        }
    }
}

} // verus!
