//! The ways in which a capture can fail.

use vstd::prelude::*;

verus! {

/// Why no geometry could be produced. Cancelling a selection is no failure
/// and has no place here.
#[derive(Debug, PartialEq, Eq)]
pub enum SelectionError {
    /// A query to the compositor could not be made, ended badly, or its
    /// reply could not be read. The text is the caller's account of it.
    Query(String),
    /// The selector could not be started, fed or waited for.
    Spawn(String),
    /// No window has the chosen address any more.
    Resolution(String),
    /// The selector's output is no UTF-8 text.
    Decode,
    /// No monitor lies under the pointer.
    NoMonitor,
}

/// The mathematical value of a [`SelectionError`].
pub enum ErrorView {
    Query(Seq<char>),
    Spawn(Seq<char>),
    Resolution(Seq<char>),
    Decode,
    NoMonitor,
}

impl View for SelectionError {
    type V = ErrorView;

    open spec fn view(&self) -> ErrorView {
        match self {
            SelectionError::Query(detail) => ErrorView::Query(detail@),
            SelectionError::Spawn(detail) => ErrorView::Spawn(detail@),
            SelectionError::Resolution(address) => ErrorView::Resolution(address@),
            SelectionError::Decode => ErrorView::Decode,
            SelectionError::NoMonitor => ErrorView::NoMonitor,
        }
    }
}

/// What [`SelectionError::message`] says of a failure.
pub open spec fn message_text(error: ErrorView) -> Seq<char> {
    match error {
        ErrorView::Query(detail) => detail,
        ErrorView::Spawn(detail) => detail,
        ErrorView::Resolution(address) => "Could not find window with address "@ + address
            + " after selection"@,
        ErrorView::Decode => "The selector's output is not valid UTF-8."@,
        ErrorView::NoMonitor => "Could not find a monitor under the cursor."@,
    }
}

impl SelectionError {
    /// A sentence for the user.
    pub fn message(&self) -> (text: String)
        ensures
            text@ == message_text(self@),
    {
        match self {
            SelectionError::Query(detail) => detail.clone(),
            SelectionError::Spawn(detail) => detail.clone(),
            SelectionError::Resolution(address) => {
                let mut text = String::from_str("Could not find window with address ");
                text.append(address.as_str());
                text.append(" after selection");
                text
            },
            SelectionError::Decode => String::from_str("The selector's output is not valid UTF-8."),
            SelectionError::NoMonitor => String::from_str(
                "Could not find a monitor under the cursor.",
            ),
        }
    }
}

} // verus!
