//! Why a received text is not a message.

use vstd::prelude::*;

verus! {

/// The reason a received text could not be turned into a message.
#[derive(Debug, PartialEq, Eq)]
pub enum DecodeError {
    /// The received bytes are not UTF-8 text.
    InvalidUtf8,
    /// The text has none of the known message shapes; `text` is the text as
    /// it was received.
    NotUnderstood { text: String },
    /// A button event names a component code that belongs to no button.
    InvalidButtonId(u8),
    /// A button event names an action code that belongs to no action.
    InvalidButtonAction(u8),
}

/// The mathematical value of a [`DecodeError`]: the same cases, with the
/// carried text as a sequence of characters.
pub enum DecodeErrorView {
    InvalidUtf8,
    NotUnderstood { text: Seq<char> },
    InvalidButtonId(u8),
    InvalidButtonAction(u8),
}

impl View for DecodeError {
    type V = DecodeErrorView;

    open spec fn view(&self) -> DecodeErrorView {
        match *self {
            DecodeError::InvalidUtf8 => DecodeErrorView::InvalidUtf8,
            DecodeError::NotUnderstood { text } => DecodeErrorView::NotUnderstood { text: text@ },
            DecodeError::InvalidButtonId(code) => DecodeErrorView::InvalidButtonId(code),
            DecodeError::InvalidButtonAction(code) => DecodeErrorView::InvalidButtonAction(code),
        }
    }
}

} // verus!
