//! What can end a listing early.

use vstd::prelude::*;

verus! {

/// The call that failed.
#[derive(Clone, Copy, Debug, PartialEq, Eq, Structural)]
pub enum ErrorKind {
    /// The directory could not be opened or read on.
    Enumeration,
    /// The metadata of an entry could not be fetched.
    Metadata,
    /// The name of an entry is no valid text.
    InvalidEntryName,
    /// The metadata of an entry holds no modification time, or one that the
    /// calendar has no day for.
    Timestamp,
}

/// A failure that ends a listing, with the text to show for it.
#[derive(Debug, PartialEq, Eq)]
pub struct ListError {
    /// The call that failed.
    pub kind: ErrorKind,
    /// The text to show.
    pub message: String,
}

/// A `ListError` with its message as a sequence of characters.
pub struct ListErrorView {
    pub kind: ErrorKind,
    pub message: Seq<char>,
}

impl View for ListError {
    type V = ListErrorView;

    open spec fn view(&self) -> ListErrorView {
        ListErrorView { kind: self.kind, message: self.message@ }
    }
}

/// What stands before the raw name in the message for a name that is no
/// valid text.
pub open spec fn invalid_entry_prefix() -> Seq<char> {
    "Invalid entry: "@
}

/// The message for a modification time that no calendar day stands for.
pub open spec fn out_of_calendar_text() -> Seq<char> {
    "modification time is out of range"@
}

/// The failure of a call of kind `kind`. `detail` is what the file system
/// said of it, or the raw name where a name is no valid text: the message is
/// the detail, behind `Invalid entry: ` in the case of a name.
pub open spec fn failure_of(kind: ErrorKind, detail: Seq<char>) -> ListErrorView {
    ListErrorView {
        kind,
        message: if kind == ErrorKind::InvalidEntryName {
            invalid_entry_prefix() + detail
        } else {
            detail
        },
    }
}

/// The failure of an entry whose modification time no calendar day stands
/// for.
pub open spec fn out_of_calendar() -> ListErrorView {
    ListErrorView { kind: ErrorKind::Timestamp, message: out_of_calendar_text() }
}

impl ListError {
    /// Makes the failure of a call of kind `kind` from what is known of it.
    pub fn failure(kind: ErrorKind, detail: &str) -> (error: ListError)
        ensures
            error@ == failure_of(kind, detail@),
    {
        let message = match kind {
            ErrorKind::InvalidEntryName => {
                let mut message = String::from_str("Invalid entry: ");
                message.append(detail);
                message
            },
            _ => String::from_str(detail),
        };
        ListError { kind, message }
    }

    /// Makes the failure of an entry whose modification time no calendar day
    /// stands for.
    pub fn out_of_calendar() -> (error: ListError)
        ensures
            error@ == out_of_calendar(),
    {
        ListError {
            kind: ErrorKind::Timestamp,
            message: String::from_str("modification time is out of range"),
        }
    }
}

} // verus!
