//! The errors of window and icon creation, and the messages they carry.

use vstd::prelude::*;
use vstd::string::StringExecFns;

verus! {

/// The last error of the operating system, as the message that the system
/// has for it; `None` where there was no error or no message.
#[derive(Debug, Clone, PartialEq, Eq)]
pub struct WinError(pub Option<String>);

/// Error that can happen while creating a window.
#[derive(Debug, Clone)]
pub enum CreationError {
    OsError(String),
}

/// The text that `{:?}` gives for a string: the string between double quotes,
/// with the characters escaped as the `Debug` impl of `str` escapes them.
pub uninterp spec fn debug_quoted(text: Seq<char>) -> Seq<char>;

/// Formats a string with `{:?}`, the `Debug` impl of `str` in the standard
/// library. The contract only names the result: it is a function of the
/// string alone.
#[verifier::external_body]
fn debug_quote(text: &str) -> (quoted: String)
    ensures
        quoted@ == debug_quoted(text@),
{
    format!("{:?}", text)
}

/// The text of an error whose message, if it has one, is already quoted.
pub open spec fn debug_layout_of(quoted: Option<Seq<char>>) -> Seq<char> {
    match quoted {
        Some(text) => "WinError(Some("@ + text + "))"@,
        None => "WinError(None)"@,
    }
}

/// Lays out the text of an error whose message, if it has one, is already
/// quoted.
pub fn debug_layout(quoted: Option<&str>) -> (text: String)
    ensures
        text@ == debug_layout_of(
            match quoted {
                Some(q) => Some(q@),
                None => None,
            },
        ),
{
    match quoted {
        Some(q) => {
            let mut text = String::from_str("WinError(Some(");
            text.append(q);
            text.append("))");
            text
        },
        None => String::from_str("WinError(None)"),
    }
}

impl Default for WinError {
    /// The error without a message.
    fn default() -> (error: WinError)
        ensures
            error.0 is None,
    {
        WinError(None)
    }
}

impl WinError {
    /// The text that `{:?}` gives for this error.
    pub open spec fn debug_text(self) -> Seq<char> {
        debug_layout_of(
            match self.0 {
                Some(message) => Some(debug_quoted(message@)),
                None => None,
            },
        )
    }

    /// The error as `{:?}` shows it: `WinError(None)`, or `WinError(Some(..))`
    /// around the quoted message.
    pub fn to_debug_string(&self) -> (text: String)
        ensures
            text@ == self.debug_text(),
    {
        match &self.0 {
            Some(message) => {
                let quoted = debug_quote(message.as_str());
                debug_layout(Some(quoted.as_str()))
            },
            None => debug_layout(None),
        }
    }
}

impl CreationError {
    /// The message of the error.
    pub open spec fn message(self) -> Seq<char> {
        match self {
            CreationError::OsError(message) => message@,
        }
    }

    /// The error for a window icon that the system did not create.
    pub fn small_icon_failed(cause: &WinError) -> (error: CreationError)
        ensures
            error.message() == "Failed to create `ICON_SMALL`: "@ + cause.debug_text(),
    {
        let mut message = String::from_str("Failed to create `ICON_SMALL`: ");
        let cause_text = cause.to_debug_string();
        message.append(cause_text.as_str());
        CreationError::OsError(message)
    }

    /// The error for a task bar icon that the system did not create.
    pub fn big_icon_failed(cause: &WinError) -> (error: CreationError)
        ensures
            error.message() == "Failed to create `ICON_BIG`: "@ + cause.debug_text(),
    {
        let mut message = String::from_str("Failed to create `ICON_BIG`: ");
        let cause_text = cause.to_debug_string();
        message.append(cause_text.as_str());
        CreationError::OsError(message)
    }

    /// The error for a window that the system did not create, with the
    /// system's own description of what went wrong.
    pub fn window_failed(os_error: &str) -> (error: CreationError)
        ensures
            error.message() == "CreateWindowEx function failed: "@ + os_error@,
    {
        let mut message = String::from_str("CreateWindowEx function failed: ");
        message.append(os_error);
        CreationError::OsError(message)
    }
}

} // verus!
