//! The outcome of reading text from the clipboard for the terminal view.

use vstd::prelude::*;

verus! {

/// Failures the terminal view reports to its owner.
#[derive(Clone, Copy, Debug, PartialEq, Eq, Structural)]
pub enum TerminalViewError {
    /// The clipboard could not be read.
    ClipboardUnavailable,
}

/// `String::from(&str)` (std's `impl From<&str> for String`): the owned string holds exactly
/// the characters of the slice it was made from.
pub assume_specification<'a>[ <String as From<&'a str>>::from ](s: &str) -> (r: String)
    ensures
        r@ == s@,
;

/// Maps a clipboard read: text found becomes a `String` to paste (converted with the
/// type's own `From` conversion, whose contract describes the string), an empty clipboard
/// pastes nothing, and any read failure is reported as `ClipboardUnavailable`.
pub fn map_clipboard_read_result<T, E>(result: Result<Option<T>, E>) -> (r: Result<
    Option<String>,
    TerminalViewError,
>) where String: From<T>
    ensures
        match result {
            Err(_) => r == Err::<Option<String>, TerminalViewError>(
                TerminalViewError::ClipboardUnavailable,
            ),
            Ok(None) => r == Ok::<Option<String>, TerminalViewError>(None),
            Ok(Some(text)) => r matches Ok(Some(s)) && call_ensures(String::from, (text,), s),
        },
{
    match result {
        Ok(Some(text)) => Ok(Some(String::from(text))),
        Ok(None) => Ok(None),
        Err(_) => Err(TerminalViewError::ClipboardUnavailable),
    }
}

/// Text read from the clipboard as a string slice is pasted unchanged.
pub proof fn lemma_clipboard_text_pasted_unchanged(text: &str, s: String)
    requires
        call_ensures(String::from, (text,), s),
    ensures
        s@ == text@,
{
}

} // verus!
