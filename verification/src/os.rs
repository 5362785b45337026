//! Error texts that only the operating system can give.
use crate::error::{outcome, TlsError, TlsErrorView};
use vstd::prelude::*;

verus! {

/// `text` is how a system describes the error `code`.
///
/// A relation, not a function: the description depends on the system and on
/// the language that it is set to.
pub uninterp spec fn describes(code: i32, text: Seq<char>) -> bool;

/// Calls `std::io::Error::from_raw_os_error` and takes the error's text.
///
/// Nothing is claimed of what the text says, which depends on the system; only
/// that it is the description of this very code.
#[verifier::external_body]
fn os_error_text(code: i32) -> (text: String)
    ensures
        describes(code, text@),
{
    std::io::Error::from_raw_os_error(code).to_string()
}

/// `text` is how a system described the last error of the thread that asked.
///
/// A property, not a value: which text it is depends on the calls that the thread made
/// to the system before it asked.
pub uninterp spec fn describes_last_error(text: Seq<char>) -> bool;

/// Calls `std::io::Error::last_os_error` and takes the error's text.
///
/// Nothing is claimed of what the text says, which depends on the last call that the
/// thread made to the system; only that the system gave it for the last error.
#[verifier::external_body]
fn last_os_error_text() -> (text: String)
    ensures
        describes_last_error(text@),
{
    std::io::Error::last_os_error().to_string()
}

/// Which text of the system an error quotes.
#[derive(Debug, Clone, Copy, PartialEq, Eq, Structural)]
pub enum TextSource {
    /// None.
    Nothing,
    /// The description of the last error of the calling thread.
    LastError,
    /// The description of an error code.
    Code(i32),
}

/// Fetches the text that an error quotes; the empty text where it quotes none.
pub fn system_text(source: TextSource) -> (text: String)
    ensures
        source is Nothing ==> text@ == Seq::<char>::empty(),
        source is LastError ==> describes_last_error(text@),
        source matches TextSource::Code(code) ==> describes(code, text@),
{
    match source {
        TextSource::Nothing => String::new(),
        TextSource::LastError => last_os_error_text(),
        TextSource::Code(code) => os_error_text(code),
    }
}

/// What a call to the system came to: its value, or, where it gave none, the
/// description of the last error.
pub open spec fn or_last_error<T>(call: Option<T>, last_error: Seq<char>) -> Result<
    T,
    TlsErrorView,
> {
    match call {
        Some(value) => Ok(value),
        None => Err(TlsErrorView::General(last_error)),
    }
}

/// Turns a call that gave no value into the error that the system describes.
pub fn call_with_last_error<T>(call: Option<T>, last_error: String) -> (result: Result<
    T,
    TlsError,
>)
    ensures
        outcome(result) == or_last_error(call, last_error@),
        match call {
            Some(value) => result == Ok::<T, TlsError>(value),
            None => result == Err::<T, TlsError>(TlsError::General(last_error)),
        },
{
    match call {
        Some(value) => Ok(value),
        None => Err(TlsError::General(last_error)),
    }
}

/// A call that gave a value keeps it, and one that gave none becomes exactly the error
/// that quotes the system.
pub proof fn law_last_error_is_quoted_iff_no_value<T>(call: Option<T>, last_error: Seq<char>)
    ensures
        match (call, or_last_error(call, last_error)) {
            (Some(value), Ok(kept)) => value == kept,
            (None, Err(TlsErrorView::General(text))) => text == last_error,
            _ => false,
        },
{
}

} // verus!
