//! What the chat-transport client needs beyond plain I/O: its error
//! record, its response envelope, and the offset that acknowledges updates.
use vstd::prelude::*;

verus! {

/// A failed HTTP exchange with the chat transport.
#[derive(Clone, Debug, PartialEq, Eq)]
pub struct HttpError {
    pub code: u16,
    pub message: String,
}

/// The envelope of every transport response.
#[derive(Clone, Debug, PartialEq, Eq)]
pub struct MethodResponse<T> {
    /// Always true
    pub ok: bool,
    pub result: T,
    pub description: Option<String>,
}

/// The error of a request that failed: the HTTP status if one came back,
/// else 500.
pub fn http_error(status: Option<u16>, message: String) -> (r: HttpError)
    ensures
        r.message == message,
        r.code == match status {
            Some(c) => c,
            None => 500u16,
        },
{
    let code = match status {
        Some(c) => c,
        None => 500,
    };
    HttpError { code, message }
}

/// The offset to ask for after update `update_id`, which acknowledges it
/// and all before it.
pub fn next_offset(update_id: u32) -> (r: i64)
    ensures
        r == update_id + 1,
{
    update_id as i64 + 1
}

} // verus!
