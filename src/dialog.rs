//! What every dialog shares: its prompts, the field validators, and the
//! shape of one worker-side step (what came in, what goes out).
use vstd::prelude::*;
use crate::text::{parse_u32, parse_u32_spec};

verus! {

/// A dialog state that may carry a text to show the user on entering it.
pub trait HasDialogMessage {
    spec fn dialog_message(&self) -> Option<Seq<char>>;

    fn message(&self) -> (r: Option<String>)
        ensures
            match r {
                Some(m) => self.dialog_message() == Some(m@),
                None => self.dialog_message() is None,
            },
    ;
}

/// A field value, or the text that explains why the input was refused.
pub open spec fn checked_view(r: Result<u32, &str>) -> Result<u32, Seq<char>> {
    match r {
        Ok(n) => Ok(n),
        Err(m) => Err(m@),
    }
}

/// A rating is a whole number from 1 to 5.
pub open spec fn rating_check(s: Seq<char>) -> Result<u32, Seq<char>> {
    match parse_u32_spec(s) {
        Some(n) => if 1 <= n <= 5 {
            Ok(n)
        } else {
            Err("Rating must be between 1 and 5"@)
        },
        None => Err("Rating must be a number"@),
    }
}

/// A year is a whole number from 1900 to 2100.
pub open spec fn year_check(s: Seq<char>) -> Result<u32, Seq<char>> {
    match parse_u32_spec(s) {
        Some(n) => if 1900 <= n <= 2100 {
            Ok(n)
        } else {
            Err("Year must be between 1900 and 2100"@)
        },
        None => Err("Year must be a number"@),
    }
}

/// Reads a rating from the user's text.
pub fn validate_rating(text: &String) -> (r: Result<u32, &'static str>)
    ensures
        checked_view(r) == rating_check(text@),
{
    match parse_u32(text.as_str()) {
        Some(rating) => {
            if rating >= 1 && rating <= 5 {
                Ok(rating)
            } else {
                Err("Rating must be between 1 and 5")
            }
        },
        None => Err("Rating must be a number"),
    }
}

/// Reads a release year from the user's text.
pub fn validate_year(text: &String) -> (r: Result<u32, &'static str>)
    ensures
        checked_view(r) == year_check(text@),
{
    match parse_u32(text.as_str()) {
        Some(year) => {
            if year >= 1900 && year <= 2100 {
                Ok(year)
            } else {
                Err("Year must be between 1900 and 2100")
            }
        },
        None => Err("Year must be a number"),
    }
}

/// What a dialog worker receives from the chat: a message (with its chat
/// and its text, if it has one), or some other kind of update.
#[derive(Clone, Debug, PartialEq, Eq)]
pub enum DialogInput {
    Message { chat_id: i64, text: Option<String> },
    Other,
}

/// A text to send to a chat.
#[derive(Clone, Debug, PartialEq, Eq)]
pub struct OutgoingMessage {
    pub chat_id: i64,
    pub text: String,
}

/// What one worker-side step produces: the reply to send, if any, and the
/// step's result.
#[derive(Clone, Debug, PartialEq, Eq)]
pub struct StepOutput<R> {
    pub reply: Option<OutgoingMessage>,
    pub result: R,
}

/// The reply as (chat, text).
pub open spec fn reply_view(o: Option<OutgoingMessage>) -> Option<(i64, Seq<char>)> {
    match o {
        Some(m) => Some((m.chat_id, m.text@)),
        None => None,
    }
}

} // verus!
