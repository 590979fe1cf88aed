//! The dialog that collects a book: title, author, then a rating.
use vstd::prelude::*;
use vstd::string::*;
use crate::dialog::{
    DialogInput, HasDialogMessage, OutgoingMessage, StepOutput, rating_check,
    validate_rating, reply_view,
};
use crate::domain::{AddBookDialogResult, Book, BookView, opt_view};
use crate::text::{decimal, push_decimal};

verus! {

#[derive(Clone, Debug, PartialEq, Eq)]
pub enum BookState {
    Started,
    EnterTitle,
    /// (title)
    EnterAuthor(String),
    /// (title, author)
    EnterRating(String, String),
    /// (title, author, rating)
    Completed(String, String, u32),
}

#[derive(Clone, Debug, PartialEq, Eq)]
pub enum BookEvent {
    Start,
    ProvideTitle(String),
    ProvideAuthor(String),
    ProvideRating(u32),
}

/// The confirmation shown once a book is complete.
pub open spec fn book_added_text(title: Seq<char>, author: Seq<char>, rating: u32) -> Seq<char> {
    "Added book "@ + title + " by "@ + author + " with rating "@ + decimal(rating as nat)
}

impl BookState {
    /// How far along the dialog is; each accepted event moves it one on.
    pub open spec fn stage(self) -> nat {
        match self {
            BookState::Started => 0,
            BookState::EnterTitle => 1,
            BookState::EnterAuthor(_) => 2,
            BookState::EnterRating(_, _) => 3,
            BookState::Completed(_, _, _) => 4,
        }
    }

    /// The event that this state waits for has come.
    pub open spec fn accepts(self, event: BookEvent) -> bool {
        match (self, event) {
            (BookState::Started, BookEvent::Start) => true,
            (BookState::EnterTitle, BookEvent::ProvideTitle(_)) => true,
            (BookState::EnterAuthor(_), BookEvent::ProvideAuthor(_)) => true,
            (BookState::EnterRating(_, _), BookEvent::ProvideRating(_)) => true,
            _ => false,
        }
    }

    pub open spec fn is_terminal(self) -> bool {
        self is Completed
    }

    pub open spec fn spec_next(self, event: BookEvent) -> BookState {
        match (self, event) {
            (BookState::Started, BookEvent::Start) => BookState::EnterTitle,
            (BookState::EnterTitle, BookEvent::ProvideTitle(title)) => BookState::EnterAuthor(title),
            (BookState::EnterAuthor(title), BookEvent::ProvideAuthor(author)) => BookState::EnterRating(
                title,
                author,
            ),
            (BookState::EnterRating(title, author), BookEvent::ProvideRating(rating)) => BookState::Completed(
                title,
                author,
                rating,
            ),
            (state, _) => state,
        }
    }

    /// The book, once the dialog is complete.
    pub open spec fn spec_result(self) -> Option<BookView> {
        match self {
            BookState::Completed(title, author, rating) => Some(
                BookView { title: title@, author: author@, rating },
            ),
            _ => None,
        }
    }

    /// The next state; an event that this state does not wait for leaves it
    /// as it is.
    pub fn next(self, event: BookEvent) -> (r: BookState)
        ensures
            r == self.spec_next(event),
    {
        match (self, event) {
            (BookState::Started, BookEvent::Start) => BookState::EnterTitle,
            (BookState::EnterTitle, BookEvent::ProvideTitle(title)) => BookState::EnterAuthor(title),
            (BookState::EnterAuthor(title), BookEvent::ProvideAuthor(author)) => BookState::EnterRating(
                title,
                author,
            ),
            (BookState::EnterRating(title, author), BookEvent::ProvideRating(rating)) => BookState::Completed(
                title,
                author,
                rating,
            ),
            (state, _) => state,
        }
    }

    /// What a step in this state hands back: the book once complete.
    pub fn result(&self) -> (r: AddBookDialogResult)
        ensures
            opt_view(r.book) == self.spec_result(),
    {
        match self {
            BookState::Completed(title, author, rating) => AddBookDialogResult {
                book: Some(Book { title: title.clone(), author: author.clone(), rating: *rating }),
            },
            _ => AddBookDialogResult { book: None },
        }
    }
}

impl HasDialogMessage for BookState {
    open spec fn dialog_message(&self) -> Option<Seq<char>> {
        match self {
            BookState::Started => None,
            BookState::EnterTitle => Some("Enter title"@),
            BookState::EnterAuthor(_) => Some("Enter author"@),
            BookState::EnterRating(_, _) => Some("Enter rating"@),
            BookState::Completed(title, author, rating) => Some(
                book_added_text(title@, author@, *rating),
            ),
        }
    }

    fn message(&self) -> (r: Option<String>) {
        match self {
            BookState::Started => None,
            BookState::EnterTitle => Some(String::from_str("Enter title")),
            BookState::EnterAuthor(_) => Some(String::from_str("Enter author")),
            BookState::EnterRating(_, _) => Some(String::from_str("Enter rating")),
            BookState::Completed(title, author, rating) => {
                let mut m = String::from_str("Added book ");
                m.append(title.as_str());
                m.append(" by ");
                m.append(author.as_str());
                m.append(" with rating ");
                push_decimal(&mut m, *rating);
                Some(m)
            },
        }
    }
}

/// The state after one step of the worker on `input`.
pub open spec fn step_state(s: BookState, input: DialogInput) -> BookState {
    match input {
        DialogInput::Message { chat_id, text } => match s {
            BookState::Started => s.spec_next(BookEvent::Start),
            BookState::EnterTitle => match text {
                Some(t) => s.spec_next(BookEvent::ProvideTitle(t)),
                None => s,
            },
            BookState::EnterAuthor(_) => match text {
                Some(t) => s.spec_next(BookEvent::ProvideAuthor(t)),
                None => s,
            },
            BookState::EnterRating(_, _) => match text {
                Some(t) => match rating_check(t@) {
                    Ok(n) => s.spec_next(BookEvent::ProvideRating(n)),
                    Err(_) => s,
                },
                None => s,
            },
            BookState::Completed(_, _, _) => s,
        },
        DialogInput::Other => s,
    }
}

/// The reply of one step of the worker on `input`: the prompt of the state
/// it moved to, or why a rating was refused.
pub open spec fn step_reply(s: BookState, input: DialogInput) -> Option<(i64, Seq<char>)> {
    match input {
        DialogInput::Message { chat_id, text } => match s {
            BookState::Completed(_, _, _) => None,
            BookState::Started => Some((chat_id, step_state(s, input).dialog_message()->0)),
            BookState::EnterRating(_, _) => match text {
                Some(t) => match rating_check(t@) {
                    Ok(_) => Some((chat_id, step_state(s, input).dialog_message()->0)),
                    Err(why) => Some((chat_id, why)),
                },
                None => None,
            },
            _ => match text {
                Some(_) => Some((chat_id, step_state(s, input).dialog_message()->0)),
                None => None,
            },
        },
        DialogInput::Other => None,
    }
}

fn prompt_reply(chat_id: i64, state: &BookState) -> (r: Option<OutgoingMessage>)
    requires
        state.dialog_message() is Some,
    ensures
        reply_view(r) == Some((chat_id, state.dialog_message()->0)),
{
    match state.message() {
        Some(text) => Some(OutgoingMessage { chat_id, text }),
        None => None,
    }
}

/// One step of the book dialog's worker: moves the state on by what the
/// user sent, says what to reply, and hands back the book once complete. A
/// completed dialog stays as it is and hands back the same book again.
pub fn handle_update(state: &mut BookState, input: DialogInput) -> (r: StepOutput<
    AddBookDialogResult,
>)
    ensures
        *final(state) == step_state(*old(state), input),
        reply_view(r.reply) == step_reply(*old(state), input),
        opt_view(r.result.book) == final(state).spec_result(),
{
    let mut s = BookState::Started;
    std::mem::swap(state, &mut s);
    let ghost s0 = s;
    let reply = match input {
        DialogInput::Message { chat_id, text } => match s {
            BookState::Started => {
                s = s.next(BookEvent::Start);
                prompt_reply(chat_id, &s)
            },
            BookState::EnterTitle => match text {
                Some(t) => {
                    s = s.next(BookEvent::ProvideTitle(t));
                    prompt_reply(chat_id, &s)
                },
                None => None,
            },
            BookState::EnterAuthor(_) => match text {
                Some(t) => {
                    s = s.next(BookEvent::ProvideAuthor(t));
                    prompt_reply(chat_id, &s)
                },
                None => None,
            },
            BookState::EnterRating(_, _) => match text {
                Some(t) => match validate_rating(&t) {
                    Ok(rating) => {
                        s = s.next(BookEvent::ProvideRating(rating));
                        prompt_reply(chat_id, &s)
                    },
                    Err(why) => Some(OutgoingMessage { chat_id, text: String::from_str(why) }),
                },
                None => None,
            },
            BookState::Completed(_, _, _) => None,
        },
        DialogInput::Other => None,
    };
    let result = s.result();
    *state = s;
    StepOutput { reply, result }
}

} // verus!
