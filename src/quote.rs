//! The dialog that collects a quote: its text, the title it is from, then
//! the author.
use vstd::prelude::*;
use vstd::string::*;
use crate::dialog::{
    DialogInput, HasDialogMessage, OutgoingMessage, StepOutput, reply_view,
};
use crate::domain::{AddQuoteDialogResult, Quote, QuoteView, opt_view};

verus! {

#[derive(Clone, Debug, PartialEq, Eq)]
pub enum QuoteState {
    Started,
    EnterText,
    /// (text)
    EnterTitle(String),
    /// (text, title)
    EnterAuthor(String, String),
    /// (text, title, author)
    Completed(String, String, String),
}

#[derive(Clone, Debug, PartialEq, Eq)]
pub enum QuoteEvent {
    Start,
    ProvideText(String),
    ProvideTitle(String),
    ProvideAuthor(String),
}

/// The confirmation shown once a quote is complete.
pub open spec fn quote_added_text(text: Seq<char>, title: Seq<char>, author: Seq<char>) -> Seq<char> {
    "Added quote: \""@ + text + "\" from "@ + title + " by "@ + author
}

impl QuoteState {
    /// How far along the dialog is; each accepted event moves it one on.
    pub open spec fn stage(self) -> nat {
        match self {
            QuoteState::Started => 0,
            QuoteState::EnterText => 1,
            QuoteState::EnterTitle(_) => 2,
            QuoteState::EnterAuthor(_, _) => 3,
            QuoteState::Completed(_, _, _) => 4,
        }
    }

    /// The event that this state waits for has come.
    pub open spec fn accepts(self, event: QuoteEvent) -> bool {
        match (self, event) {
            (QuoteState::Started, QuoteEvent::Start) => true,
            (QuoteState::EnterText, QuoteEvent::ProvideText(_)) => true,
            (QuoteState::EnterTitle(_), QuoteEvent::ProvideTitle(_)) => true,
            (QuoteState::EnterAuthor(_, _), QuoteEvent::ProvideAuthor(_)) => true,
            _ => false,
        }
    }

    pub open spec fn is_terminal(self) -> bool {
        self is Completed
    }

    pub open spec fn spec_next(self, event: QuoteEvent) -> QuoteState {
        match (self, event) {
            (QuoteState::Started, QuoteEvent::Start) => QuoteState::EnterText,
            (QuoteState::EnterText, QuoteEvent::ProvideText(text)) => QuoteState::EnterTitle(text),
            (QuoteState::EnterTitle(text), QuoteEvent::ProvideTitle(title)) => QuoteState::EnterAuthor(
                text,
                title,
            ),
            (QuoteState::EnterAuthor(text, title), QuoteEvent::ProvideAuthor(author)) => QuoteState::Completed(
                text,
                title,
                author,
            ),
            (state, _) => state,
        }
    }

    /// The quote, once the dialog is complete.
    pub open spec fn spec_result(self) -> Option<QuoteView> {
        match self {
            QuoteState::Completed(text, title, author) => Some(
                QuoteView { text: text@, title: title@, author: author@ },
            ),
            _ => None,
        }
    }

    /// The next state; an event that this state does not wait for leaves it
    /// as it is.
    pub fn next(self, event: QuoteEvent) -> (r: QuoteState)
        ensures
            r == self.spec_next(event),
    {
        match (self, event) {
            (QuoteState::Started, QuoteEvent::Start) => QuoteState::EnterText,
            (QuoteState::EnterText, QuoteEvent::ProvideText(text)) => QuoteState::EnterTitle(text),
            (QuoteState::EnterTitle(text), QuoteEvent::ProvideTitle(title)) => QuoteState::EnterAuthor(
                text,
                title,
            ),
            (QuoteState::EnterAuthor(text, title), QuoteEvent::ProvideAuthor(author)) => QuoteState::Completed(
                text,
                title,
                author,
            ),
            (state, _) => state,
        }
    }

    /// What a step in this state hands back: the quote once complete.
    pub fn result(&self) -> (r: AddQuoteDialogResult)
        ensures
            opt_view(r.quote) == self.spec_result(),
    {
        match self {
            QuoteState::Completed(text, title, author) => AddQuoteDialogResult {
                quote: Some(
                    Quote { text: text.clone(), title: title.clone(), author: author.clone() },
                ),
            },
            _ => AddQuoteDialogResult { quote: None },
        }
    }
}

impl HasDialogMessage for QuoteState {
    open spec fn dialog_message(&self) -> Option<Seq<char>> {
        match self {
            QuoteState::Started => None,
            QuoteState::EnterText => Some("Enter text"@),
            QuoteState::EnterTitle(_) => Some("Enter title"@),
            QuoteState::EnterAuthor(_, _) => Some("Enter author"@),
            QuoteState::Completed(text, title, author) => Some(
                quote_added_text(text@, title@, author@),
            ),
        }
    }

    fn message(&self) -> (r: Option<String>) {
        match self {
            QuoteState::Started => None,
            QuoteState::EnterText => Some(String::from_str("Enter text")),
            QuoteState::EnterTitle(_) => Some(String::from_str("Enter title")),
            QuoteState::EnterAuthor(_, _) => Some(String::from_str("Enter author")),
            QuoteState::Completed(text, title, author) => {
                let mut m = String::from_str("Added quote: \"");
                m.append(text.as_str());
                m.append("\" from ");
                m.append(title.as_str());
                m.append(" by ");
                m.append(author.as_str());
                Some(m)
            },
        }
    }
}

/// The state after one step of the worker on `input`.
pub open spec fn step_state(s: QuoteState, input: DialogInput) -> QuoteState {
    match input {
        DialogInput::Message { chat_id, text } => match s {
            QuoteState::Started => s.spec_next(QuoteEvent::Start),
            QuoteState::EnterText => match text {
                Some(t) => s.spec_next(QuoteEvent::ProvideText(t)),
                None => s,
            },
            QuoteState::EnterTitle(_) => match text {
                Some(t) => s.spec_next(QuoteEvent::ProvideTitle(t)),
                None => s,
            },
            QuoteState::EnterAuthor(_, _) => match text {
                Some(t) => s.spec_next(QuoteEvent::ProvideAuthor(t)),
                None => s,
            },
            QuoteState::Completed(_, _, _) => s,
        },
        DialogInput::Other => s,
    }
}

/// The reply of one step of the worker on `input`: the prompt of the state
/// it moved to.
pub open spec fn step_reply(s: QuoteState, input: DialogInput) -> Option<(i64, Seq<char>)> {
    match input {
        DialogInput::Message { chat_id, text } => match s {
            QuoteState::Completed(_, _, _) => None,
            QuoteState::Started => Some((chat_id, step_state(s, input).dialog_message()->0)),
            _ => match text {
                Some(_) => Some((chat_id, step_state(s, input).dialog_message()->0)),
                None => None,
            },
        },
        DialogInput::Other => None,
    }
}

fn prompt_reply(chat_id: i64, state: &QuoteState) -> (r: Option<OutgoingMessage>)
    requires
        state.dialog_message() is Some,
    ensures
        reply_view(r) == Some((chat_id, state.dialog_message()->0)),
{
    match state.message() {
        Some(text) => Some(OutgoingMessage { chat_id, text }),
        None => None,
    }
}

/// One step of the quote dialog's worker: moves the state on by what the
/// user sent, says what to reply, and hands back the quote once complete. A
/// completed dialog stays as it is and hands back the same quote again.
pub fn handle_update(state: &mut QuoteState, input: DialogInput) -> (r: StepOutput<
    AddQuoteDialogResult,
>)
    ensures
        *final(state) == step_state(*old(state), input),
        reply_view(r.reply) == step_reply(*old(state), input),
        opt_view(r.result.quote) == final(state).spec_result(),
{
    let mut s = QuoteState::Started;
    std::mem::swap(state, &mut s);
    let ghost s0 = s;
    let reply = match input {
        DialogInput::Message { chat_id, text } => match s {
            QuoteState::Started => {
                s = s.next(QuoteEvent::Start);
                prompt_reply(chat_id, &s)
            },
            QuoteState::EnterText => match text {
                Some(t) => {
                    s = s.next(QuoteEvent::ProvideText(t));
                    prompt_reply(chat_id, &s)
                },
                None => None,
            },
            QuoteState::EnterTitle(_) => match text {
                Some(t) => {
                    s = s.next(QuoteEvent::ProvideTitle(t));
                    prompt_reply(chat_id, &s)
                },
                None => None,
            },
            QuoteState::EnterAuthor(_, _) => match text {
                Some(t) => {
                    s = s.next(QuoteEvent::ProvideAuthor(t));
                    prompt_reply(chat_id, &s)
                },
                None => None,
            },
            QuoteState::Completed(_, _, _) => None,
        },
        DialogInput::Other => None,
    };
    let result = s.result();
    *state = s;
    StepOutput { reply, result }
}

} // verus!
