//! The three dialogs as one state machine, tagged by dialog type, and the
//! laws that every dialog obeys.
use vstd::prelude::*;
use crate::book::{self, BookEvent, BookState};
use crate::dialog::{DialogInput, HasDialogMessage, rating_check, year_check};
use crate::domain::{BookView, DialogType, MovieView, QuoteView};
use crate::movie::{self, MovieEvent, MovieState};
use crate::quote::{self, QuoteEvent, QuoteState};

verus! {

#[derive(Clone, Debug, PartialEq, Eq)]
pub enum DialogState {
    Book(BookState),
    Movie(MovieState),
    Quote(QuoteState),
}

#[derive(Clone, Debug, PartialEq, Eq)]
pub enum DialogEvent {
    Book(BookEvent),
    Movie(MovieEvent),
    Quote(QuoteEvent),
}

pub ghost enum DialogResultView {
    Book(BookView),
    Movie(MovieView),
    Quote(QuoteView),
}

impl DialogState {
    pub open spec fn dialog_type(self) -> DialogType {
        match self {
            DialogState::Book(_) => DialogType::AddBook,
            DialogState::Movie(_) => DialogType::AddMovie,
            DialogState::Quote(_) => DialogType::AddQuote,
        }
    }

    pub open spec fn stage(self) -> nat {
        match self {
            DialogState::Book(s) => s.stage(),
            DialogState::Movie(s) => s.stage(),
            DialogState::Quote(s) => s.stage(),
        }
    }

    pub open spec fn accepts(self, event: DialogEvent) -> bool {
        match (self, event) {
            (DialogState::Book(s), DialogEvent::Book(e)) => s.accepts(e),
            (DialogState::Movie(s), DialogEvent::Movie(e)) => s.accepts(e),
            (DialogState::Quote(s), DialogEvent::Quote(e)) => s.accepts(e),
            _ => false,
        }
    }

    pub open spec fn is_terminal(self) -> bool {
        match self {
            DialogState::Book(s) => s.is_terminal(),
            DialogState::Movie(s) => s.is_terminal(),
            DialogState::Quote(s) => s.is_terminal(),
        }
    }

    pub open spec fn spec_transition(self, event: DialogEvent) -> DialogState {
        match (self, event) {
            (DialogState::Book(s), DialogEvent::Book(e)) => DialogState::Book(s.spec_next(e)),
            (DialogState::Movie(s), DialogEvent::Movie(e)) => DialogState::Movie(s.spec_next(e)),
            (DialogState::Quote(s), DialogEvent::Quote(e)) => DialogState::Quote(s.spec_next(e)),
            (state, _) => state,
        }
    }

    pub open spec fn spec_prompt(self) -> Option<Seq<char>> {
        match self {
            DialogState::Book(s) => s.dialog_message(),
            DialogState::Movie(s) => s.dialog_message(),
            DialogState::Quote(s) => s.dialog_message(),
        }
    }

    /// The committed payload, once the dialog has reached its final state.
    pub open spec fn terminal_result(self) -> Option<DialogResultView> {
        match self {
            DialogState::Book(s) => match s.spec_result() {
                Some(b) => Some(DialogResultView::Book(b)),
                None => None,
            },
            DialogState::Movie(s) => match s.spec_result() {
                Some(m) => Some(DialogResultView::Movie(m)),
                None => None,
            },
            DialogState::Quote(s) => match s.spec_result() {
                Some(q) => Some(DialogResultView::Quote(q)),
                None => None,
            },
        }
    }

    /// The state a new dialog of the given type starts in.
    pub fn initial(t: DialogType) -> (r: DialogState)
        ensures
            r.dialog_type() == t,
            r.stage() == 0,
    {
        match t {
            DialogType::AddBook => DialogState::Book(BookState::Started),
            DialogType::AddMovie => DialogState::Movie(MovieState::Started),
            DialogType::AddQuote => DialogState::Quote(QuoteState::Started),
        }
    }

    /// The next state: an event of another dialog type, or one that the
    /// state does not wait for, leaves the state as it is.
    pub fn transition(self, event: DialogEvent) -> (r: DialogState)
        ensures
            r == self.spec_transition(event),
    {
        match (self, event) {
            (DialogState::Book(s), DialogEvent::Book(e)) => DialogState::Book(s.next(e)),
            (DialogState::Movie(s), DialogEvent::Movie(e)) => DialogState::Movie(s.next(e)),
            (DialogState::Quote(s), DialogEvent::Quote(e)) => DialogState::Quote(s.next(e)),
            (state, _) => state,
        }
    }

    /// The text to show on entering this state, if any.
    pub fn prompt(&self) -> (r: Option<String>)
        ensures
            match r {
                Some(m) => self.spec_prompt() == Some(m@),
                None => self.spec_prompt() is None,
            },
    {
        match self {
            DialogState::Book(s) => s.message(),
            DialogState::Movie(s) => s.message(),
            DialogState::Quote(s) => s.message(),
        }
    }
}

/// `transition` is total: an event that the state waits for moves the
/// dialog exactly one stage on, within the same dialog type, and any other
/// event leaves the state unchanged.
pub proof fn lemma_transition_total(s: DialogState, e: DialogEvent)
    ensures
        s.accepts(e) ==> s.spec_transition(e).stage() == s.stage() + 1,
        !s.accepts(e) ==> s.spec_transition(e) == s,
        s.spec_transition(e).dialog_type() == s.dialog_type(),
{
}

/// A dialog in its final state stays there, whatever event comes, and keeps
/// its result.
pub proof fn lemma_terminal_idempotent(s: DialogState, e: DialogEvent)
    requires
        s.is_terminal(),
    ensures
        s.spec_transition(e) == s,
        s.spec_transition(e).terminal_result() == s.terminal_result(),
        s.terminal_result() is Some,
{
}

/// A dialog has a result exactly when it is in its final state.
pub proof fn lemma_result_iff_terminal(s: DialogState)
    ensures
        s.terminal_result() is Some <==> s.is_terminal(),
{
}

/// Running a dialog worker's step again on a completed dialog (a redelivered
/// event) changes nothing, sends nothing and hands back the same result.
pub proof fn lemma_completed_step_idempotent(
    b: BookState,
    m: MovieState,
    q: QuoteState,
    input: DialogInput,
)
    ensures
        b.is_terminal() ==> book::step_state(b, input) == b && book::step_reply(b, input) is None,
        m.is_terminal() ==> movie::step_state(m, input) == m && movie::step_reply(m, input) is None,
        q.is_terminal() ==> quote::step_state(q, input) == q && quote::step_reply(q, input) is None,
{
}

/// A refused rating or year leaves the dialog where it was and answers with
/// the reason; an accepted one moves the dialog on.
pub proof fn lemma_validation_boundary(b: BookState, m: MovieState, chat_id: i64, t: String)
    ensures
        b is EnterRating ==> {
            let input = DialogInput::Message { chat_id, text: Some(t) };
            match rating_check(t@) {
                Err(why) => book::step_state(b, input) == b && book::step_reply(b, input) == Some(
                    (chat_id, why),
                ),
                Ok(n) => 1 <= n <= 5 && book::step_state(b, input).stage() == b.stage() + 1,
            }
        },
        m is EnterYear ==> {
            let input = DialogInput::Message { chat_id, text: Some(t) };
            match year_check(t@) {
                Err(why) => movie::step_state(m, input) == m && movie::step_reply(m, input) == Some(
                    (chat_id, why),
                ),
                Ok(n) => 1900 <= n <= 2100 && movie::step_state(m, input).stage() == m.stage() + 1,
            }
        },
        m is EnterRating ==> {
            let input = DialogInput::Message { chat_id, text: Some(t) };
            match rating_check(t@) {
                Err(why) => movie::step_state(m, input) == m && movie::step_reply(m, input) == Some(
                    (chat_id, why),
                ),
                Ok(n) => 1 <= n <= 5 && movie::step_state(m, input).stage() == m.stage() + 1,
            }
        },
{
}

} // verus!
