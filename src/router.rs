//! The session router: which user is in which dialog, what each user has
//! collected, and what to do about each chat event or worker outcome.
//!
//! The router performs no I/O. Each function changes the router state and
//! hands back the actions (messages to send, workers to create, step or
//! delete) for the caller to carry out; the outcome of a worker call comes
//! back through `create_dialog` or the `add_*_dialog_step` functions.
use vstd::prelude::*;
use vstd::string::*;
use std::collections::HashMap;
use crate::dialog::OutgoingMessage;
use crate::domain::{
    AddBookDialogResult, AddMovieDialogResult, AddQuoteDialogResult, Book, Dialog, DialogType,
    DialogView, Movie, Quote, ResultCaseInsensitive,
};
use crate::commands::{
    Command, books_text, command_spec, help, help_text, list_books, list_movies, list_quotes,
    movies_text, parse_command, quotes_text,
};
use crate::text::{has_prefix, starts_with};
use crate::workers::{WorkerError, new_worker_id};

verus! {

broadcast use vstd::std_specs::hash::group_hash_axioms;

/// What the caller is asked to do.
#[derive(Debug, PartialEq, Eq)]
pub enum Action {
    /// Send a text to a chat.
    Send(OutgoingMessage),
    /// Create a worker for a new dialog of this user, then report the
    /// outcome through `create_dialog`.
    CreateWorker { user_id: u64, dialog_type: DialogType, dialog_id: String },
    /// Obtain a credential and run the dialog's step on the current update,
    /// then report the outcome through the `add_*_dialog_step` function of
    /// the dialog's type.
    InvokeStep { user_id: u64, dialog: Dialog },
    /// Delete the dialog's worker; a failure is only logged.
    DeleteWorker(Dialog),
}

pub ghost enum ActionView {
    Send { chat_id: i64, text: Seq<char> },
    CreateWorker { user_id: u64, dialog_type: DialogType, dialog_id: Seq<char> },
    InvokeStep { user_id: u64, dialog: DialogView },
    DeleteWorker { dialog: DialogView },
}

impl View for Action {
    type V = ActionView;

    open spec fn view(&self) -> ActionView {
        match self {
            Action::Send(m) => ActionView::Send { chat_id: m.chat_id, text: m.text@ },
            Action::CreateWorker { user_id, dialog_type, dialog_id } => ActionView::CreateWorker {
                user_id: *user_id,
                dialog_type: *dialog_type,
                dialog_id: dialog_id@,
            },
            Action::InvokeStep { user_id, dialog } => ActionView::InvokeStep {
                user_id: *user_id,
                dialog: dialog@,
            },
            Action::DeleteWorker(d) => ActionView::DeleteWorker { dialog: d@ },
        }
    }
}

pub open spec fn actions_view(v: Seq<Action>) -> Seq<ActionView> {
    v.map_values(|a: Action| a@)
}

/// Why a dialog could not be started or moved on.
#[derive(Debug, PartialEq, Eq)]
pub enum DialogError {
    /// The worker call failed; the user's session, if any, is kept.
    Worker(WorkerError),
    /// The dialog's step itself reported an error.
    Step(String),
}

/// Everything the router owns: the active dialog of each user, and the
/// records each user has collected, in the order they were completed.
pub struct State {
    pub dialogs: HashMap<u64, Dialog>,
    pub books: HashMap<u64, Vec<Book>>,
    pub movies: HashMap<u64, Vec<Movie>>,
    pub quotes: HashMap<u64, Vec<Quote>>,
}

/// The records of one user; none before the first.
pub open spec fn records<T>(m: Map<u64, Vec<T>>, user_id: u64) -> Seq<T> {
    if m.contains_key(user_id) {
        m[user_id]@
    } else {
        Seq::empty()
    }
}

/// `after` is `before` with `item` appended to the records of `user_id`.
pub open spec fn appended<T>(
    before: Map<u64, Vec<T>>,
    after: Map<u64, Vec<T>>,
    user_id: u64,
    item: T,
) -> bool {
    &&& after.dom() == before.dom().insert(user_id)
    &&& records(after, user_id) == records(before, user_id).push(item)
    &&& forall|k: u64| k != user_id ==> records(after, k) == records(before, k)
    &&& forall|k: u64| k != user_id && #[trigger] before.contains_key(k) ==> after[k] == before[k]
}

impl State {
    pub open spec fn collections_unchanged(&self, other: &State) -> bool {
        &&& self.books@ == other.books@
        &&& self.movies@ == other.movies@
        &&& self.quotes@ == other.quotes@
    }

    pub fn new() -> (r: State)
        ensures
            r.dialogs@ == Map::<u64, Dialog>::empty(),
            r.books@ == Map::<u64, Vec<Book>>::empty(),
            r.movies@ == Map::<u64, Vec<Movie>>::empty(),
            r.quotes@ == Map::<u64, Vec<Quote>>::empty(),
    {
        State {
            dialogs: HashMap::new(),
            books: HashMap::new(),
            movies: HashMap::new(),
            quotes: HashMap::new(),
        }
    }

    /// The active dialog of a user, if any.
    pub fn session(&self, user_id: u64) -> (r: Option<Dialog>)
        ensures
            match r {
                Some(d) => self.dialogs@.contains_key(user_id) && d@ == self.dialogs@[user_id]@,
                None => !self.dialogs@.contains_key(user_id),
            },
    {
        match self.dialogs.get(&user_id) {
            Some(d) => Some(d.duplicate()),
            None => None,
        }
    }
}

impl Dialog {
    /// A copy of this handle.
    pub fn duplicate(&self) -> (r: Dialog)
        ensures
            r@ == self@,
    {
        Dialog { dialog_type: self.dialog_type, dialog_id: self.dialog_id.clone() }
    }
}

/// A finished dialog's record, by dialog type.
#[derive(Debug, PartialEq, Eq)]
pub enum Record {
    Book(Book),
    Movie(Movie),
    Quote(Quote),
}

/// Appends a record to the user's collection of its type, creating the
/// collection on first use; nothing else changes. There is no
/// deduplication: the same record committed twice is there twice.
pub fn commit(state: &mut State, user_id: u64, record: Record)
    ensures
        final(state).dialogs@ == old(state).dialogs@,
        match record {
            Record::Book(b) => {
                &&& appended(old(state).books@, final(state).books@, user_id, b)
                &&& final(state).movies@ == old(state).movies@
                &&& final(state).quotes@ == old(state).quotes@
            },
            Record::Movie(m) => {
                &&& appended(old(state).movies@, final(state).movies@, user_id, m)
                &&& final(state).books@ == old(state).books@
                &&& final(state).quotes@ == old(state).quotes@
            },
            Record::Quote(q) => {
                &&& appended(old(state).quotes@, final(state).quotes@, user_id, q)
                &&& final(state).books@ == old(state).books@
                &&& final(state).movies@ == old(state).movies@
            },
        },
{
    match record {
        Record::Book(b) => push_record(&mut state.books, user_id, b),
        Record::Movie(m) => push_record(&mut state.movies, user_id, m),
        Record::Quote(q) => push_record(&mut state.quotes, user_id, q),
    }
}

fn push_record<T>(m: &mut HashMap<u64, Vec<T>>, user_id: u64, item: T)
    ensures
        appended(old(m)@, final(m)@, user_id, item),
{
    let mut list = match m.remove(&user_id) {
        Some(list) => list,
        None => Vec::new(),
    };
    assert(list@ == records(old(m)@, user_id));
    list.push(item);
    m.insert(user_id, list);
    assert(m@.dom() =~= old(m)@.dom().insert(user_id));
    assert forall|k: u64| k != user_id implies records(m@, k) == records(old(m)@, k) by {
        assert(m@.contains_key(k) == old(m)@.contains_key(k));
    }
}

/// Ends a user's dialog: the session goes, and the worker is to be deleted.
pub fn dispose_dialog(state: &mut State, user_id: u64, dialog: Dialog) -> (r: Action)
    ensures
        final(state).dialogs@ == old(state).dialogs@.remove(user_id),
        final(state).collections_unchanged(old(state)),
        r@ == (ActionView::DeleteWorker { dialog: dialog@ }),
{
    state.dialogs.remove(&user_id);
    Action::DeleteWorker(dialog)
}

/// Takes in the outcome of creating a dialog's worker. Only a created
/// worker gets a session; the dialog's first step is then to be run.
pub fn create_dialog(
    state: &mut State,
    user_id: u64,
    dialog_type: DialogType,
    dialog_id: String,
    created: Result<(), WorkerError>,
) -> (r: Result<Action, DialogError>)
    ensures
        final(state).collections_unchanged(old(state)),
        match created {
            Ok(()) => {
                let d = DialogView { dialog_type, dialog_id: dialog_id@ };
                &&& final(state).dialogs@.dom() == old(state).dialogs@.dom().insert(user_id)
                &&& final(state).dialogs@[user_id]@ == d
                &&& forall|k: u64|
                    k != user_id && #[trigger] old(state).dialogs@.contains_key(k)
                        ==> final(state).dialogs@[k] == old(state).dialogs@[k]
                &&& r matches Ok(a) && a@ == (ActionView::InvokeStep { user_id, dialog: d })
            },
            Err(e) => {
                &&& final(state).dialogs@ == old(state).dialogs@
                &&& r == Err::<Action, DialogError>(DialogError::Worker(e))
            },
        },
{
    match created {
        Ok(()) => {
            let dialog = Dialog { dialog_type, dialog_id };
            let handle = dialog.duplicate();
            state.dialogs.insert(user_id, dialog);
            Ok(Action::InvokeStep { user_id, dialog: handle })
        },
        Err(e) => Err(DialogError::Worker(e)),
    }
}

/// The session of `user_id` is the dialog run by worker `dialog_id`.
pub open spec fn holds_session(dialogs: Map<u64, Dialog>, user_id: u64, dialog_id: Seq<char>) -> bool {
    dialogs.contains_key(user_id) && dialogs[user_id].dialog_id@ == dialog_id
}

/// What becomes of the router state when a step of worker `dialog_id`
/// hands back a finished record: the record is committed and the session
/// ends, but only while that worker still holds the user's session, so a
/// redelivered result commits nothing more.
pub open spec fn finished<T>(
    before: &State,
    after: &State,
    before_records: Map<u64, Vec<T>>,
    after_records: Map<u64, Vec<T>>,
    user_id: u64,
    dialog_id: Seq<char>,
    item: T,
    r: Result<Option<Action>, DialogError>,
) -> bool {
    if holds_session(before.dialogs@, user_id, dialog_id) {
        &&& appended(before_records, after_records, user_id, item)
        &&& after.dialogs@ == before.dialogs@.remove(user_id)
        &&& r matches Ok(Some(a)) && a@ == (ActionView::DeleteWorker {
            dialog: before.dialogs@[user_id]@,
        })
    } else {
        &&& after_records == before_records
        &&& after.dialogs@ == before.dialogs@
        &&& r matches Ok(None)
    }
}

fn take_session(state: &mut State, user_id: u64, dialog_id: &String) -> (r: Option<Action>)
    ensures
        final(state).collections_unchanged(old(state)),
        if holds_session(old(state).dialogs@, user_id, dialog_id@) {
            &&& final(state).dialogs@ == old(state).dialogs@.remove(user_id)
            &&& r matches Some(a) && a@ == (ActionView::DeleteWorker {
                dialog: old(state).dialogs@[user_id]@,
            })
        } else {
            &&& final(state).dialogs@ == old(state).dialogs@
            &&& r is None
        },
{
    match state.session(user_id) {
        Some(dialog) => {
            if dialog.dialog_id == *dialog_id {
                Some(dispose_dialog(state, user_id, dialog))
            } else {
                None
            }
        },
        None => None,
    }
}

/// What a reply of a book dialog's step does to the router state.
pub open spec fn book_reply_effect(
    before: &State,
    after: &State,
    user_id: u64,
    dialog_id: Seq<char>,
    reply: ResultCaseInsensitive<AddBookDialogResult, String>,
    r: Result<Option<Action>, DialogError>,
) -> bool {
    &&& after.movies@ == before.movies@
    &&& after.quotes@ == before.quotes@
    &&& match reply {
        ResultCaseInsensitive::Success(AddBookDialogResult { book: Some(b) }) => finished(
            before,
            after,
            before.books@,
            after.books@,
            user_id,
            dialog_id,
            b,
            r,
        ),
        ResultCaseInsensitive::Success(AddBookDialogResult { book: None }) => {
            &&& after.books@ == before.books@
            &&& after.dialogs@ == before.dialogs@
            &&& r matches Ok(None)
        },
        ResultCaseInsensitive::Failure(e) => {
            &&& after.books@ == before.books@
            &&& after.dialogs@ == before.dialogs@
            &&& r == Err::<Option<Action>, DialogError>(DialogError::Step(e))
        },
    }
}

/// Takes in what a step of a book dialog handed back.
pub fn add_book_dialog_step(
    state: &mut State,
    user_id: u64,
    dialog_id: &String,
    reply: ResultCaseInsensitive<AddBookDialogResult, String>,
) -> (r: Result<Option<Action>, DialogError>)
    ensures
        book_reply_effect(old(state), final(state), user_id, dialog_id@, reply, r),
{
    match reply {
        ResultCaseInsensitive::Success(result) => match result.book {
            Some(book) => {
                let done = take_session(state, user_id, dialog_id);
                if done.is_some() {
                    commit(state, user_id, Record::Book(book));
                }
                Ok(done)
            },
            None => Ok(None),
        },
        ResultCaseInsensitive::Failure(e) => Err(DialogError::Step(e)),
    }
}

/// What a reply of a movie dialog's step does to the router state.
pub open spec fn movie_reply_effect(
    before: &State,
    after: &State,
    user_id: u64,
    dialog_id: Seq<char>,
    reply: ResultCaseInsensitive<AddMovieDialogResult, String>,
    r: Result<Option<Action>, DialogError>,
) -> bool {
    &&& after.books@ == before.books@
    &&& after.quotes@ == before.quotes@
    &&& match reply {
        ResultCaseInsensitive::Success(AddMovieDialogResult { movie: Some(m) }) => finished(
            before,
            after,
            before.movies@,
            after.movies@,
            user_id,
            dialog_id,
            m,
            r,
        ),
        ResultCaseInsensitive::Success(AddMovieDialogResult { movie: None }) => {
            &&& after.movies@ == before.movies@
            &&& after.dialogs@ == before.dialogs@
            &&& r matches Ok(None)
        },
        ResultCaseInsensitive::Failure(e) => {
            &&& after.movies@ == before.movies@
            &&& after.dialogs@ == before.dialogs@
            &&& r == Err::<Option<Action>, DialogError>(DialogError::Step(e))
        },
    }
}

/// Takes in what a step of a movie dialog handed back.
pub fn add_movie_dialog_step(
    state: &mut State,
    user_id: u64,
    dialog_id: &String,
    reply: ResultCaseInsensitive<AddMovieDialogResult, String>,
) -> (r: Result<Option<Action>, DialogError>)
    ensures
        movie_reply_effect(old(state), final(state), user_id, dialog_id@, reply, r),
{
    match reply {
        ResultCaseInsensitive::Success(result) => match result.movie {
            Some(movie) => {
                let done = take_session(state, user_id, dialog_id);
                if done.is_some() {
                    commit(state, user_id, Record::Movie(movie));
                }
                Ok(done)
            },
            None => Ok(None),
        },
        ResultCaseInsensitive::Failure(e) => Err(DialogError::Step(e)),
    }
}

/// What a reply of a quote dialog's step does to the router state.
pub open spec fn quote_reply_effect(
    before: &State,
    after: &State,
    user_id: u64,
    dialog_id: Seq<char>,
    reply: ResultCaseInsensitive<AddQuoteDialogResult, String>,
    r: Result<Option<Action>, DialogError>,
) -> bool {
    &&& after.books@ == before.books@
    &&& after.movies@ == before.movies@
    &&& match reply {
        ResultCaseInsensitive::Success(AddQuoteDialogResult { quote: Some(q) }) => finished(
            before,
            after,
            before.quotes@,
            after.quotes@,
            user_id,
            dialog_id,
            q,
            r,
        ),
        ResultCaseInsensitive::Success(AddQuoteDialogResult { quote: None }) => {
            &&& after.quotes@ == before.quotes@
            &&& after.dialogs@ == before.dialogs@
            &&& r matches Ok(None)
        },
        ResultCaseInsensitive::Failure(e) => {
            &&& after.quotes@ == before.quotes@
            &&& after.dialogs@ == before.dialogs@
            &&& r == Err::<Option<Action>, DialogError>(DialogError::Step(e))
        },
    }
}

/// Takes in what a step of a quote dialog handed back.
pub fn add_quote_dialog_step(
    state: &mut State,
    user_id: u64,
    dialog_id: &String,
    reply: ResultCaseInsensitive<AddQuoteDialogResult, String>,
) -> (r: Result<Option<Action>, DialogError>)
    ensures
        quote_reply_effect(old(state), final(state), user_id, dialog_id@, reply, r),
{
    match reply {
        ResultCaseInsensitive::Success(result) => match result.quote {
            Some(quote) => {
                let done = take_session(state, user_id, dialog_id);
                if done.is_some() {
                    commit(state, user_id, Record::Quote(quote));
                }
                Ok(done)
            },
            None => Ok(None),
        },
        ResultCaseInsensitive::Failure(e) => Err(DialogError::Step(e)),
    }
}

/// A decoded reply of a dialog's step, by dialog type.
#[derive(Debug, PartialEq, Eq)]
pub enum StepReply {
    Book(ResultCaseInsensitive<AddBookDialogResult, String>),
    Movie(ResultCaseInsensitive<AddMovieDialogResult, String>),
    Quote(ResultCaseInsensitive<AddQuoteDialogResult, String>),
}

/// What a reply of a dialog's step does to the router state.
pub open spec fn reply_effect(
    before: &State,
    after: &State,
    user_id: u64,
    dialog_id: Seq<char>,
    reply: StepReply,
    r: Result<Option<Action>, DialogError>,
) -> bool {
    match reply {
        StepReply::Book(b) => book_reply_effect(before, after, user_id, dialog_id, b, r),
        StepReply::Movie(m) => movie_reply_effect(before, after, user_id, dialog_id, m, r),
        StepReply::Quote(q) => quote_reply_effect(before, after, user_id, dialog_id, q, r),
    }
}

/// Takes in the reply of a step of `dialog`, the active dialog of `user_id`.
pub fn dispatch_dialog(state: &mut State, user_id: u64, dialog: &Dialog, reply: StepReply) -> (r:
    Result<Option<Action>, DialogError>)
    ensures
        reply_effect(old(state), final(state), user_id, dialog.dialog_id@, reply, r),
{
    match reply {
        StepReply::Book(b) => add_book_dialog_step(state, user_id, &dialog.dialog_id, b),
        StepReply::Movie(m) => add_movie_dialog_step(state, user_id, &dialog.dialog_id, m),
        StepReply::Quote(q) => add_quote_dialog_step(state, user_id, &dialog.dialog_id, q),
    }
}

/// The text that answers a command other than one that starts a dialog.
pub open spec fn command_text(state: &State, user_id: u64, cmd: Command) -> Seq<char> {
    match cmd {
        Command::ListBooks => books_text(state.books@, user_id),
        Command::ListMovies => movies_text(state.movies@, user_id),
        Command::ListQuotes => quotes_text(state.quotes@, user_id),
        _ => help_text(),
    }
}

/// The answer to a text from a user who is in no dialog: a command that
/// starts a dialog asks for a new worker under a fresh id; the others are
/// answered with a text; anything else goes unanswered.
pub open spec fn command_outcome(
    state: &State,
    user: u64,
    chat: i64,
    text: Seq<char>,
    r: Option<Action>,
) -> bool {
    match command_spec(text) {
        None => r is None,
        Some(Command::Start(t)) => r matches Some(
            Action::CreateWorker { user_id, dialog_type, dialog_id },
        ) && user_id == user && dialog_type == t && dialog_id@.len() == 36,
        Some(cmd) => r matches Some(a) && a@ == (ActionView::Send {
            chat_id: chat,
            text: command_text(state, user, cmd),
        }),
    }
}

/// Answers a text from a user who is in no dialog.
pub fn handle_commands(state: &State, user_id: u64, chat_id: i64, text: &str) -> (r: Option<
    Action,
>)
    ensures
        command_outcome(state, user_id, chat_id, text@, r),
{
    match parse_command(text) {
        None => None,
        Some(Command::Start(dialog_type)) => Some(
            Action::CreateWorker { user_id, dialog_type, dialog_id: new_worker_id() },
        ),
        Some(Command::Help) => Some(Action::Send(OutgoingMessage { chat_id, text: help() })),
        Some(Command::ListBooks) => Some(
            Action::Send(OutgoingMessage { chat_id, text: list_books(&state.books, user_id) }),
        ),
        Some(Command::ListMovies) => Some(
            Action::Send(OutgoingMessage { chat_id, text: list_movies(&state.movies, user_id) }),
        ),
        Some(Command::ListQuotes) => Some(
            Action::Send(OutgoingMessage { chat_id, text: list_quotes(&state.quotes, user_id) }),
        ),
    }
}

pub open spec fn is_reset(text: Option<String>) -> bool {
    text matches Some(t) && has_prefix(t@, "/reset"@)
}

/// Routes a chat message. A message without a sender is ignored. A user in
/// a dialog either resets it (`/reset`: the session ends, the worker is to
/// be deleted, and the user is told) or has the message forwarded to the
/// dialog's worker; any other user's text is taken as a command.
pub fn on_message(state: &mut State, from: Option<u64>, chat_id: i64, text: Option<String>) -> (r:
    Vec<Action>)
    ensures
        final(state).collections_unchanged(old(state)),
        match from {
            None => final(state).dialogs@ == old(state).dialogs@ && r@.len() == 0,
            Some(u) => if old(state).dialogs@.contains_key(u) {
                let d = old(state).dialogs@[u]@;
                if is_reset(text) {
                    &&& final(state).dialogs@ == old(state).dialogs@.remove(u)
                    &&& actions_view(r@) == seq![
                        ActionView::DeleteWorker { dialog: d },
                        ActionView::Send { chat_id, text: "Dialog reset"@ },
                    ]
                } else {
                    &&& final(state).dialogs@ == old(state).dialogs@
                    &&& actions_view(r@) == seq![ActionView::InvokeStep { user_id: u, dialog: d }]
                }
            } else {
                &&& final(state).dialogs@ == old(state).dialogs@
                &&& match text {
                    Some(t) => r@.len() <= 1 && command_outcome(
                        old(state),
                        u,
                        chat_id,
                        t@,
                        if r@.len() == 0 {
                            None
                        } else {
                            Some(r@[0])
                        },
                    ),
                    None => r@.len() == 0,
                }
            },
        },
{
    let mut actions: Vec<Action> = Vec::new();
    let user_id = match from {
        Some(u) => u,
        None => return actions,
    };
    match state.session(user_id) {
        Some(dialog) => {
            let reset = match &text {
                Some(t) => starts_with(t.as_str(), "/reset"),
                None => false,
            };
            if reset {
                actions.push(dispose_dialog(state, user_id, dialog));
                actions.push(
                    Action::Send(OutgoingMessage { chat_id, text: String::from_str("Dialog reset") }),
                );
            } else {
                actions.push(Action::InvokeStep { user_id, dialog });
            }
        },
        None => {
            if let Some(t) = &text {
                if let Some(a) = handle_commands(state, user_id, chat_id, t.as_str()) {
                    actions.push(a);
                }
            }
        },
    }
    proof {
        assert(actions_view(actions@) =~= actions@.map_values(|a: Action| a@));
    }
    actions
}

/// Routes a callback query: only a user in a dialog has it forwarded to the
/// dialog's worker.
pub fn on_callback_query(state: &State, user_id: u64) -> (r: Option<Action>)
    ensures
        match r {
            Some(a) => state.dialogs@.contains_key(user_id) && a@ == (ActionView::InvokeStep {
                user_id,
                dialog: state.dialogs@[user_id]@,
            }),
            None => !state.dialogs@.contains_key(user_id),
        },
{
    match state.session(user_id) {
        Some(dialog) => Some(Action::InvokeStep { user_id, dialog }),
        None => None,
    }
}

/// A finished record is committed at most once: once the router has taken
/// in a step's finished record, the same reply delivered again changes
/// nothing and commits nothing.
pub proof fn lemma_redelivered_result_commits_once<T>(
    s0: &State,
    s1: &State,
    s2: &State,
    c0: Map<u64, Vec<T>>,
    c1: Map<u64, Vec<T>>,
    c2: Map<u64, Vec<T>>,
    user_id: u64,
    dialog_id: Seq<char>,
    item: T,
    r1: Result<Option<Action>, DialogError>,
    r2: Result<Option<Action>, DialogError>,
)
    requires
        finished(s0, s1, c0, c1, user_id, dialog_id, item, r1),
        finished(s1, s2, c1, c2, user_id, dialog_id, item, r2),
    ensures
        c2 == c1,
        s2.dialogs@ == s1.dialogs@,
        r2 matches Ok(None),
        !holds_session(s1.dialogs@, user_id, dialog_id),
        records(c2, user_id).len() <= records(c0, user_id).len() + 1,
{
}

} // verus!
