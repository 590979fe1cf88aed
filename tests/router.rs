use dialog_bot::book::{self, BookState};
use dialog_bot::dialog::DialogInput;
use dialog_bot::domain::{
    AddBookDialogResult, AddMovieDialogResult, AddQuoteDialogResult, Book, Dialog, DialogType, Movie, Quote,
    ResultCaseInsensitive,
};
use dialog_bot::dialog::OutgoingMessage;
use dialog_bot::router::{
    add_book_dialog_step, add_movie_dialog_step, add_quote_dialog_step, commit, create_dialog, dispatch_dialog,
    dispose_dialog, handle_commands, on_callback_query, on_message, Action, DialogError, Record, State, StepReply,
};
use dialog_bot::workers::{check_create_response, WorkerError};

const USER: u64 = 7;
const CHAT: i64 = 70;

fn send(t: &str) -> Action {
    Action::Send(OutgoingMessage { chat_id: CHAT, text: t.to_string() })
}

fn start_book_dialog(state: &mut State) -> Dialog {
    let actions = on_message(state, Some(USER), CHAT, Some("/add_book".to_string()));
    assert_eq!(actions.len(), 1);
    let dialog_id = match &actions[0] {
        Action::CreateWorker { user_id, dialog_type, dialog_id } => {
            assert_eq!(*user_id, USER);
            assert_eq!(*dialog_type, DialogType::AddBook);
            dialog_id.clone()
        }
        other => panic!("unexpected action {:?}", other),
    };
    assert_eq!(dialog_id.len(), 36);
    assert!(state.dialogs.get(&USER).is_none());
    let dialog = Dialog { dialog_type: DialogType::AddBook, dialog_id: dialog_id.clone() };
    let next = create_dialog(state, USER, DialogType::AddBook, dialog_id, Ok(())).unwrap();
    assert_eq!(next, Action::InvokeStep { user_id: USER, dialog: dialog.clone() });
    assert_eq!(state.dialogs.get(&USER), Some(&dialog));
    dialog
}

fn forward(state: &mut State, worker: &mut BookState, dialog: &Dialog, t: &str) -> (Option<OutgoingMessage>, Result<Option<Action>, DialogError>) {
    let actions = on_message(state, Some(USER), CHAT, Some(t.to_string()));
    assert_eq!(actions, vec![Action::InvokeStep { user_id: USER, dialog: dialog.clone() }]);
    let out = book::handle_update(worker, DialogInput::Message { chat_id: CHAT, text: Some(t.to_string()) });
    let r = add_book_dialog_step(state, USER, &dialog.dialog_id, ResultCaseInsensitive::Success(out.result));
    (out.reply, r)
}

#[test]
fn book_dialog_end_to_end() {
    let mut state = State::new();
    let dialog = start_book_dialog(&mut state);
    let mut worker = BookState::Started;
    // the first step replays the start command
    let out = book::handle_update(&mut worker, DialogInput::Message { chat_id: CHAT, text: Some("/add_book".to_string()) });
    assert_eq!(out.reply.unwrap().text, "Enter title");
    assert_eq!(add_book_dialog_step(&mut state, USER, &dialog.dialog_id, ResultCaseInsensitive::Success(out.result)), Ok(None));

    let (r, done) = forward(&mut state, &mut worker, &dialog, "Dune");
    assert_eq!(worker, BookState::EnterAuthor("Dune".to_string()));
    assert_eq!(r.unwrap().text, "Enter author");
    assert_eq!(done, Ok(None));
    let (r, done) = forward(&mut state, &mut worker, &dialog, "Herbert");
    assert_eq!(worker, BookState::EnterRating("Dune".to_string(), "Herbert".to_string()));
    assert_eq!(r.unwrap().text, "Enter rating");
    assert_eq!(done, Ok(None));
    let (r, done) = forward(&mut state, &mut worker, &dialog, "5");
    assert_eq!(worker, BookState::Completed("Dune".to_string(), "Herbert".to_string(), 5));
    assert_eq!(r.unwrap().text, "Added book Dune by Herbert with rating 5");
    assert_eq!(done, Ok(Some(Action::DeleteWorker(dialog.clone()))));
    let dune = Book { title: "Dune".to_string(), author: "Herbert".to_string(), rating: 5 };
    assert_eq!(state.books.get(&USER), Some(&vec![dune.clone()]));
    assert!(state.dialogs.get(&USER).is_none());

    // the same terminal reply delivered again commits nothing more
    let again = add_book_dialog_step(
        &mut state,
        USER,
        &dialog.dialog_id,
        ResultCaseInsensitive::Success(AddBookDialogResult { book: Some(dune.clone()) }),
    );
    assert_eq!(again, Ok(None));
    assert_eq!(state.books.get(&USER), Some(&vec![dune]));

    // back to plain commands
    let actions = on_message(&mut state, Some(USER), CHAT, Some("/books".to_string()));
    assert_eq!(actions, vec![send("Your books:\nDune by Herbert (rating: 5)\n")]);
}

#[test]
fn completing_twice_gives_two_entries() {
    let mut state = State::new();
    for title in ["A", "B"] {
        let dialog = start_book_dialog(&mut state);
        let book = Book { title: title.to_string(), author: "X".to_string(), rating: 1 };
        let r = add_book_dialog_step(&mut state, USER, &dialog.dialog_id, ResultCaseInsensitive::Success(AddBookDialogResult { book: Some(book) }));
        assert_eq!(r, Ok(Some(Action::DeleteWorker(dialog))));
    }
    assert_eq!(state.books.get(&USER).map(|v| v.len()), Some(2));
    let actions = on_message(&mut state, Some(USER), CHAT, Some("/books".to_string()));
    assert_eq!(actions, vec![send("Your books:\nA by X (rating: 1)\nB by X (rating: 1)\n")]);
}

#[test]
fn reset_mid_dialog() {
    let mut state = State::new();
    let dialog = start_book_dialog(&mut state);
    let mut worker = BookState::Started;
    book::handle_update(&mut worker, DialogInput::Message { chat_id: CHAT, text: None });
    let (_, _) = forward(&mut state, &mut worker, &dialog, "Dune");
    assert_eq!(worker, BookState::EnterAuthor("Dune".to_string()));

    let actions = on_message(&mut state, Some(USER), CHAT, Some("/reset".to_string()));
    assert_eq!(actions, vec![Action::DeleteWorker(dialog), send("Dialog reset")]);
    assert!(state.dialogs.get(&USER).is_none());
    assert!(state.books.get(&USER).is_none());
    let actions = on_message(&mut state, Some(USER), CHAT, Some("/books".to_string()));
    assert_eq!(actions, vec![send("You have no books")]);
}

#[test]
fn failed_creation_leaves_no_session() {
    let mut state = State::new();
    let id = "46c2db15-f9d3-4a0c-9f12-ef3116391c8c".to_string();
    let created = check_create_response(&id, 500, "");
    assert_eq!(created, Err(WorkerError::CreateStatus(500)));
    let r = create_dialog(&mut state, USER, DialogType::AddBook, id, created);
    assert_eq!(r, Err(DialogError::Worker(WorkerError::CreateStatus(500))));
    assert!(state.dialogs.get(&USER).is_none());
    // sending the start command again starts over
    let actions = on_message(&mut state, Some(USER), CHAT, Some("/add_book".to_string()));
    assert!(matches!(actions[0], Action::CreateWorker { dialog_type: DialogType::AddBook, .. }));
}

#[test]
fn step_errors_keep_the_session() {
    let mut state = State::new();
    let dialog = start_book_dialog(&mut state);
    let r = add_book_dialog_step(&mut state, USER, &dialog.dialog_id, ResultCaseInsensitive::Failure("boom".to_string()));
    assert_eq!(r, Err(DialogError::Step("boom".to_string())));
    assert_eq!(state.dialogs.get(&USER), Some(&dialog));
    // a result for another worker than the user's session is not committed
    let stray = Book { title: "T".to_string(), author: "A".to_string(), rating: 2 };
    let r = add_book_dialog_step(&mut state, USER, &"other".to_string(), ResultCaseInsensitive::Success(AddBookDialogResult { book: Some(stray) }));
    assert_eq!(r, Ok(None));
    assert!(state.books.get(&USER).is_none());
    assert_eq!(state.dialogs.get(&USER), Some(&dialog));
}

#[test]
fn dispatch_by_dialog_type() {
    let mut state = State::new();
    let movie_dialog = Dialog { dialog_type: DialogType::AddMovie, dialog_id: "m1".to_string() };
    create_dialog(&mut state, 1, DialogType::AddMovie, "m1".to_string(), Ok(())).unwrap();
    let heat = Movie { title: "Heat".to_string(), year: 1995, rating: 5 };
    let r = dispatch_dialog(&mut state, 1, &movie_dialog, StepReply::Movie(ResultCaseInsensitive::Success(AddMovieDialogResult { movie: Some(heat.clone()) })));
    assert_eq!(r, Ok(Some(Action::DeleteWorker(movie_dialog))));
    assert_eq!(state.movies.get(&1), Some(&vec![heat]));

    let quote_dialog = Dialog { dialog_type: DialogType::AddQuote, dialog_id: "q1".to_string() };
    create_dialog(&mut state, 2, DialogType::AddQuote, "q1".to_string(), Ok(())).unwrap();
    let q = Quote { text: "x".to_string(), title: "y".to_string(), author: "z".to_string() };
    let r = add_quote_dialog_step(&mut state, 2, &"q1".to_string(), ResultCaseInsensitive::Success(AddQuoteDialogResult { quote: Some(q.clone()) }));
    assert_eq!(r, Ok(Some(Action::DeleteWorker(quote_dialog))));
    assert_eq!(state.quotes.get(&2), Some(&vec![q]));
    let r = add_movie_dialog_step(&mut state, 3, &"none".to_string(), ResultCaseInsensitive::Success(AddMovieDialogResult { movie: None }));
    assert_eq!(r, Ok(None));
    let actions = on_message(&mut state, Some(1), CHAT, Some("/movies".to_string()));
    assert_eq!(actions, vec![send("Your movies:\nHeat (1995) (rating: 5)\n")]);
    let actions = on_message(&mut state, Some(2), CHAT, Some("/quotes".to_string()));
    assert_eq!(actions, vec![send("Your quotes:\n\"x\" from y by z")]);
}

#[test]
fn commands_without_a_dialog() {
    let mut state = State::new();
    assert_eq!(
        handle_commands(&state, USER, CHAT, "/start"),
        Some(send("Use /add_book, /add_movie or /add_quote to add a new item. Use /books, /movies or /quotes to list your items."))
    );
    assert_eq!(handle_commands(&state, USER, CHAT, "/movies"), Some(send("You have no movies")));
    assert_eq!(handle_commands(&state, USER, CHAT, "/quotes"), Some(send("You have no quotes")));
    assert_eq!(handle_commands(&state, USER, CHAT, "hello"), None);
    assert!(matches!(
        handle_commands(&state, USER, CHAT, "/add_quote now"),
        Some(Action::CreateWorker { dialog_type: DialogType::AddQuote, .. })
    ));
    assert!(on_message(&mut state, None, CHAT, Some("/start".to_string())).is_empty());
    assert!(on_message(&mut state, Some(USER), CHAT, None).is_empty());
    assert_eq!(on_callback_query(&state, USER), None);
    let dialog = Dialog { dialog_type: DialogType::AddBook, dialog_id: "b".to_string() };
    create_dialog(&mut state, USER, DialogType::AddBook, "b".to_string(), Ok(())).unwrap();
    assert_eq!(on_callback_query(&state, USER), Some(Action::InvokeStep { user_id: USER, dialog: dialog.clone() }));
    // while in a dialog, commands go to the dialog
    assert_eq!(
        on_message(&mut state, Some(USER), CHAT, Some("/books".to_string())),
        vec![Action::InvokeStep { user_id: USER, dialog: dialog.clone() }]
    );
    assert_eq!(dispose_dialog(&mut state, USER, dialog.clone()), Action::DeleteWorker(dialog));
    assert!(state.session(USER).is_none());
}

#[test]
fn commit_appends_without_deduplication() {
    let mut state = State::new();
    let b = Book { title: "T".to_string(), author: "A".to_string(), rating: 3 };
    commit(&mut state, 1, Record::Book(b.clone()));
    commit(&mut state, 1, Record::Book(b.clone()));
    commit(&mut state, 2, Record::Book(b.clone()));
    let m = Movie { title: "M".to_string(), year: 2001, rating: 4 };
    commit(&mut state, 1, Record::Movie(m.clone()));
    assert_eq!(state.books.get(&1), Some(&vec![b.clone(), b.clone()]));
    assert_eq!(state.books.get(&2), Some(&vec![b]));
    assert_eq!(state.movies.get(&1), Some(&vec![m]));
    assert!(state.quotes.get(&1).is_none());
    assert!(state.dialogs.is_empty());
}
