use dialog_bot::book::{self, BookEvent, BookState};
use dialog_bot::dialog::{validate_rating, validate_year, DialogInput, HasDialogMessage, OutgoingMessage};
use dialog_bot::domain::{AddBookDialogResult, AddMovieDialogResult, AddQuoteDialogResult, Book, Movie, Quote};
use dialog_bot::fsm::{DialogEvent, DialogState};
use dialog_bot::movie::{self, MovieEvent, MovieState};
use dialog_bot::quote::{self, QuoteEvent, QuoteState};
use dialog_bot::domain::DialogType;

fn text(chat_id: i64, t: &str) -> DialogInput {
    DialogInput::Message { chat_id, text: Some(t.to_string()) }
}

fn reply(chat_id: i64, t: &str) -> Option<OutgoingMessage> {
    Some(OutgoingMessage { chat_id, text: t.to_string() })
}

#[test]
fn book_dialog_walkthrough() {
    let mut s = BookState::Started;
    let out = book::handle_update(&mut s, text(70, "/add_book"));
    assert_eq!(s, BookState::EnterTitle);
    assert_eq!(out.reply, reply(70, "Enter title"));
    assert_eq!(out.result, AddBookDialogResult { book: None });

    let out = book::handle_update(&mut s, text(70, "Dune"));
    assert_eq!(s, BookState::EnterAuthor("Dune".to_string()));
    assert_eq!(out.reply, reply(70, "Enter author"));
    assert_eq!(out.result.book, None);

    let out = book::handle_update(&mut s, text(70, "Herbert"));
    assert_eq!(s, BookState::EnterRating("Dune".to_string(), "Herbert".to_string()));
    assert_eq!(out.reply, reply(70, "Enter rating"));

    let out = book::handle_update(&mut s, text(70, "5"));
    assert_eq!(s, BookState::Completed("Dune".to_string(), "Herbert".to_string(), 5));
    assert_eq!(out.reply, reply(70, "Added book Dune by Herbert with rating 5"));
    let dune = Book { title: "Dune".to_string(), author: "Herbert".to_string(), rating: 5 };
    assert_eq!(out.result.book, Some(dune.clone()));

    // a redelivered event changes nothing and hands back the same book
    let again = book::handle_update(&mut s, text(70, "5"));
    assert_eq!(s, BookState::Completed("Dune".to_string(), "Herbert".to_string(), 5));
    assert_eq!(again.reply, None);
    assert_eq!(again.result.book, Some(dune.clone()));
    let other = book::handle_update(&mut s, DialogInput::Other);
    assert_eq!(other.reply, None);
    assert_eq!(other.result.book, Some(dune));
}

#[test]
fn rating_out_of_range_or_not_a_number_is_refused() {
    for bad in ["0", "6", "abc"] {
        let mut s = BookState::EnterRating("Dune".to_string(), "Herbert".to_string());
        let out = book::handle_update(&mut s, text(1, bad));
        assert_eq!(s, BookState::EnterRating("Dune".to_string(), "Herbert".to_string()));
        assert!(out.reply.is_some());
        assert_eq!(out.result.book, None);
    }
    assert_eq!(validate_rating(&"0".to_string()), Err("Rating must be between 1 and 5"));
    assert_eq!(validate_rating(&"6".to_string()), Err("Rating must be between 1 and 5"));
    assert_eq!(validate_rating(&"abc".to_string()), Err("Rating must be a number"));
    assert_eq!(validate_rating(&"".to_string()), Err("Rating must be a number"));
    assert_eq!(validate_rating(&"-1".to_string()), Err("Rating must be a number"));
    assert_eq!(validate_rating(&"99999999999".to_string()), Err("Rating must be a number"));
    let mut s = BookState::EnterRating("Dune".to_string(), "Herbert".to_string());
    let out = book::handle_update(&mut s, text(1, "0"));
    assert_eq!(out.reply, reply(1, "Rating must be between 1 and 5"));
}

#[test]
fn ratings_one_to_five_are_accepted() {
    for n in 1..=5u32 {
        let t = n.to_string();
        assert_eq!(validate_rating(&t), Ok(n));
        let mut s = BookState::EnterRating("T".to_string(), "A".to_string());
        let out = book::handle_update(&mut s, text(2, &t));
        assert_eq!(s, BookState::Completed("T".to_string(), "A".to_string(), n));
        assert!(out.result.book.is_some());
    }
    assert_eq!(validate_rating(&"+3".to_string()), Ok(3));
    assert_eq!(validate_rating(&"03".to_string()), Ok(3));
}

#[test]
fn year_boundaries() {
    assert_eq!(validate_year(&"1899".to_string()), Err("Year must be between 1900 and 2100"));
    assert_eq!(validate_year(&"2101".to_string()), Err("Year must be between 1900 and 2100"));
    assert_eq!(validate_year(&"abc".to_string()), Err("Year must be a number"));
    assert_eq!(validate_year(&"1900".to_string()), Ok(1900));
    assert_eq!(validate_year(&"2100".to_string()), Ok(2100));
    assert_eq!(validate_year(&"1984".to_string()), Ok(1984));
    for bad in ["1899", "2101", "abc"] {
        let mut s = MovieState::EnterYear("Alien".to_string());
        let out = movie::handle_update(&mut s, text(3, bad));
        assert_eq!(s, MovieState::EnterYear("Alien".to_string()));
        assert!(out.reply.is_some());
    }
    for good in ["1900", "2100"] {
        let mut s = MovieState::EnterYear("Alien".to_string());
        let out = movie::handle_update(&mut s, text(3, good));
        assert_eq!(s, MovieState::EnterRating("Alien".to_string(), good.parse().unwrap()));
        assert_eq!(out.reply, reply(3, "Enter rating"));
    }
}

#[test]
fn movie_dialog_walkthrough() {
    let mut s = MovieState::Started;
    assert_eq!(movie::handle_update(&mut s, text(9, "/add_movie")).reply, reply(9, "Enter title"));
    assert_eq!(movie::handle_update(&mut s, text(9, "Alien")).reply, reply(9, "Enter year"));
    let out = movie::handle_update(&mut s, text(9, "1979"));
    assert_eq!(s, MovieState::EnterRating("Alien".to_string(), 1979));
    assert_eq!(out.reply, reply(9, "Enter rating"));
    let out = movie::handle_update(&mut s, text(9, "4"));
    assert_eq!(s, MovieState::Completed("Alien".to_string(), 1979, 4));
    assert_eq!(out.reply, reply(9, "Added movie Alien (1979) with rating 4"));
    assert_eq!(
        out.result,
        AddMovieDialogResult { movie: Some(Movie { title: "Alien".to_string(), year: 1979, rating: 4 }) }
    );
}

#[test]
fn quote_dialog_walkthrough() {
    let mut s = QuoteState::Started;
    assert_eq!(quote::handle_update(&mut s, text(5, "/add_quote")).reply, reply(5, "Enter text"));
    assert_eq!(quote::handle_update(&mut s, text(5, "Fear is the mind-killer")).reply, reply(5, "Enter title"));
    assert_eq!(quote::handle_update(&mut s, text(5, "Dune")).reply, reply(5, "Enter author"));
    let out = quote::handle_update(&mut s, text(5, "Herbert"));
    assert_eq!(
        out.reply,
        reply(5, "Added quote: \"Fear is the mind-killer\" from Dune by Herbert")
    );
    assert_eq!(
        out.result,
        AddQuoteDialogResult {
            quote: Some(Quote {
                text: "Fear is the mind-killer".to_string(),
                title: "Dune".to_string(),
                author: "Herbert".to_string(),
            })
        }
    );
}

#[test]
fn message_without_text_or_other_update_holds_state() {
    let mut s = BookState::EnterTitle;
    let out = book::handle_update(&mut s, DialogInput::Message { chat_id: 4, text: None });
    assert_eq!(s, BookState::EnterTitle);
    assert_eq!(out.reply, None);
    let out = book::handle_update(&mut s, DialogInput::Other);
    assert_eq!(s, BookState::EnterTitle);
    assert_eq!(out.reply, None);
    // the first message starts the dialog even without text
    let mut s = QuoteState::Started;
    let out = quote::handle_update(&mut s, DialogInput::Message { chat_id: 4, text: None });
    assert_eq!(s, QuoteState::EnterText);
    assert_eq!(out.reply, reply(4, "Enter text"));
}

#[test]
fn unmatched_transitions_keep_the_state() {
    assert_eq!(BookState::Started.next(BookEvent::ProvideTitle("x".to_string())), BookState::Started);
    assert_eq!(BookState::EnterTitle.next(BookEvent::ProvideRating(3)), BookState::EnterTitle);
    assert_eq!(BookState::EnterTitle.next(BookEvent::ProvideTitle("x".to_string())), BookState::EnterAuthor("x".to_string()));
    let done = BookState::Completed("a".to_string(), "b".to_string(), 1);
    assert_eq!(done.clone().next(BookEvent::Start), done);
    assert_eq!(MovieState::EnterTitle.next(MovieEvent::ProvideYear(2000)), MovieState::EnterTitle);
    assert_eq!(QuoteState::EnterText.next(QuoteEvent::ProvideAuthor("z".to_string())), QuoteState::EnterText);

    let s = DialogState::Book(BookState::EnterTitle);
    assert_eq!(s.clone().transition(DialogEvent::Movie(MovieEvent::Start)), s);
    assert_eq!(
        s.transition(DialogEvent::Book(BookEvent::ProvideTitle("Dune".to_string()))),
        DialogState::Book(BookState::EnterAuthor("Dune".to_string()))
    );
    let done = DialogState::Quote(QuoteState::Completed("t".to_string(), "u".to_string(), "v".to_string()));
    assert_eq!(done.clone().transition(DialogEvent::Quote(QuoteEvent::Start)), done);
    assert_eq!(DialogState::initial(DialogType::AddMovie), DialogState::Movie(MovieState::Started));
}

#[test]
fn prompts_of_each_state() {
    assert_eq!(BookState::Started.message(), None);
    assert_eq!(BookState::EnterRating("a".to_string(), "b".to_string()).message(), Some("Enter rating".to_string()));
    assert_eq!(MovieState::EnterYear("a".to_string()).message(), Some("Enter year".to_string()));
    assert_eq!(QuoteState::EnterAuthor("a".to_string(), "b".to_string()).message(), Some("Enter author".to_string()));
    assert_eq!(
        BookState::Completed("It".to_string(), "King".to_string(), 3).message(),
        Some("Added book It by King with rating 3".to_string())
    );
    assert_eq!(
        DialogState::Movie(MovieState::Completed("Heat".to_string(), 1995, 5)).prompt(),
        Some("Added movie Heat (1995) with rating 5".to_string())
    );
    assert_eq!(DialogState::Book(BookState::Started).prompt(), None);
    assert_eq!(BookState::Completed("a".to_string(), "b".to_string(), 2).result().book.map(|b| b.rating), Some(2));
}
