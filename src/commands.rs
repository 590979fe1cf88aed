//! The plain commands of a user who is in no dialog, and the texts that
//! list a user's collections.
use vstd::prelude::*;
use vstd::string::*;
use std::collections::HashMap;
use crate::domain::{Book, DialogType, Movie, Quote};
use crate::text::{decimal, has_prefix, push_decimal, starts_with};

verus! {

broadcast use vstd::std_specs::hash::group_hash_axioms;

#[derive(Clone, Copy, Debug, PartialEq, Eq, Structural)]
pub enum Command {
    Help,
    Start(DialogType),
    ListBooks,
    ListMovies,
    ListQuotes,
}

/// The command that a text begins with, checked in this order.
pub open spec fn command_spec(t: Seq<char>) -> Option<Command> {
    if has_prefix(t, "/start"@) {
        Some(Command::Help)
    } else if has_prefix(t, "/add_book"@) {
        Some(Command::Start(DialogType::AddBook))
    } else if has_prefix(t, "/add_movie"@) {
        Some(Command::Start(DialogType::AddMovie))
    } else if has_prefix(t, "/add_quote"@) {
        Some(Command::Start(DialogType::AddQuote))
    } else if has_prefix(t, "/books"@) {
        Some(Command::ListBooks)
    } else if has_prefix(t, "/movies"@) {
        Some(Command::ListMovies)
    } else if has_prefix(t, "/quotes"@) {
        Some(Command::ListQuotes)
    } else {
        None
    }
}

pub fn parse_command(text: &str) -> (r: Option<Command>)
    ensures
        r == command_spec(text@),
{
    if starts_with(text, "/start") {
        Some(Command::Help)
    } else if starts_with(text, "/add_book") {
        Some(Command::Start(DialogType::AddBook))
    } else if starts_with(text, "/add_movie") {
        Some(Command::Start(DialogType::AddMovie))
    } else if starts_with(text, "/add_quote") {
        Some(Command::Start(DialogType::AddQuote))
    } else if starts_with(text, "/books") {
        Some(Command::ListBooks)
    } else if starts_with(text, "/movies") {
        Some(Command::ListMovies)
    } else if starts_with(text, "/quotes") {
        Some(Command::ListQuotes)
    } else {
        None
    }
}

pub open spec fn help_text() -> Seq<char> {
    "Use /add_book, /add_movie or /add_quote to add a new item. Use /books, /movies or /quotes to list your items."@
}

pub fn help() -> (r: String)
    ensures
        r@ == help_text(),
{
    String::from_str(
        "Use /add_book, /add_movie or /add_quote to add a new item. Use /books, /movies or /quotes to list your items.",
    )
}

pub open spec fn book_line(b: Book) -> Seq<char> {
    b.title@ + " by "@ + b.author@ + " (rating: "@ + decimal(b.rating as nat) + ")\n"@
}

pub open spec fn movie_line(m: Movie) -> Seq<char> {
    m.title@ + " ("@ + decimal(m.year as nat) + ") (rating: "@ + decimal(m.rating as nat) + ")\n"@
}

pub open spec fn quote_line(q: Quote) -> Seq<char> {
    "\""@ + q.text@ + "\" from "@ + q.title@ + " by "@ + q.author@
}

pub open spec fn book_lines(s: Seq<Book>) -> Seq<char>
    decreases s.len(),
{
    if s.len() == 0 {
        Seq::empty()
    } else {
        book_lines(s.drop_last()) + book_line(s.last())
    }
}

pub open spec fn movie_lines(s: Seq<Movie>) -> Seq<char>
    decreases s.len(),
{
    if s.len() == 0 {
        Seq::empty()
    } else {
        movie_lines(s.drop_last()) + movie_line(s.last())
    }
}

pub open spec fn quote_lines(s: Seq<Quote>) -> Seq<char>
    decreases s.len(),
{
    if s.len() == 0 {
        Seq::empty()
    } else {
        quote_lines(s.drop_last()) + quote_line(s.last())
    }
}

pub open spec fn books_text(m: Map<u64, Vec<Book>>, user_id: u64) -> Seq<char> {
    if m.contains_key(user_id) {
        "Your books:\n"@ + book_lines(m[user_id]@)
    } else {
        "You have no books"@
    }
}

pub open spec fn movies_text(m: Map<u64, Vec<Movie>>, user_id: u64) -> Seq<char> {
    if m.contains_key(user_id) {
        "Your movies:\n"@ + movie_lines(m[user_id]@)
    } else {
        "You have no movies"@
    }
}

pub open spec fn quotes_text(m: Map<u64, Vec<Quote>>, user_id: u64) -> Seq<char> {
    if m.contains_key(user_id) {
        "Your quotes:\n"@ + quote_lines(m[user_id]@)
    } else {
        "You have no quotes"@
    }
}

/// The list of a user's books.
pub fn list_books(books: &HashMap<u64, Vec<Book>>, user_id: u64) -> (r: String)
    ensures
        r@ == books_text(books@, user_id),
{
    match books.get(&user_id) {
        Some(list) => {
            let mut text = String::from_str("Your books:\n");
            let ghost head = text@;
            let mut i: usize = 0;
            while i < list.len()
                invariant
                    i <= list.len(),
                    text@ == head + book_lines(list@.subrange(0, i as int)),
                decreases list.len() - i,
            {
                let book = &list[i];
                text.append(book.title.as_str());
                text.append(" by ");
                text.append(book.author.as_str());
                text.append(" (rating: ");
                push_decimal(&mut text, book.rating);
                text.append(")\n");
                proof {
                    let s = list@.subrange(0, i + 1);
                    assert(s.drop_last() =~= list@.subrange(0, i as int));
                    assert(s.last() == list@[i as int]);
                    assert(text@ =~= head + book_lines(s));
                }
                i = i + 1;
            }
            assert(list@.subrange(0, i as int) =~= list@);
            text
        },
        None => String::from_str("You have no books"),
    }
}

/// The list of a user's movies.
pub fn list_movies(movies: &HashMap<u64, Vec<Movie>>, user_id: u64) -> (r: String)
    ensures
        r@ == movies_text(movies@, user_id),
{
    match movies.get(&user_id) {
        Some(list) => {
            let mut text = String::from_str("Your movies:\n");
            let ghost head = text@;
            let mut i: usize = 0;
            while i < list.len()
                invariant
                    i <= list.len(),
                    text@ == head + movie_lines(list@.subrange(0, i as int)),
                decreases list.len() - i,
            {
                let movie = &list[i];
                text.append(movie.title.as_str());
                text.append(" (");
                push_decimal(&mut text, movie.year);
                text.append(") (rating: ");
                push_decimal(&mut text, movie.rating);
                text.append(")\n");
                proof {
                    let s = list@.subrange(0, i + 1);
                    assert(s.drop_last() =~= list@.subrange(0, i as int));
                    assert(s.last() == list@[i as int]);
                    assert(text@ =~= head + movie_lines(s));
                }
                i = i + 1;
            }
            assert(list@.subrange(0, i as int) =~= list@);
            text
        },
        None => String::from_str("You have no movies"),
    }
}

/// The list of a user's quotes.
pub fn list_quotes(quotes: &HashMap<u64, Vec<Quote>>, user_id: u64) -> (r: String)
    ensures
        r@ == quotes_text(quotes@, user_id),
{
    match quotes.get(&user_id) {
        Some(list) => {
            let mut text = String::from_str("Your quotes:\n");
            let ghost head = text@;
            let mut i: usize = 0;
            while i < list.len()
                invariant
                    i <= list.len(),
                    text@ == head + quote_lines(list@.subrange(0, i as int)),
                decreases list.len() - i,
            {
                let quote = &list[i];
                text.append("\"");
                text.append(quote.text.as_str());
                text.append("\" from ");
                text.append(quote.title.as_str());
                text.append(" by ");
                text.append(quote.author.as_str());
                proof {
                    let s = list@.subrange(0, i + 1);
                    assert(s.drop_last() =~= list@.subrange(0, i as int));
                    assert(s.last() == list@[i as int]);
                    assert(text@ =~= head + quote_lines(s));
                }
                i = i + 1;
            }
            assert(list@.subrange(0, i as int) =~= list@);
            text
        },
        None => String::from_str("You have no quotes"),
    }
}

} // verus!
