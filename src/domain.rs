//! The records that dialogs collect, the kinds of dialog, and the router's
//! handle on a running dialog.
use vstd::prelude::*;

verus! {

/// The kinds of dialog that a user can start.
#[derive(Clone, Copy, Debug, PartialEq, Eq, Structural)]
pub enum DialogType {
    AddBook,
    AddMovie,
    AddQuote,
}

/// The worker template that runs each kind of dialog.
pub open spec fn template_id(t: DialogType) -> Seq<char> {
    match t {
        DialogType::AddBook => "d6e1ea5b-40aa-4f9c-92e2-9db58c02b45f"@,
        DialogType::AddMovie => "9ac53019-2336-468c-916d-cd46c63bc24b"@,
        DialogType::AddQuote => "c386feb3-fdfb-4e6a-a24c-cae39cd393f0"@,
    }
}

impl DialogType {
    /// The id of the worker template that runs this kind of dialog.
    pub fn template(&self) -> (r: &'static str)
        ensures
            r@ == template_id(*self),
    {
        match self {
            DialogType::AddBook => "d6e1ea5b-40aa-4f9c-92e2-9db58c02b45f",
            DialogType::AddMovie => "9ac53019-2336-468c-916d-cd46c63bc24b",
            DialogType::AddQuote => "c386feb3-fdfb-4e6a-a24c-cae39cd393f0",
        }
    }
}

/// The router's handle on a running dialog: its kind and the id (hyphenated
/// UUID text) of the worker that holds its state.
#[derive(Clone, Debug, PartialEq, Eq)]
pub struct Dialog {
    pub dialog_type: DialogType,
    pub dialog_id: String,
}

pub ghost struct DialogView {
    pub dialog_type: DialogType,
    pub dialog_id: Seq<char>,
}

impl View for Dialog {
    type V = DialogView;

    open spec fn view(&self) -> DialogView {
        DialogView { dialog_type: self.dialog_type, dialog_id: self.dialog_id@ }
    }
}

#[derive(Clone, Debug, PartialEq, Eq)]
pub struct Book {
    pub title: String,
    pub author: String,
    pub rating: u32,
}

#[derive(Clone, Debug, PartialEq, Eq)]
pub struct Quote {
    pub text: String,
    pub title: String,
    pub author: String,
}

#[derive(Clone, Debug, PartialEq, Eq)]
pub struct Movie {
    pub title: String,
    pub year: u32,
    pub rating: u32,
}

pub ghost struct BookView {
    pub title: Seq<char>,
    pub author: Seq<char>,
    pub rating: u32,
}

pub ghost struct QuoteView {
    pub text: Seq<char>,
    pub title: Seq<char>,
    pub author: Seq<char>,
}

pub ghost struct MovieView {
    pub title: Seq<char>,
    pub year: u32,
    pub rating: u32,
}

impl View for Book {
    type V = BookView;

    open spec fn view(&self) -> BookView {
        BookView { title: self.title@, author: self.author@, rating: self.rating }
    }
}

impl View for Quote {
    type V = QuoteView;

    open spec fn view(&self) -> QuoteView {
        QuoteView { text: self.text@, title: self.title@, author: self.author@ }
    }
}

impl View for Movie {
    type V = MovieView;

    open spec fn view(&self) -> MovieView {
        MovieView { title: self.title@, year: self.year, rating: self.rating }
    }
}

/// What one step of a book dialog hands back: the book once it is complete.
#[derive(Clone, Debug, PartialEq, Eq)]
pub struct AddBookDialogResult {
    pub book: Option<Book>,
}

/// What one step of a movie dialog hands back: the movie once it is complete.
#[derive(Clone, Debug, PartialEq, Eq)]
pub struct AddMovieDialogResult {
    pub movie: Option<Movie>,
}

/// What one step of a quote dialog hands back: the quote once it is complete.
#[derive(Clone, Debug, PartialEq, Eq)]
pub struct AddQuoteDialogResult {
    pub quote: Option<Quote>,
}

/// The outcome of a remote step as the worker runtime reports it: the
/// step's own result, or the error text it failed with.
#[derive(Clone, Debug, PartialEq, Eq)]
pub enum ResultCaseInsensitive<T, E> {
    Success(T),
    Failure(E),
}

pub open spec fn opt_view<T: View>(o: Option<T>) -> Option<T::V> {
    match o {
        Some(x) => Some(x@),
        None => None,
    }
}

} // verus!
