//! The dialog that collects a movie: title, release year, then a rating.
use vstd::prelude::*;
use vstd::string::*;
use crate::dialog::{
    DialogInput, HasDialogMessage, OutgoingMessage, StepOutput, rating_check, year_check,
    validate_rating, validate_year, reply_view,
};
use crate::domain::{AddMovieDialogResult, Movie, MovieView, opt_view};
use crate::text::{decimal, push_decimal};

verus! {

#[derive(Clone, Debug, PartialEq, Eq)]
pub enum MovieState {
    Started,
    EnterTitle,
    /// (title)
    EnterYear(String),
    /// (title, year)
    EnterRating(String, u32),
    /// (title, year, rating)
    Completed(String, u32, u32),
}

#[derive(Clone, Debug, PartialEq, Eq)]
pub enum MovieEvent {
    Start,
    ProvideTitle(String),
    ProvideYear(u32),
    ProvideRating(u32),
}

/// The confirmation shown once a movie is complete.
pub open spec fn movie_added_text(title: Seq<char>, year: u32, rating: u32) -> Seq<char> {
    "Added movie "@ + title + " ("@ + decimal(year as nat) + ") with rating "@ + decimal(
        rating as nat,
    )
}

impl MovieState {
    /// How far along the dialog is; each accepted event moves it one on.
    pub open spec fn stage(self) -> nat {
        match self {
            MovieState::Started => 0,
            MovieState::EnterTitle => 1,
            MovieState::EnterYear(_) => 2,
            MovieState::EnterRating(_, _) => 3,
            MovieState::Completed(_, _, _) => 4,
        }
    }

    /// The event that this state waits for has come.
    pub open spec fn accepts(self, event: MovieEvent) -> bool {
        match (self, event) {
            (MovieState::Started, MovieEvent::Start) => true,
            (MovieState::EnterTitle, MovieEvent::ProvideTitle(_)) => true,
            (MovieState::EnterYear(_), MovieEvent::ProvideYear(_)) => true,
            (MovieState::EnterRating(_, _), MovieEvent::ProvideRating(_)) => true,
            _ => false,
        }
    }

    pub open spec fn is_terminal(self) -> bool {
        self is Completed
    }

    pub open spec fn spec_next(self, event: MovieEvent) -> MovieState {
        match (self, event) {
            (MovieState::Started, MovieEvent::Start) => MovieState::EnterTitle,
            (MovieState::EnterTitle, MovieEvent::ProvideTitle(title)) => MovieState::EnterYear(title),
            (MovieState::EnterYear(title), MovieEvent::ProvideYear(year)) => MovieState::EnterRating(
                title,
                year,
            ),
            (MovieState::EnterRating(title, year), MovieEvent::ProvideRating(rating)) => MovieState::Completed(
                title,
                year,
                rating,
            ),
            (state, _) => state,
        }
    }

    /// The movie, once the dialog is complete.
    pub open spec fn spec_result(self) -> Option<MovieView> {
        match self {
            MovieState::Completed(title, year, rating) => Some(
                MovieView { title: title@, year, rating },
            ),
            _ => None,
        }
    }

    /// The next state; an event that this state does not wait for leaves it
    /// as it is.
    pub fn next(self, event: MovieEvent) -> (r: MovieState)
        ensures
            r == self.spec_next(event),
    {
        match (self, event) {
            (MovieState::Started, MovieEvent::Start) => MovieState::EnterTitle,
            (MovieState::EnterTitle, MovieEvent::ProvideTitle(title)) => MovieState::EnterYear(title),
            (MovieState::EnterYear(title), MovieEvent::ProvideYear(year)) => MovieState::EnterRating(
                title,
                year,
            ),
            (MovieState::EnterRating(title, year), MovieEvent::ProvideRating(rating)) => MovieState::Completed(
                title,
                year,
                rating,
            ),
            (state, _) => state,
        }
    }

    /// What a step in this state hands back: the movie once complete.
    pub fn result(&self) -> (r: AddMovieDialogResult)
        ensures
            opt_view(r.movie) == self.spec_result(),
    {
        match self {
            MovieState::Completed(title, year, rating) => AddMovieDialogResult {
                movie: Some(Movie { title: title.clone(), year: *year, rating: *rating }),
            },
            _ => AddMovieDialogResult { movie: None },
        }
    }
}

impl HasDialogMessage for MovieState {
    open spec fn dialog_message(&self) -> Option<Seq<char>> {
        match self {
            MovieState::Started => None,
            MovieState::EnterTitle => Some("Enter title"@),
            MovieState::EnterYear(_) => Some("Enter year"@),
            MovieState::EnterRating(_, _) => Some("Enter rating"@),
            MovieState::Completed(title, year, rating) => Some(
                movie_added_text(title@, *year, *rating),
            ),
        }
    }

    fn message(&self) -> (r: Option<String>) {
        match self {
            MovieState::Started => None,
            MovieState::EnterTitle => Some(String::from_str("Enter title")),
            MovieState::EnterYear(_) => Some(String::from_str("Enter year")),
            MovieState::EnterRating(_, _) => Some(String::from_str("Enter rating")),
            MovieState::Completed(title, year, rating) => {
                let mut m = String::from_str("Added movie ");
                m.append(title.as_str());
                m.append(" (");
                push_decimal(&mut m, *year);
                m.append(") with rating ");
                push_decimal(&mut m, *rating);
                Some(m)
            },
        }
    }
}

/// The state after one step of the worker on `input`.
pub open spec fn step_state(s: MovieState, input: DialogInput) -> MovieState {
    match input {
        DialogInput::Message { chat_id, text } => match s {
            MovieState::Started => s.spec_next(MovieEvent::Start),
            MovieState::EnterTitle => match text {
                Some(t) => s.spec_next(MovieEvent::ProvideTitle(t)),
                None => s,
            },
            MovieState::EnterYear(_) => match text {
                Some(t) => match year_check(t@) {
                    Ok(n) => s.spec_next(MovieEvent::ProvideYear(n)),
                    Err(_) => s,
                },
                None => s,
            },
            MovieState::EnterRating(_, _) => match text {
                Some(t) => match rating_check(t@) {
                    Ok(n) => s.spec_next(MovieEvent::ProvideRating(n)),
                    Err(_) => s,
                },
                None => s,
            },
            MovieState::Completed(_, _, _) => s,
        },
        DialogInput::Other => s,
    }
}

/// The reply of one step of the worker on `input`: the prompt of the state
/// it moved to, or why a year or a rating was refused.
pub open spec fn step_reply(s: MovieState, input: DialogInput) -> Option<(i64, Seq<char>)> {
    match input {
        DialogInput::Message { chat_id, text } => match s {
            MovieState::Completed(_, _, _) => None,
            MovieState::Started => Some((chat_id, step_state(s, input).dialog_message()->0)),
            MovieState::EnterYear(_) => match text {
                Some(t) => match year_check(t@) {
                    Ok(_) => Some((chat_id, step_state(s, input).dialog_message()->0)),
                    Err(why) => Some((chat_id, why)),
                },
                None => None,
            },
            MovieState::EnterRating(_, _) => match text {
                Some(t) => match rating_check(t@) {
                    Ok(_) => Some((chat_id, step_state(s, input).dialog_message()->0)),
                    Err(why) => Some((chat_id, why)),
                },
                None => None,
            },
            _ => match text {
                Some(_) => Some((chat_id, step_state(s, input).dialog_message()->0)),
                None => None,
            },
        },
        DialogInput::Other => None,
    }
}

fn prompt_reply(chat_id: i64, state: &MovieState) -> (r: Option<OutgoingMessage>)
    requires
        state.dialog_message() is Some,
    ensures
        reply_view(r) == Some((chat_id, state.dialog_message()->0)),
{
    match state.message() {
        Some(text) => Some(OutgoingMessage { chat_id, text }),
        None => None,
    }
}

/// One step of the movie dialog's worker: moves the state on by what the
/// user sent, says what to reply, and hands back the movie once complete. A
/// completed dialog stays as it is and hands back the same movie again.
pub fn handle_update(state: &mut MovieState, input: DialogInput) -> (r: StepOutput<
    AddMovieDialogResult,
>)
    ensures
        *final(state) == step_state(*old(state), input),
        reply_view(r.reply) == step_reply(*old(state), input),
        opt_view(r.result.movie) == final(state).spec_result(),
{
    let mut s = MovieState::Started;
    std::mem::swap(state, &mut s);
    let ghost s0 = s;
    let reply = match input {
        DialogInput::Message { chat_id, text } => match s {
            MovieState::Started => {
                s = s.next(MovieEvent::Start);
                prompt_reply(chat_id, &s)
            },
            MovieState::EnterTitle => match text {
                Some(t) => {
                    s = s.next(MovieEvent::ProvideTitle(t));
                    prompt_reply(chat_id, &s)
                },
                None => None,
            },
            MovieState::EnterYear(_) => match text {
                Some(t) => match validate_year(&t) {
                    Ok(year) => {
                        s = s.next(MovieEvent::ProvideYear(year));
                        prompt_reply(chat_id, &s)
                    },
                    Err(why) => Some(OutgoingMessage { chat_id, text: String::from_str(why) }),
                },
                None => None,
            },
            MovieState::EnterRating(_, _) => match text {
                Some(t) => match validate_rating(&t) {
                    Ok(rating) => {
                        s = s.next(MovieEvent::ProvideRating(rating));
                        prompt_reply(chat_id, &s)
                    },
                    Err(why) => Some(OutgoingMessage { chat_id, text: String::from_str(why) }),
                },
                None => None,
            },
            MovieState::Completed(_, _, _) => None,
        },
        DialogInput::Other => None,
    };
    let result = s.result();
    *state = s;
    StepOutput { reply, result }
}

} // verus!
