//! Dialog orchestration for a chat bot: per-user guided data-entry dialogs,
//! each backed by a remote stateful worker, and the router that ties chat
//! events, sessions and worker lifecycles together.
use vstd::prelude::*;

pub mod text;
pub mod domain;
pub mod dialog;
pub mod book;
pub mod movie;
pub mod quote;
pub mod fsm;
pub mod workers;
pub mod commands;
pub mod router;
pub mod queue;
pub mod transport;

verus! {

} // verus!
