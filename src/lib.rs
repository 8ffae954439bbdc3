//! The state machine of a terminal HTTP client: stored requests, the
//! selection, the new-request form, key dispatch, and what the screens show.
//! Performing requests and drawing the terminal are left to the caller, which
//! hands the outcomes back.
use vstd::prelude::*;

pub mod app;
pub mod display;
pub mod events;
pub mod http;
pub mod lemmas;
pub mod models;
mod text;

verus! {

} // verus!
