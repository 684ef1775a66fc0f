//! Core logic of an interactive chat client that talks to a hosted
//! language-model completion endpoint and can run a web-search tool
//! mid-conversation.
//!
//! This crate holds the verified parts: the conversation log and its
//! invariants, the agent loop's state machine, the transport retry policy,
//! response decoding, tool dispatch, and search-result formatting.
//! The unverified shell (terminal rendering, HTTP, credential prompting)
//! lives outside and drives these functions.

use vstd::prelude::*;

pub mod agent;
pub mod command;
pub mod conversation;
pub mod env_file;
pub mod json;
pub mod models;
pub mod phrases;
pub mod search;
pub mod text;
pub mod tools;
pub mod transport;
pub mod turn;

verus! {

/// Fixed number of search results requested from the search provider.
pub const RESULT_PAGE_SIZE: u64 = 5;

/// Maximum number of retries after a rate-limited completion request.
pub const MAX_RETRIES: u64 = 3;

/// Fixed backoff, in seconds, slept before each retry.
pub const BACKOFF_SECONDS: u64 = 2;

} // verus!
