//! Core of a terminal chat client for a local inference service: a pure mode
//! router, a streaming-response decoder, and the task worker that ties them
//! together, each with a verified contract.

use vstd::prelude::*;

pub mod app;
pub mod decode;
pub mod mode;
pub mod ollama;
pub mod route;
pub mod text;
pub mod worker;

verus! {

} // verus!
