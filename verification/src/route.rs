//! The mode router: a pure function from the active mode and the raw user
//! input to either an immediately-resolved response or a concrete
//! (model, prompt) pair to dispatch, or a delegation to the agent pipeline.

use vstd::prelude::*;
use vstd::string::StrSliceExecFns;
use vstd::string::StringExecFns;
use crate::mode::Mode;
use crate::text::{spec_starts_with, str_starts_with};

verus! {

/// The routing decision for one task.
pub enum RouteDecision {
    /// Resolve locally with this message; no network call is made.
    Immediate(String),
    /// Issue one streaming generation call with this model and prompt.
    Dispatch(String, String),
    /// Hand the prompt to the external agent pipeline.
    Delegate(String),
}

/// A routing decision as mathematical values.
pub enum RouteChoice {
    ImmediateMsg(Seq<char>),
    DispatchTo(Seq<char>, Seq<char>),
    DelegateTo(Seq<char>),
}

pub open spec fn decision_view(d: RouteDecision) -> RouteChoice {
    match d {
        RouteDecision::Immediate(m) => RouteChoice::ImmediateMsg(m@),
        RouteDecision::Dispatch(model, prompt) => RouteChoice::DispatchTo(model@, prompt@),
        RouteDecision::Delegate(p) => RouteChoice::DelegateTo(p@),
    }
}

/// The routing rules, checked for the active mode:
/// text always dispatches to the text model; image dispatches to the vision
/// model only under the `image:` prefix and otherwise answers with a usage
/// hint; rag answers `rag:load` commands locally and otherwise dispatches the
/// `[RAG] `-tagged prompt to the text model; agent delegates the prompt
/// unchanged.
pub open spec fn spec_route(mode: Mode, input: Seq<char>) -> RouteChoice {
    match mode {
        Mode::Text => RouteChoice::DispatchTo("qwen3:8b"@, input),
        Mode::Image => if spec_starts_with(input, "image:"@) {
            RouteChoice::DispatchTo("qwen-vl:8b"@, input)
        } else {
            RouteChoice::ImmediateMsg("Image mode: use 'image:/path'"@)
        },
        Mode::Rag => if spec_starts_with(input, "rag:load "@) {
            RouteChoice::ImmediateMsg("RAG doc loaded (simulated)."@)
        } else {
            RouteChoice::DispatchTo("qwen3:8b"@, "[RAG] "@ + input)
        },
        Mode::Agent => RouteChoice::DelegateTo(input),
    }
}

/// Route one input under the active mode. Deterministic: the decision is a
/// function of the mode and the characters of the input alone, and no input
/// is rejected here.
pub fn route(mode: Mode, input: &str) -> (r: RouteDecision)
    ensures
        decision_view(r) == spec_route(mode, input@),
{
    match mode {
        Mode::Text => RouteDecision::Dispatch(String::from_str("qwen3:8b"), input.to_owned()),
        Mode::Image => if str_starts_with(input, "image:") {
            RouteDecision::Dispatch(String::from_str("qwen-vl:8b"), input.to_owned())
        } else {
            RouteDecision::Immediate(String::from_str("Image mode: use 'image:/path'"))
        },
        Mode::Rag => if str_starts_with(input, "rag:load ") {
            RouteDecision::Immediate(String::from_str("RAG doc loaded (simulated)."))
        } else {
            let mut p = String::from_str("[RAG] ");
            p.append(input);
            RouteDecision::Dispatch(String::from_str("qwen3:8b"), p)
        },
        Mode::Agent => RouteDecision::Delegate(input.to_owned()),
    }
}

} // verus!
