//! The task worker's logic: complete one task from the outside world's
//! answer for it, and process a whole submission sequence in order, one
//! result per task.

use vstd::prelude::*;
use vstd::pervasive::unreached;
use vstd::string::StringExecFns;
use crate::decode::{decode_lines_spec, decode_stream};
use crate::mode::Mode;
use crate::route::{route, spec_route, RouteChoice, RouteDecision};

verus! {

/// One user-submitted prompt paired with the mode active at submission time.
#[derive(Clone)]
pub enum Task {
    Query(String, Mode),
}

/// What one streaming generation call came back with: the raw lines of a
/// successful response, the status text of a non-success response, or the
/// cause of a connection-level failure.
pub enum FetchOutcome {
    Lines(Vec<String>),
    HttpFailure(String),
    ConnectFailure(String),
}

/// The outside world's part in one task: no call at all, one transport
/// outcome, or the agent pipeline's single reply.
pub enum Exchange {
    NoCall,
    Fetched(FetchOutcome),
    AgentReply(String),
}

/// The final string a transport outcome is converted to: decode a
/// successful stream; mark the other outcomes with their error prefix.
pub open spec fn spec_fetch_result(o: FetchOutcome) -> Seq<char> {
    match o {
        FetchOutcome::Lines(ls) => decode_lines_spec(ls@.map_values(|l: String| l@)),
        FetchOutcome::HttpFailure(s) => "HTTP Error: "@ + s@,
        FetchOutcome::ConnectFailure(s) => "Request Error: "@ + s@,
    }
}

/// The exchange is of the kind the task's routing decision calls for.
pub open spec fn spec_exchange_matches(t: Task, ex: Exchange) -> bool {
    match t {
        Task::Query(p, m) => match spec_route(m, p@) {
            RouteChoice::ImmediateMsg(_) => ex is NoCall,
            RouteChoice::DispatchTo(_, _) => ex is Fetched,
            RouteChoice::DelegateTo(_) => ex is AgentReply,
        },
    }
}

/// The single final result of one task, given the outside world's answer.
pub open spec fn spec_task_result(t: Task, ex: Exchange) -> Seq<char> {
    match t {
        Task::Query(p, m) => match spec_route(m, p@) {
            RouteChoice::ImmediateMsg(msg) => msg,
            RouteChoice::DispatchTo(_, _) => match ex {
                Exchange::Fetched(o) => spec_fetch_result(o),
                _ => Seq::empty(),
            },
            RouteChoice::DelegateTo(_) => match ex {
                Exchange::AgentReply(s) => s@,
                _ => Seq::empty(),
            },
        },
    }
}

/// Convert one transport outcome into the task's final string.
pub fn fetch_result(o: &FetchOutcome) -> (r: String)
    ensures
        r@ == spec_fetch_result(*o),
{
    match o {
        FetchOutcome::Lines(ls) => decode_stream(ls),
        FetchOutcome::HttpFailure(s) => {
            let mut r = String::from_str("HTTP Error: ");
            r.append(s.as_str());
            r
        },
        FetchOutcome::ConnectFailure(s) => {
            let mut r = String::from_str("Request Error: ");
            r.append(s.as_str());
            r
        },
    }
}

/// Complete one task: route the prompt, resolve immediately where routing
/// says so, and otherwise convert the transport's or the agent's answer into
/// the single final result string. Never fails: every failure is itself a
/// result string.
pub fn complete_task(task: &Task, exchange: &Exchange) -> (r: String)
    requires
        spec_exchange_matches(*task, *exchange),
    ensures
        r@ == spec_task_result(*task, *exchange),
{
    let Task::Query(prompt, mode) = task;
    let decision = route(*mode, prompt.as_str());
    match decision {
        RouteDecision::Immediate(msg) => msg,
        RouteDecision::Dispatch(_model, _prompt) => match exchange {
            Exchange::Fetched(o) => fetch_result(o),
            _ => unreached(),
        },
        RouteDecision::Delegate(_p) => match exchange {
            Exchange::AgentReply(s) => s.clone(),
            _ => unreached(),
        },
    }
}

/// The worker's processing of a whole submission sequence: exactly one
/// result per task, emitted in submission order — no loss, no duplication,
/// no reordering — where `exchanges[i]` is the outside world's answer for
/// task `i`.
pub fn process_tasks(tasks: &Vec<Task>, exchanges: &Vec<Exchange>) -> (results: Vec<String>)
    requires
        tasks@.len() == exchanges@.len(),
        forall|i: int|
            0 <= i < tasks@.len() ==> spec_exchange_matches(tasks@[i], #[trigger] exchanges@[i]),
    ensures
        results@.len() == tasks@.len(),
        forall|i: int|
            0 <= i < tasks@.len() ==> (#[trigger] results@[i])@ == spec_task_result(
                tasks@[i],
                exchanges@[i],
            ),
{
    let mut results: Vec<String> = Vec::new();
    let mut i: usize = 0;
    while i < tasks.len()
        invariant
            i <= tasks@.len(),
            tasks@.len() == exchanges@.len(),
            forall|k: int|
                0 <= k < tasks@.len() ==> spec_exchange_matches(
                    tasks@[k],
                    #[trigger] exchanges@[k],
                ),
            results@.len() == i,
            forall|k: int|
                0 <= k < i ==> (#[trigger] results@[k])@ == spec_task_result(
                    tasks@[k],
                    exchanges@[k],
                ),
        decreases tasks@.len() - i,
    {
        let r = complete_task(&tasks[i], &exchanges[i]);
        results.push(r);
        i += 1;
    }
    results
}

} // verus!
