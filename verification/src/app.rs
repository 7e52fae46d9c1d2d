//! The session controller's own state: the active mode, the session name,
//! the input line, and the history of exchanged messages, with the verified
//! parts of submission, quoting and persistence naming.

use vstd::prelude::*;
use vstd::string::StrSliceExecFns;
use vstd::string::StringExecFns;
use crate::mode::Mode;
use crate::text::{spec_starts_with, spec_trim, str_starts_with, trim_str};
use crate::worker::Task;

verus! {

/// One exchanged message: what the user submitted and what came back.
#[derive(Clone)]
pub struct Message {
    pub input: String,
    pub output: String,
}

/// The controller-side state of the client.
pub struct App {
    pub mode: Mode,
    pub session: String,
    pub input: String,
    pub history: Vec<Message>,
    pub show_history: bool,
    pub rag_loaded: bool,
    pub waiting: bool,
}

impl App {
    /// A fresh session: text mode, the default session name, nothing typed,
    /// nothing exchanged, nothing pending.
    pub fn new() -> (r: App)
        ensures
            r.mode == Mode::Text,
            r.session@ == "default"@,
            r.input@.len() == 0,
            r.history@.len() == 0,
            !r.show_history,
            !r.rag_loaded,
            !r.waiting,
    {
        App {
            mode: Mode::Text,
            session: String::from_str("default"),
            input: String::new(),
            history: Vec::new(),
            show_history: false,
            rag_loaded: false,
            waiting: false,
        }
    }

    /// Submit the typed input as one task. A blank input (nothing but
    /// whitespace) is refused and nothing changes. Otherwise the input line
    /// is taken whole as the task's prompt under the active mode, the input
    /// is cleared, the client starts waiting, a pending history entry is
    /// appended, and a `rag:load` command marks the document as loaded.
    /// The returned task is what the caller hands to the worker.
    pub fn send(&mut self) -> (t: Option<Task>)
        ensures
            spec_trim(old(self).input@).len() == 0 ==> t is None && *final (self) == *old(self),
            spec_trim(old(self).input@).len() != 0 ==> {
                &&& t matches Some(q) && q matches Task::Query(p, m) && p@ == old(self).input@
                    && m == old(self).mode
                &&& final (self).input@.len() == 0
                &&& final (self).waiting
                &&& final (self).rag_loaded == (old(self).rag_loaded || spec_starts_with(
                    old(self).input@,
                    "rag:load "@,
                ))
                &&& final (self).history@.len() == old(self).history@.len() + 1
                &&& final (self).history@.subrange(0, old(self).history@.len() as int) == old(
                    self,
                ).history@
                &&& final (self).history@.last().input@ == old(self).input@
                &&& final (self).history@.last().output@ == "..."@
                &&& final (self).mode == old(self).mode
                &&& final (self).session == old(self).session
                &&& final (self).show_history == old(self).show_history
            },
    {
        let trimmed = trim_str(self.input.as_str());
        if trimmed.as_str().unicode_len() == 0 {
            return None;
        }
        let input = self.input.clone();
        self.input = String::new();
        if str_starts_with(input.as_str(), "rag:load ") {
            self.rag_loaded = true;
        }
        self.waiting = true;
        self.history.push(
            Message { input: input.clone(), output: String::from_str("...") },
        );
        proof {
            assert(self.history@.subrange(0, old(self).history@.len() as int) =~= old(
                self,
            ).history@);
        }
        Some(Task::Query(input, self.mode))
    }

    /// The output of the `idx`-last exchange, counted from one: `quote(1)`
    /// is the most recent. Zero and anything past the history yield nothing.
    pub fn quote(&self, idx: usize) -> (r: Option<&str>)
        ensures
            (idx == 0 || idx > self.history@.len()) <==> r is None,
            r matches Some(s) ==> s@ == self.history@[self.history@.len() - idx].output@,
    {
        if idx == 0 || idx > self.history.len() {
            None
        } else {
            Some(self.history[self.history.len() - idx].output.as_str())
        }
    }

    /// The session file one response is appended to: the media log in image
    /// mode, the chat log in every other mode.
    pub fn save_filename(&self) -> (r: String)
        ensures
            self.mode == Mode::Image ==> r@ == self.session@ + ".media.json"@,
            self.mode != Mode::Image ==> r@ == self.session@ + ".chat.json"@,
    {
        let mut r = self.session.clone();
        if self.mode == Mode::Image {
            r.append(".media.json");
        } else {
            r.append(".chat.json");
        }
        r
    }
}

/// The session name a raw entry selects: the trimmed entry, or the default
/// name where the entry is blank.
pub fn normalize_session(raw: &str) -> (r: String)
    ensures
        spec_trim(raw@).len() == 0 ==> r@ == "default"@,
        spec_trim(raw@).len() != 0 ==> r@ == spec_trim(raw@),
{
    let t = trim_str(raw);
    if t.as_str().unicode_len() == 0 {
        String::from_str("default")
    } else {
        t
    }
}

} // verus!
